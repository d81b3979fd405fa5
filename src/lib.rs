//! A crowdfunding escrow over a fungible token ledger.
//!
//! The ledger (`token`) keeps balances, allowances and the total supply; the
//! escrow (`escrow`) keeps campaigns and pledges and moves value only through
//! the ledger's operations. The host supplies the caller, the block time and
//! the contracts' own addresses as plain arguments. An operation that fails
//! leaves both the escrow and the ledger as they were.
pub mod address;
pub mod escrow;
pub mod table;
pub mod token;
pub mod u256;

pub use address::Address;
pub use escrow::{Campaign, InkFundMe};
pub use token::Token;
pub use u256::U256;
