use vstd::prelude::*;

use crate::address::Address;
use crate::table::AmountTable;
use crate::u256::{lemma_view_bounded, modulus, U256};

verus! {

/// Why a ledger operation failed.
#[derive(Clone, Copy, Debug, PartialEq, Eq, Structural)]
pub enum Error {
    /// The source account holds less than the amount.
    InsufficientBalance,
    /// The spender may move less than the amount.
    InsufficientAllowance,
    /// An amount would leave the 256-bit range.
    Overflow,
}

/// Record of value moving between accounts; `from` is `None` for newly
/// minted units.
#[derive(Clone, Copy, Debug, PartialEq, Eq)]
pub struct Transfer {
    pub from: Option<Address>,
    pub to: Option<Address>,
    pub value: U256,
}

/// Record of `owner` letting `spender` move up to `value` of its units.
#[derive(Clone, Copy, Debug, PartialEq, Eq)]
pub struct Approval {
    pub owner: Address,
    pub spender: Address,
    pub value: U256,
}

/// Record of `value` new units created for `to`.
#[derive(Clone, Copy, Debug, PartialEq, Eq)]
pub struct Mint {
    pub to: Address,
    pub value: U256,
}

/// A record appended to the ledger's log by a successful operation.
#[derive(Clone, Copy, Debug, PartialEq, Eq)]
pub enum TokenEvent {
    Transfer(Transfer),
    Approval(Approval),
    Mint(Mint),
}

/// The balance `a` holds after `value` moved from `from` to `to`.
pub open spec fn moved(old_balance: nat, a: Address, from: Address, to: Address, value: nat) -> nat {
    if from == to {
        old_balance
    } else if a == from {
        (old_balance - value) as nat
    } else if a == to {
        old_balance + value
    } else {
        old_balance
    }
}

/// A fungible token ledger: balances, allowances and the total supply.
pub struct Token {
    total_supply: U256,
    balances: AmountTable<Address>,
    allowances: AmountTable<(Address, Address)>,
    name: String,
    symbol: String,
    decimals: u8,
    address: Address,
    events: Vec<TokenEvent>,
}

impl Token {
    /// The ledger is well formed, and its balances add up to its supply.
    pub closed spec fn wf(&self) -> bool {
        &&& self.balances.wf()
        &&& self.allowances.wf()
        &&& self.balances.sum() == self.total_supply@
    }

    pub closed spec fn spec_total_supply(&self) -> nat {
        self.total_supply@
    }

    pub closed spec fn spec_balance(&self, a: Address) -> nat {
        self.balances.get(a)
    }

    /// The sum of the balances of all accounts.
    pub closed spec fn spec_balance_sum(&self) -> nat {
        self.balances.sum()
    }

    pub closed spec fn spec_allowance(&self, owner: Address, spender: Address) -> nat {
        self.allowances.get((owner, spender))
    }

    pub closed spec fn spec_name(&self) -> Seq<char> {
        self.name@
    }

    pub closed spec fn spec_symbol(&self) -> Seq<char> {
        self.symbol@
    }

    pub closed spec fn spec_decimals(&self) -> u8 {
        self.decimals
    }

    pub closed spec fn spec_address(&self) -> Address {
        self.address
    }

    /// The records emitted so far, oldest first.
    pub closed spec fn spec_events(&self) -> Seq<TokenEvent> {
        self.events@
    }

    /// Conservation: in a well-formed ledger the balances of all accounts add
    /// up to the total supply. Every operation keeps the ledger well formed.
    pub proof fn lemma_conservation(&self)
        requires
            self.wf(),
        ensures
            self.spec_balance_sum() == self.spec_total_supply(),
    {
    }

    /// The two ledgers agree on name, symbol, decimals and address.
    pub open spec fn same_metadata(&self, other: &Token) -> bool {
        &&& self.spec_name() == other.spec_name()
        &&& self.spec_symbol() == other.spec_symbol()
        &&& self.spec_decimals() == other.spec_decimals()
        &&& self.spec_address() == other.spec_address()
    }

    /// The two ledgers hold the same allowances.
    pub open spec fn same_allowances(&self, other: &Token) -> bool {
        forall|o: Address, s: Address| #[trigger]
            self.spec_allowance(o, s) == other.spec_allowance(o, s)
    }

    /// `self` holds the balances of `before` after `value` moved from `from` to `to`.
    pub open spec fn balances_moved(&self, before: &Token, from: Address, to: Address, value: nat) -> bool {
        forall|a: Address| #[trigger]
            self.spec_balance(a) == moved(before.spec_balance(a), a, from, to, value)
    }

    /// `self` is `before` after a successful `transfer` of `value` from `from` to `to`.
    pub open spec fn transferred(&self, before: &Token, from: Address, to: Address, value: U256) -> bool {
        &&& self.balances_moved(before, from, to, value@)
        &&& self.spec_total_supply() == before.spec_total_supply()
        &&& self.same_allowances(before)
        &&& self.same_metadata(before)
        &&& self.spec_events() == before.spec_events().push(
            TokenEvent::Transfer(Transfer { from: Some(from), to: Some(to), value }),
        )
    }

    /// `self` is `before` after `spender` moved `value` from `from` to `to`
    /// on its allowance.
    pub open spec fn transferred_from(
        &self,
        before: &Token,
        spender: Address,
        from: Address,
        to: Address,
        value: U256,
    ) -> bool {
        &&& self.balances_moved(before, from, to, value@)
        &&& self.spec_total_supply() == before.spec_total_supply()
        &&& forall|o: Address, s: Address| #[trigger]
            self.spec_allowance(o, s) == if o == from && s == spender {
                (before.spec_allowance(o, s) - value@) as nat
            } else {
                before.spec_allowance(o, s)
            }
        &&& self.same_metadata(before)
        &&& self.spec_events() == before.spec_events().push(
            TokenEvent::Transfer(Transfer { from: Some(from), to: Some(to), value }),
        )
    }

    /// `self` is `before` after `amount` new units were created for `to`.
    pub open spec fn minted(&self, before: &Token, to: Address, amount: U256) -> bool {
        &&& self.spec_total_supply() == before.spec_total_supply() + amount@
        &&& forall|a: Address| #[trigger]
            self.spec_balance(a) == if a == to {
                before.spec_balance(a) + amount@
            } else {
                before.spec_balance(a)
            }
        &&& self.same_allowances(before)
        &&& self.same_metadata(before)
        &&& self.spec_events() == before.spec_events().push(
            TokenEvent::Transfer(Transfer { from: None, to: Some(to), value: amount }),
        ).push(TokenEvent::Mint(Mint { to, value: amount }))
    }

    /// A new ledger at `address`, whose initial supply belongs to `caller`.
    pub fn new(
        caller: Address,
        address: Address,
        name: String,
        symbol: String,
        decimals: u8,
        initial_supply: U256,
    ) -> (r: Token)
        ensures
            r.wf(),
            r.spec_total_supply() == initial_supply@,
            forall|a: Address|
                #[trigger] r.spec_balance(a) == if a == caller {
                    initial_supply@
                } else {
                    0
                },
            forall|o: Address, s: Address| #[trigger] r.spec_allowance(o, s) == 0,
            r.spec_name() == name@,
            r.spec_symbol() == symbol@,
            r.spec_decimals() == decimals,
            r.spec_address() == address,
            r.spec_events() == if initial_supply@ > 0 {
                seq![
                    TokenEvent::Transfer(
                        Transfer { from: None, to: Some(caller), value: initial_supply },
                    ),
                ]
            } else {
                Seq::<TokenEvent>::empty()
            },
    {
        let mut balances: AmountTable<Address> = AmountTable::new();
        let mut events: Vec<TokenEvent> = Vec::new();
        if !initial_supply.is_zero() {
            balances.set_amount(caller, initial_supply);
            events.push(
                TokenEvent::Transfer(
                    Transfer { from: None, to: Some(caller), value: initial_supply },
                ),
            );
        }
        Token {
            total_supply: initial_supply,
            balances,
            allowances: AmountTable::new(),
            name,
            symbol,
            decimals,
            address,
            events,
        }
    }

    pub fn name(&self) -> (r: String)
        ensures
            r@ == self.spec_name(),
    {
        self.name.clone()
    }

    pub fn symbol(&self) -> (r: String)
        ensures
            r@ == self.spec_symbol(),
    {
        self.symbol.clone()
    }

    pub fn decimals(&self) -> (r: u8)
        ensures
            r == self.spec_decimals(),
    {
        self.decimals
    }

    pub fn total_supply(&self) -> (r: U256)
        ensures
            r@ == self.spec_total_supply(),
    {
        self.total_supply
    }

    /// The balance of `owner`, zero for an account never credited.
    pub fn balance_of(&self, owner: Address) -> (r: U256)
        requires
            self.wf(),
        ensures
            r@ == self.spec_balance(owner),
    {
        self.balance_of_impl(&owner)
    }

    fn balance_of_impl(&self, owner: &Address) -> (r: U256)
        requires
            self.wf(),
        ensures
            r@ == self.spec_balance(*owner),
    {
        self.balances.get_amount(owner)
    }

    /// What `spender` may still move out of `owner`'s balance, zero if never set.
    pub fn allowance(&self, owner: Address, spender: Address) -> (r: U256)
        requires
            self.wf(),
        ensures
            r@ == self.spec_allowance(owner, spender),
    {
        self.allowance_impl(&owner, &spender)
    }

    fn allowance_impl(&self, owner: &Address, spender: &Address) -> (r: U256)
        requires
            self.wf(),
        ensures
            r@ == self.spec_allowance(*owner, *spender),
    {
        self.allowances.get_amount(&(*owner, *spender))
    }

    /// Moves `value` from the caller's balance to `to`.
    pub fn transfer(&mut self, caller: Address, to: Address, value: U256) -> (r: Result<(), Error>)
        requires
            old(self).wf(),
        ensures
            final(self).wf(),
            r == if old(self).spec_balance(caller) < value@ {
                Err(Error::InsufficientBalance)
            } else {
                Ok(())
            },
            r.is_err() ==> *final(self) == *old(self),
            r.is_ok() ==> final(self).transferred(old(self), caller, to, value),
    {
        self.transfer_from_to(&caller, &to, value)
    }

    /// Lets `spender` move up to `value` of the caller's units, replacing any
    /// earlier allowance.
    pub fn approve(&mut self, caller: Address, spender: Address, value: U256) -> (r: Result<(), Error>)
        requires
            old(self).wf(),
        ensures
            final(self).wf(),
            r == Ok::<(), Error>(()),
            forall|o: Address, s: Address| #[trigger]
                final(self).spec_allowance(o, s) == if o == caller && s == spender {
                    value@
                } else {
                    old(self).spec_allowance(o, s)
                },
            forall|a: Address| #[trigger]
                final(self).spec_balance(a) == old(self).spec_balance(a),
            final(self).spec_total_supply() == old(self).spec_total_supply(),
            final(self).same_metadata(old(self)),
            final(self).spec_events() == old(self).spec_events().push(
                TokenEvent::Approval(Approval { owner: caller, spender, value }),
            ),
    {
        self.allowances.set_amount((caller, spender), value);
        self.events.push(TokenEvent::Approval(Approval { owner: caller, spender, value }));
        Ok(())
    }

    /// Moves `value` from `from` to `to` on the caller's allowance from `from`,
    /// and lowers that allowance by `value`.
    pub fn transfer_from(&mut self, caller: Address, from: Address, to: Address, value: U256) -> (r:
        Result<(), Error>)
        requires
            old(self).wf(),
        ensures
            final(self).wf(),
            r == if old(self).spec_allowance(from, caller) < value@ {
                Err(Error::InsufficientAllowance)
            } else if old(self).spec_balance(from) < value@ {
                Err(Error::InsufficientBalance)
            } else {
                Ok(())
            },
            r.is_err() ==> *final(self) == *old(self),
            r.is_ok() ==> final(self).transferred_from(old(self), caller, from, to, value),
    {
        let allowance = self.allowance_impl(&from, &caller);
        if allowance.lt(&value) {
            return Err(Error::InsufficientAllowance);
        }
        match self.transfer_from_to(&from, &to, value) {
            Err(e) => {
                return Err(e);
            },
            Ok(()) => {},
        }
        let ghost mid = *self;
        self.allowances.set_amount((from, caller), allowance.sub(&value));
        assert forall|o: Address, s: Address| #[trigger]
            self.spec_allowance(o, s) == if o == from && s == caller {
                (old(self).spec_allowance(o, s) - value@) as nat
            } else {
                old(self).spec_allowance(o, s)
            } by {
            assert(mid.spec_allowance(o, s) == old(self).spec_allowance(o, s));
        }
        assert forall|a: Address| #[trigger]
            self.spec_balance(a) == moved(old(self).spec_balance(a), a, from, to, value@) by {
            assert(mid.spec_balance(a) == self.spec_balance(a));
        }
        Ok(())
    }

    /// Creates `amount` new units for `to`; fails with `Overflow` where the
    /// supply would leave the 256-bit range.
    pub fn mint(&mut self, to: Address, amount: U256) -> (r: Result<(), Error>)
        requires
            old(self).wf(),
        ensures
            final(self).wf(),
            r == if old(self).spec_total_supply() + amount@ >= modulus() {
                Err(Error::Overflow)
            } else {
                Ok(())
            },
            r.is_err() ==> *final(self) == *old(self),
            r.is_ok() ==> final(self).minted(old(self), to, amount),
    {
        let new_total_supply = match self.total_supply.checked_add(&amount) {
            Some(v) => v,
            None => {
                return Err(Error::Overflow);
            },
        };
        proof {
            self.balances.lemma_get_le_sum(to);
            lemma_view_bounded(new_total_supply);
        }
        self.total_supply = new_total_supply;
        let to_balance = self.balances.get_amount(&to);
        // Cannot overflow: the balance is part of the old supply.
        let new_balance = match to_balance.checked_add(&amount) {
            Some(v) => v,
            None => {
                return Err(Error::Overflow);
            },
        };
        self.balances.set_amount(to, new_balance);
        self.events.push(TokenEvent::Transfer(Transfer { from: None, to: Some(to), value: amount }));
        self.events.push(TokenEvent::Mint(Mint { to, value: amount }));
        Ok(())
    }

    fn transfer_from_to(&mut self, from: &Address, to: &Address, value: U256) -> (r: Result<(), Error>)
        requires
            old(self).wf(),
        ensures
            final(self).wf(),
            r == if old(self).spec_balance(*from) < value@ {
                Err(Error::InsufficientBalance)
            } else {
                Ok(())
            },
            r.is_err() ==> *final(self) == *old(self),
            r.is_ok() ==> final(self).transferred(old(self), *from, *to, value),
    {
        let from_balance = self.balance_of_impl(from);
        if from_balance.lt(&value) {
            return Err(Error::InsufficientBalance);
        }
        self.balances.set_amount(*from, from_balance.sub(&value));
        proof {
            self.balances.lemma_get_le_sum(*to);
            lemma_view_bounded(self.total_supply);
        }
        let to_balance = self.balances.get_amount(to);
        // Cannot overflow: both amounts are parts of the supply.
        let new_to_balance = match to_balance.checked_add(&value) {
            Some(v) => v,
            None => {
                return Err(Error::Overflow);
            },
        };
        self.balances.set_amount(*to, new_to_balance);
        self.events.push(TokenEvent::Transfer(Transfer { from: Some(*from), to: Some(*to), value }));
        Ok(())
    }

    /// The records emitted so far, oldest first.
    pub fn events(&self) -> (r: &Vec<TokenEvent>)
        ensures
            r@ == self.spec_events(),
    {
        &self.events
    }

    /// The address of this ledger.
    pub fn address(&self) -> (r: Address)
        ensures
            r == self.spec_address(),
    {
        self.address
    }
}

} // verus!
