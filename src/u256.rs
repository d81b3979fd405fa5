use vstd::prelude::*;

verus! {

/// 2^128, the weight of the high half of a `U256`.
pub open spec fn half_base() -> nat {
    0x1_0000_0000_0000_0000_0000_0000_0000_0000nat
}

/// 2^256: every `U256` value lies below it.
pub open spec fn modulus() -> nat {
    half_base() * half_base()
}

/// An unsigned 256-bit integer, held as two 128-bit halves.
#[derive(Clone, Copy, Debug, PartialEq, Eq, Structural)]
pub struct U256 {
    pub hi: u128,
    pub lo: u128,
}

impl View for U256 {
    type V = nat;

    open spec fn view(&self) -> nat {
        self.hi as nat * half_base() + self.lo as nat
    }
}

/// Every value lies below 2^256.
pub proof fn lemma_view_bounded(a: U256)
    ensures
        a@ < modulus(),
{
    assert(a.hi as nat * half_base() <= (half_base() - 1) * half_base()) by (nonlinear_arith)
        requires
            a.hi < half_base(),
    ;
    assert((half_base() - 1) * half_base() + half_base() == modulus()) by (nonlinear_arith);
}

/// The `U256` whose number is `n`, for `n` below 2^256.
pub open spec fn u256_of(n: nat) -> U256 {
    U256 { hi: (n / half_base()) as u128, lo: (n % half_base()) as u128 }
}

/// A value is the `U256` of its own number.
pub proof fn lemma_u256_of_view(a: U256)
    ensures
        u256_of(a@) == a,
{
    vstd::arithmetic::div_mod::lemma_fundamental_div_mod_converse(
        a@ as int,
        half_base() as int,
        a.hi as int,
        a.lo as int,
    );
}

impl U256 {
    /// The number zero.
    pub fn zero() -> (r: U256)
        ensures
            r@ == 0,
    {
        U256 { hi: 0, lo: 0 }
    }

    pub fn is_zero(&self) -> (r: bool)
        ensures
            r == (self@ == 0),
    {
        self.hi == 0 && self.lo == 0
    }

    /// `self < other` on the numbers.
    pub fn lt(&self, other: &U256) -> (r: bool)
        ensures
            r == (self@ < other@),
    {
        self.hi < other.hi || (self.hi == other.hi && self.lo < other.lo)
    }

    /// `self >= other` on the numbers.
    pub fn ge(&self, other: &U256) -> (r: bool)
        ensures
            r == (self@ >= other@),
    {
        !self.lt(other)
    }

    /// The sum, or `None` where it does not fit in 256 bits.
    pub fn checked_add(&self, other: &U256) -> (r: Option<U256>)
        ensures
            r.is_some() == (self@ + other@ < modulus()),
            r.is_some() ==> r.unwrap()@ == self@ + other@,
    {
        proof {
            lemma_view_bounded(*self);
            lemma_view_bounded(*other);
        }
        let (lo, carry) = if self.lo <= u128::MAX - other.lo {
            (self.lo + other.lo, 0u128)
        } else {
            (self.lo - (u128::MAX - other.lo) - 1, 1u128)
        };
        if self.hi > u128::MAX - other.hi || self.hi + other.hi > u128::MAX - carry {
            proof {
                let h: int = self.hi + other.hi;
                let b: int = half_base() as int;
                assert(self@ + other@ == h * b + self.lo + other.lo) by (nonlinear_arith)
                    requires
                        h == self.hi + other.hi,
                        self@ == self.hi as nat * b + self.lo as nat,
                        other@ == other.hi as nat * b + other.lo as nat,
                ;
                vstd::arithmetic::mul::lemma_mul_inequality(b - carry, h, b);
                assert((b - carry) * b == b * b - carry * b) by (nonlinear_arith);
            }
            None
        } else {
            let r = U256 { hi: self.hi + other.hi + carry, lo };
            assert(r@ == self@ + other@) by (nonlinear_arith)
                requires
                    r.hi == self.hi + other.hi + carry,
                    r.lo + carry * half_base() == self.lo + other.lo,
                    r@ == r.hi as nat * half_base() + r.lo as nat,
                    self@ == self.hi as nat * half_base() + self.lo as nat,
                    other@ == other.hi as nat * half_base() + other.lo as nat,
            ;
            proof { lemma_view_bounded(r); }
            Some(r)
        }
    }

    /// The difference, where `other` is not larger.
    pub fn sub(&self, other: &U256) -> (r: U256)
        requires
            self@ >= other@,
        ensures
            r@ == self@ - other@,
    {
        let (lo, borrow) = if self.lo >= other.lo {
            (self.lo - other.lo, 0u128)
        } else {
            (self.lo + (u128::MAX - other.lo) + 1, 1u128)
        };
        assert(self.hi >= other.hi + borrow) by (nonlinear_arith)
            requires
                self@ >= other@,
                borrow == 1 ==> self.lo < other.lo,
                borrow == 0 || borrow == 1,
                self@ == self.hi as nat * half_base() + self.lo as nat,
                other@ == other.hi as nat * half_base() + other.lo as nat,
                self.lo < half_base(),
                other.lo < half_base(),
        ;
        let r = U256 { hi: self.hi - other.hi - borrow, lo };
        assert(r@ == self@ - other@) by (nonlinear_arith)
            requires
                r.hi == self.hi - other.hi - borrow,
                r.lo == self.lo - other.lo + borrow * half_base(),
                r@ == r.hi as nat * half_base() + r.lo as nat,
                self@ == self.hi as nat * half_base() + self.lo as nat,
                other@ == other.hi as nat * half_base() + other.lo as nat,
        ;
        r
    }
}

impl From<u128> for U256 {
    fn from(v: u128) -> (r: U256) {
        U256 { hi: 0, lo: v }
    }
}

impl vstd::std_specs::convert::FromSpecImpl<u128> for U256 {
    open spec fn obeys_from_spec() -> bool {
        true
    }

    open spec fn from_spec(v: u128) -> U256 {
        U256 { hi: 0, lo: v }
    }
}

} // verus!
