use vstd::prelude::*;

verus! {

/// A 20-byte account identifier.
#[derive(Clone, Copy, Debug, Eq)]
pub struct Address {
    pub bytes: [u8; 20],
}

impl PartialEq for Address {
    fn eq(&self, other: &Address) -> (r: bool) {
        let mut i: usize = 0;
        while i < 20
            invariant
                0 <= i <= 20,
                forall|j: int| 0 <= j < i ==> self.bytes@[j] == other.bytes@[j],
            decreases 20 - i,
        {
            if self.bytes[i] != other.bytes[i] {
                return false;
            }
            i = i + 1;
        }
        proof {
            assert(self.bytes =~= other.bytes);
        }
        true
    }
}

impl vstd::std_specs::cmp::PartialEqSpecImpl for Address {
    open spec fn obeys_eq_spec() -> bool {
        true
    }

    open spec fn eq_spec(&self, other: &Address) -> bool {
        *self == *other
    }
}

impl From<[u8; 20]> for Address {
    fn from(bytes: [u8; 20]) -> (r: Address) {
        Address { bytes }
    }
}

impl vstd::std_specs::convert::FromSpecImpl<[u8; 20]> for Address {
    open spec fn obeys_from_spec() -> bool {
        true
    }

    open spec fn from_spec(bytes: [u8; 20]) -> Address {
        Address { bytes }
    }
}

} // verus!
