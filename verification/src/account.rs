use vstd::prelude::*;

verus! {

broadcast use vstd::array::group_array_axioms;

/// A 32-byte account identity, as the host chain addresses participants.
#[derive(Clone, Copy, Debug)]
pub struct AccountId {
    pub bytes: [u8; 32],
}

impl PartialEq for AccountId {
    fn eq(&self, other: &AccountId) -> (r: bool) {
        let mut i: usize = 0;
        while i < 32
            invariant
                0 <= i <= 32,
                forall|j: int| 0 <= j < i ==> self.bytes@[j] == other.bytes@[j],
            decreases 32 - i,
        {
            if self.bytes[i] != other.bytes[i] {
                return false;
            }
            i += 1;
        }
        proof {
            assert(self.bytes =~= other.bytes);
        }
        true
    }
}

impl vstd::std_specs::cmp::PartialEqSpecImpl for AccountId {
    open spec fn obeys_eq_spec() -> bool {
        true
    }

    open spec fn eq_spec(&self, other: &AccountId) -> bool {
        self.bytes == other.bytes
    }
}

impl From<[u8; 32]> for AccountId {
    fn from(bytes: [u8; 32]) -> (r: AccountId) {
        AccountId { bytes }
    }
}

impl vstd::std_specs::convert::FromSpecImpl<[u8; 32]> for AccountId {
    open spec fn obeys_from_spec() -> bool {
        true
    }

    open spec fn from_spec(bytes: [u8; 32]) -> AccountId {
        AccountId { bytes }
    }
}

} // verus!
