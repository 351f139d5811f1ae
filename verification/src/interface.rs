//! Interface identifiers.

use vstd::prelude::*;
use vstd::std_specs::cmp::PartialEqSpecImpl;

verus! {

/// Identifier of an interface: a hash of 32 bytes.
#[derive(Clone, Copy, Debug, Eq)]
pub struct InterfaceHash {
    pub hash: [u8; 32],
}

impl PartialEq for InterfaceHash {
    /// Compares the two hashes byte by byte.
    fn eq(&self, other: &InterfaceHash) -> (equal: bool) {
        let mut i: usize = 0;
        while i < 32
            invariant
                i <= 32,
                forall|j: int| 0 <= j < i ==> self.hash[j] == other.hash[j],
            decreases 32 - i,
        {
            if self.hash[i] != other.hash[i] {
                return false;
            }
            i = i + 1;
        }
        assert(self.hash =~= other.hash);
        true
    }
}

impl PartialEqSpecImpl for InterfaceHash {
    open spec fn obeys_eq_spec() -> bool {
        true
    }

    open spec fn eq_spec(&self, other: &InterfaceHash) -> bool {
        *self == *other
    }
}

impl InterfaceHash {
    /// Builds the identifier from its 32 bytes.
    pub fn from_raw_hash(hash: [u8; 32]) -> (interface: InterfaceHash)
        ensures
            interface.hash == hash,
    {
        InterfaceHash { hash }
    }
}

} // verus!
