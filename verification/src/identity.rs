//! The principals that own a campaign or a contributor record.

use vstd::prelude::*;

verus! {

/// A principal, named by the 32 bytes of its public key.
///
/// Two identities are the same principal exactly when all their bytes agree.
#[derive(Clone, Copy, Debug, PartialEq, Eq)]
pub struct Identity {
    pub bytes: [u8; 32],
}

impl Identity {
    /// The principal named by `bytes`.
    pub fn new(bytes: [u8; 32]) -> (id: Identity)
        ensures
            id.bytes == bytes,
    {
        Identity { bytes }
    }

    /// Whether `self` and `other` name the same principal.
    pub fn same(&self, other: &Identity) -> (eq: bool)
        ensures
            eq == (*self == *other),
    {
        let mut i: usize = 0;
        while i < 32
            invariant
                i <= 32,
                forall|j: int| 0 <= j < i ==> self.bytes[j] == other.bytes[j],
            decreases 32 - i,
        {
            if self.bytes[i] != other.bytes[i] {
                return false;
            }
            i += 1;
        }
        assert(self.bytes =~= other.bytes);
        true
    }
}

} // verus!
