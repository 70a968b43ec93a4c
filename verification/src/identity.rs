//! Identities of the participants.

use vstd::prelude::*;

verus! {

/// The public identifier of a participant or account: thirty-two bytes that
/// the lottery stores and compares, and never interprets.
#[derive(Clone, Copy, Debug, PartialEq, Eq)]
pub struct Identity {
    pub bytes: [u8; 32],
}

impl Identity {
    /// Whether `self` and `other` name the same participant.
    pub fn same(&self, other: &Identity) -> (r: bool)
        ensures
            r == (*self == *other),
    {
        let mut i: usize = 0;
        while i < 32
            invariant
                i <= 32,
                forall|j: int| 0 <= j < i ==> self.bytes[j] == other.bytes[j],
            decreases 32 - i,
        {
            if self.bytes[i] != other.bytes[i] {
                return false;
            }
            i += 1;
        }
        assert(self.bytes =~= other.bytes);
        true
    }
}

} // verus!
