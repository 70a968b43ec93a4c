//! The registry, which numbers the lotteries.

use vstd::prelude::*;

verus! {

/// The one registry of a deployment. It remembers the number that it gave
/// out last, so that no number is given twice.
#[derive(Clone, Copy, Debug, PartialEq, Eq, Structural)]
pub struct Master {
    /// The number of the lottery created last, 0 before the first.
    pub last_id: u32,
}

/// Makes the registry, with no lottery numbered yet. It is made once, when
/// the lottery is deployed: the ledger refuses to create the record twice.
pub fn init_master() -> (master: Master)
    ensures
        master.last_id == 0,
{
    Master { last_id: 0 }
}

impl Master {
    /// Steps the counter and returns the number that it then shows.
    pub fn next_id(&mut self) -> (id: u32)
        requires
            old(self).last_id < u32::MAX,
        ensures
            id == old(self).last_id + 1,
            final(self).last_id == id,
    {
        self.last_id = self.last_id + 1;
        self.last_id
    }
}

} // verus!
