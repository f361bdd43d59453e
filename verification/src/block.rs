//! The block context that the host supplies with each operation.
use vstd::prelude::*;

verus! {

/// Height and time of the block in which an operation runs.
#[derive(Clone, Copy, Debug, PartialEq, Eq, Structural)]
pub struct BlockTime {
    pub height: u64,
    /// Seconds since the epoch.
    pub time: u64,
}

impl Default for BlockTime {
    fn default() -> (block_time: BlockTime)
        ensures
            block_time == (BlockTime { height: 0, time: 0 }),
    {
        BlockTime { height: 0, time: 0 }
    }
}

} // verus!
