//! The slice of the chain specification this crate reads: the Shanghai
//! activation time and the Paris terminal total difficulty.

use vstd::prelude::*;

use crate::types::U256;

verus! {

/// Fork configuration of the local chain.
///
/// `shanghai_time` is the activation timestamp of the Shanghai hard fork,
/// or `None` on a chain that never schedules it. `paris_ttd` is the
/// terminal total difficulty of the merge; the Engine API is only served
/// on chains that have one.
#[derive(Clone, Copy, PartialEq, Eq, Debug)]
pub struct ChainSpec {
    pub shanghai_time: Option<u64>,
    pub paris_ttd: Option<U256>,
}

impl ChainSpec {
    /// Whether Shanghai is active for an object carrying `timestamp`.
    pub open spec fn spec_is_shanghai_at(self, timestamp: u64) -> bool {
        match self.shanghai_time {
            Some(t) => timestamp >= t,
            None => false,
        }
    }

    pub fn is_shanghai_active_at_timestamp(&self, timestamp: u64) -> (r: bool)
        ensures
            r == self.spec_is_shanghai_at(timestamp),
    {
        match self.shanghai_time {
            Some(t) => timestamp >= t,
            None => false,
        }
    }
}

} // verus!
