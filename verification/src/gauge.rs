//! The pending-count gauge: how many jobs sit between a successful enqueue
//! and the observation of their result. It mirrors the wrapping behaviour
//! of the counter it models and is exposed for observability only.

use vstd::prelude::*;
use crate::ids::wrap_inc;

verus! {

/// One wrapping decrement.
pub open spec fn wrap_dec(c: u64) -> u64 {
    if c == 0 {
        u64::MAX
    } else {
        (c - 1) as u64
    }
}

/// The number of jobs currently pending. Incremented once per successful
/// enqueue, decremented exactly once when the awaited outcome resolves.
pub struct PendingGauge {
    pub count: u64,
}

impl PendingGauge {
    pub fn new() -> (g: PendingGauge)
        ensures
            g.count == 0,
    {
        PendingGauge { count: 0 }
    }

    /// Notes a successful enqueue; returns the job's position, the new
    /// pending count.
    pub fn record_enqueued(&mut self) -> (pos: u64)
        ensures
            final(self).count == wrap_inc(old(self).count),
            pos == final(self).count,
    {
        self.count = if self.count == u64::MAX {
            0
        } else {
            self.count + 1
        };
        self.count
    }

    /// Notes that one awaited outcome resolved (result, failure, or
    /// correlator closure).
    pub fn record_resolved(&mut self)
        ensures
            final(self).count == wrap_dec(old(self).count),
    {
        self.count = if self.count == 0 {
            u64::MAX
        } else {
            self.count - 1
        };
    }
}

} // verus!
