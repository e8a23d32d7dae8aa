//! The schedule of the periodic checkpoint.
//!
//! The drive is written out whole, on `HLT` and once per interval. The engine
//! owns the drive, so the loop that runs the engine asks this timer after
//! each cycle whether a checkpoint is due and, if so, hands a snapshot to
//! whoever writes it. One writer receives every snapshot, so two checkpoints
//! never race on the backing file.

use vstd::prelude::*;

verus! {

/// The default time between two periodic checkpoints, in milliseconds.
pub const CHECKPOINT_INTERVAL_MS: u64 = 5000;

/// When the last periodic checkpoint was taken.
#[derive(Clone, Copy, Debug)]
pub struct CheckpointTimer {
    interval_ms: u64,
    last_ms: Option<u64>,
}

impl CheckpointTimer {
    /// The time between two checkpoints.
    pub closed spec fn interval(&self) -> u64 {
        self.interval_ms
    }

    /// The time of the last checkpoint, if one was taken.
    pub closed spec fn last(&self) -> Option<u64> {
        self.last_ms
    }

    /// Whether a checkpoint is due at `now_ms`: none was taken yet, or at
    /// least one interval has passed since the last one.
    pub open spec fn is_due(&self, now_ms: u64) -> bool {
        match self.last() {
            None => true,
            Some(last) => now_ms - last >= self.interval(),
        }
    }

    /// A timer that has taken no checkpoint yet.
    pub fn new(interval_ms: u64) -> (t: CheckpointTimer)
        ensures
            t.interval() == interval_ms,
            t.last() is None,
    {
        CheckpointTimer { interval_ms, last_ms: None }
    }

    /// A timer with the default interval.
    pub fn with_default_interval() -> (t: CheckpointTimer)
        ensures
            t.interval() == CHECKPOINT_INTERVAL_MS,
            t.last() is None,
    {
        CheckpointTimer::new(CHECKPOINT_INTERVAL_MS)
    }

    /// Asks whether a checkpoint is due at `now_ms`. If it is, the timer
    /// counts the next interval from `now_ms`; if not, it is left as it was.
    pub fn poll(&mut self, now_ms: u64) -> (due: bool)
        ensures
            due == old(self).is_due(now_ms),
            final(self).interval() == old(self).interval(),
            due ==> final(self).last() == Some(now_ms),
            !due ==> final(self).last() == old(self).last(),
    {
        let due: bool = match self.last_ms {
            None => true,
            Some(last) => now_ms >= last && now_ms - last >= self.interval_ms,
        };
        if due {
            self.last_ms = Some(now_ms);
        }
        due
    }
}

} // verus!
