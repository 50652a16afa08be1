//! The deadline shared by the waiters: how long to sleep before the next poll,
//! and when to stop waiting.

use vstd::prelude::*;

verus! {

/// What to do after a poll that did not settle the matter.
#[derive(Clone, Copy, Debug, PartialEq, Eq, Structural)]
pub enum Wait {
    /// Sleep this many milliseconds, then poll again.
    Sleep(u64),
    /// The deadline has passed.
    Expired,
}

/// A deadline `timeout_ms` after the start of a stage, polled every
/// `interval_ms`. Times are milliseconds elapsed since the stage started.
#[derive(Clone, Copy, Debug, PartialEq, Eq, Structural)]
pub struct PollTimer {
    pub timeout_ms: u64,
    pub interval_ms: u64,
}

/// Deadline of each waiting stage.
pub const STAGE_TIMEOUT_MS: u64 = 30_000;

/// Time between two polls.
pub const POLL_INTERVAL_MS: u64 = 2_000;

pub open spec fn expired(t: PollTimer, elapsed_ms: u64) -> bool {
    elapsed_ms >= t.timeout_ms
}

/// The wait after a poll at `elapsed_ms`: one interval, cut short at the deadline.
pub open spec fn wait_after(t: PollTimer, elapsed_ms: u64) -> Wait {
    if expired(t, elapsed_ms) {
        Wait::Expired
    } else if t.interval_ms <= t.timeout_ms - elapsed_ms {
        Wait::Sleep(t.interval_ms)
    } else {
        Wait::Sleep((t.timeout_ms - elapsed_ms) as u64)
    }
}

impl PollTimer {
    pub open spec fn spec_stage_default() -> PollTimer {
        PollTimer { timeout_ms: STAGE_TIMEOUT_MS, interval_ms: POLL_INTERVAL_MS }
    }

    /// The timer of a waiting stage.
    pub fn stage_default() -> (r: PollTimer)
        ensures
            r == Self::spec_stage_default(),
            r.timeout_ms == STAGE_TIMEOUT_MS,
            r.interval_ms == POLL_INTERVAL_MS,
    {
        PollTimer { timeout_ms: STAGE_TIMEOUT_MS, interval_ms: POLL_INTERVAL_MS }
    }

    pub fn is_expired(&self, elapsed_ms: u64) -> (r: bool)
        ensures
            r == expired(*self, elapsed_ms),
    {
        elapsed_ms >= self.timeout_ms
    }

    /// How long to wait after a poll at `elapsed_ms` that did not settle the matter.
    pub fn wait_after(&self, elapsed_ms: u64) -> (r: Wait)
        ensures
            r == wait_after(*self, elapsed_ms),
    {
        if elapsed_ms >= self.timeout_ms {
            Wait::Expired
        } else if self.interval_ms <= self.timeout_ms - elapsed_ms {
            Wait::Sleep(self.interval_ms)
        } else {
            Wait::Sleep(self.timeout_ms - elapsed_ms)
        }
    }
}

} // verus!
