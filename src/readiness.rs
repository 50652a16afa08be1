//! Waiting until the cluster has registered compute capacity.

use vstd::prelude::*;
use crate::poll::{PollTimer, Wait, expired, wait_after};

verus! {

/// What a description of the cluster showed.
#[derive(Clone, Copy, Debug, PartialEq, Eq, Structural)]
pub enum ClusterStatus {
    Found { registered_instances: i32 },
    NotFound,
}

#[derive(Clone, Copy, Debug, PartialEq, Eq, Structural)]
pub enum ReadinessError {
    /// The cluster does not exist; this is never retried.
    ClusterNotFound,
    /// No capacity was registered before the deadline.
    Timeout,
}

/// What the caller does next while waiting for readiness.
#[derive(Clone, Copy, Debug, PartialEq, Eq, Structural)]
pub enum ReadinessAction {
    DescribeCluster,
    Sleep(u64),
    Ready,
    Failed(ReadinessError),
}

/// Polls the cluster description until capacity is registered or the deadline
/// passes.
#[derive(Clone, Copy, Debug, PartialEq, Eq, Structural)]
pub struct ReadinessWaiter {
    pub timer: PollTimer,
}

/// The step after a cluster description that came back at `elapsed_ms`.
pub open spec fn readiness_after_status(
    t: PollTimer,
    status: ClusterStatus,
    elapsed_ms: u64,
) -> ReadinessAction {
    match status {
        ClusterStatus::NotFound => ReadinessAction::Failed(ReadinessError::ClusterNotFound),
        ClusterStatus::Found { registered_instances } => {
            if expired(t, elapsed_ms) {
                ReadinessAction::Failed(ReadinessError::Timeout)
            } else if registered_instances != 0 {
                ReadinessAction::Ready
            } else {
                match wait_after(t, elapsed_ms) {
                    Wait::Sleep(ms) => ReadinessAction::Sleep(ms),
                    Wait::Expired => ReadinessAction::Failed(ReadinessError::Timeout),
                }
            }
        },
    }
}

/// The step after a sleep that ended at `elapsed_ms`.
pub open spec fn readiness_after_wake(t: PollTimer, elapsed_ms: u64) -> ReadinessAction {
    if expired(t, elapsed_ms) {
        ReadinessAction::Failed(ReadinessError::Timeout)
    } else {
        ReadinessAction::DescribeCluster
    }
}

impl ReadinessWaiter {
    pub fn new(timer: PollTimer) -> (r: ReadinessWaiter)
        ensures
            r.timer == timer,
    {
        ReadinessWaiter { timer }
    }

    /// The first step: describe the cluster.
    pub fn start(&self) -> (r: ReadinessAction)
        ensures
            r == ReadinessAction::DescribeCluster,
    {
        ReadinessAction::DescribeCluster
    }

    /// Decides on a cluster description that came back at `elapsed_ms`.
    pub fn on_status(&self, status: ClusterStatus, elapsed_ms: u64) -> (r: ReadinessAction)
        ensures
            r == readiness_after_status(self.timer, status, elapsed_ms),
    {
        match status {
            ClusterStatus::NotFound => ReadinessAction::Failed(ReadinessError::ClusterNotFound),
            ClusterStatus::Found { registered_instances } => {
                if self.timer.is_expired(elapsed_ms) {
                    ReadinessAction::Failed(ReadinessError::Timeout)
                } else if registered_instances != 0 {
                    ReadinessAction::Ready
                } else {
                    match self.timer.wait_after(elapsed_ms) {
                        Wait::Sleep(ms) => ReadinessAction::Sleep(ms),
                        Wait::Expired => ReadinessAction::Failed(ReadinessError::Timeout),
                    }
                }
            },
        }
    }

    /// Decides after a sleep that ended at `elapsed_ms`.
    pub fn on_wake(&self, elapsed_ms: u64) -> (r: ReadinessAction)
        ensures
            r == readiness_after_wake(self.timer, elapsed_ms),
    {
        if self.timer.is_expired(elapsed_ms) {
            ReadinessAction::Failed(ReadinessError::Timeout)
        } else {
            ReadinessAction::DescribeCluster
        }
    }
}

} // verus!
