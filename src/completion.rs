//! Waiting for the submitted tasks to finish, with one final reading once the
//! deadline has passed.

use vstd::prelude::*;
use crate::outcome::{Outcome, TaskSnapshot, Verdict, test_results, verdict_for};
use crate::poll::{PollTimer, Wait, expired, wait_after};

verus! {

#[derive(Clone, Copy, Debug, PartialEq, Eq, Structural)]
pub enum CompletionPhase {
    /// Polling until every task has passed.
    Polling,
    /// The deadline passed; the next reading decides.
    FinalRead,
    /// A verdict was returned; nothing more is done.
    Done,
}

/// What the caller does next while waiting for completion.
#[derive(Clone, Debug)]
pub enum CompletionAction {
    /// Describe the submitted tasks and report the snapshots.
    DescribeTasks,
    Sleep(u64),
    Finish(Verdict),
}

/// Polls the submitted tasks until all of them passed, or until the deadline; a
/// verdict is returned either way.
#[derive(Clone, Copy, Debug)]
pub struct CompletionWaiter {
    pub timer: PollTimer,
    pub task_count: u64,
    pub phase: CompletionPhase,
}

/// The phase and step after snapshots that came back at `elapsed_ms`. A reading
/// that passes, the final reading, and a reading that came back after the
/// deadline each end the wait with their verdict.
pub open spec fn completion_after_snapshots(
    w: CompletionWaiter,
    snapshots: Seq<TaskSnapshot>,
    elapsed_ms: u64,
) -> (CompletionPhase, CompletionAction) {
    let v = verdict_for(snapshots, w.task_count);
    if w.phase == CompletionPhase::FinalRead || v.outcome == Outcome::Pass || expired(
        w.timer,
        elapsed_ms,
    ) {
        (CompletionPhase::Done, CompletionAction::Finish(v))
    } else {
        match wait_after(w.timer, elapsed_ms) {
            Wait::Sleep(ms) => (CompletionPhase::Polling, CompletionAction::Sleep(ms)),
            Wait::Expired => (CompletionPhase::Done, CompletionAction::Finish(v)),
        }
    }
}

/// The phase and step after a sleep that ended at `elapsed_ms`: past the
/// deadline the next reading is the final one.
pub open spec fn completion_after_wake(w: CompletionWaiter, elapsed_ms: u64) -> (
    CompletionPhase,
    CompletionAction,
) {
    if expired(w.timer, elapsed_ms) {
        (CompletionPhase::FinalRead, CompletionAction::DescribeTasks)
    } else {
        (CompletionPhase::Polling, CompletionAction::DescribeTasks)
    }
}

impl CompletionWaiter {
    pub open spec fn spec_new(timer: PollTimer, task_count: u64) -> CompletionWaiter {
        CompletionWaiter { timer, task_count, phase: CompletionPhase::Polling }
    }

    pub fn new(timer: PollTimer, task_count: u64) -> (r: CompletionWaiter)
        ensures
            r == Self::spec_new(timer, task_count),
            r.timer == timer,
            r.task_count == task_count,
            r.phase == CompletionPhase::Polling,
    {
        CompletionWaiter { timer, task_count, phase: CompletionPhase::Polling }
    }

    /// The first step: describe the tasks.
    pub fn start(&self) -> (r: CompletionAction)
        ensures
            r == CompletionAction::DescribeTasks,
    {
        CompletionAction::DescribeTasks
    }

    /// Reduces snapshots that came back at `elapsed_ms` and decides.
    pub fn on_snapshots(&mut self, snapshots: &[TaskSnapshot], elapsed_ms: u64) -> (r:
        CompletionAction)
        requires
            old(self).phase != CompletionPhase::Done,
            snapshots@.len() <= old(self).task_count,
        ensures
            (final(self).phase, r) == completion_after_snapshots(*old(self), snapshots@, elapsed_ms),
            final(self).timer == old(self).timer,
            final(self).task_count == old(self).task_count,
    {
        let v = test_results(snapshots, self.task_count);
        let finished = match self.phase {
            CompletionPhase::FinalRead => true,
            _ => false,
        };
        let passed = match v.outcome {
            Outcome::Pass => true,
            Outcome::Fail => false,
        };
        if finished || passed || self.timer.is_expired(elapsed_ms) {
            self.phase = CompletionPhase::Done;
            CompletionAction::Finish(v)
        } else {
            match self.timer.wait_after(elapsed_ms) {
                Wait::Sleep(ms) => {
                    self.phase = CompletionPhase::Polling;
                    CompletionAction::Sleep(ms)
                },
                Wait::Expired => {
                    self.phase = CompletionPhase::Done;
                    CompletionAction::Finish(v)
                },
            }
        }
    }

    /// Decides after a sleep that ended at `elapsed_ms`.
    pub fn on_wake(&mut self, elapsed_ms: u64) -> (r: CompletionAction)
        requires
            old(self).phase == CompletionPhase::Polling,
        ensures
            (final(self).phase, r) == completion_after_wake(*old(self), elapsed_ms),
            final(self).timer == old(self).timer,
            final(self).task_count == old(self).task_count,
    {
        if self.timer.is_expired(elapsed_ms) {
            self.phase = CompletionPhase::FinalRead;
        }
        CompletionAction::DescribeTasks
    }
}

/// A reading that passes before the deadline ends the wait with that passing
/// verdict; a waiter that is done takes no further reading.
pub proof fn lemma_pass_ends_polling(
    w: CompletionWaiter,
    snapshots: Seq<TaskSnapshot>,
    elapsed_ms: u64,
)
    requires
        w.phase == CompletionPhase::Polling,
        snapshots.len() <= w.task_count,
        verdict_for(snapshots, w.task_count).outcome == Outcome::Pass,
    ensures
        completion_after_snapshots(w, snapshots, elapsed_ms) == (
            CompletionPhase::Done,
            CompletionAction::Finish(verdict_for(snapshots, w.task_count)),
        ),
        verdict_for(snapshots, w.task_count).num_passed == w.task_count,
{
    crate::outcome::lemma_missing_tasks_fail(snapshots, w.task_count);
}

/// Once the deadline has passed, exactly one more reading is taken and its
/// verdict, pass or fail, is returned: a wake past the deadline asks for the
/// final reading, and that reading ends the wait with its own verdict. A reading
/// already under way when the deadline passes is that final reading.
pub proof fn lemma_deadline_final_reading(
    w: CompletionWaiter,
    wake_ms: u64,
    snapshots: Seq<TaskSnapshot>,
    read_ms: u64,
)
    requires
        w.phase == CompletionPhase::Polling,
        expired(w.timer, wake_ms),
        snapshots.len() <= w.task_count,
    ensures
        completion_after_wake(w, wake_ms) == (
            CompletionPhase::FinalRead,
            CompletionAction::DescribeTasks,
        ),
        completion_after_snapshots(
            CompletionWaiter { phase: completion_after_wake(w, wake_ms).0, ..w },
            snapshots,
            read_ms,
        ) == (CompletionPhase::Done, CompletionAction::Finish(verdict_for(snapshots, w.task_count))),
        expired(w.timer, read_ms) ==> completion_after_snapshots(w, snapshots, read_ms) == (
            CompletionPhase::Done,
            CompletionAction::Finish(verdict_for(snapshots, w.task_count)),
        ),
{
}

} // verus!
