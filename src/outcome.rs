//! Reduction of task snapshots to a pass/fail verdict.

use vstd::prelude::*;

verus! {

/// Lifecycle state of a task, as last reported by the cluster.
#[derive(Clone, Copy, Debug, PartialEq, Eq, Structural)]
pub enum TaskState {
    Provisioning,
    Pending,
    Activating,
    Running,
    Deactivating,
    Stopping,
    Deprovisioning,
    Stopped,
    /// A state this crate does not know, or none reported.
    Unknown,
}

/// The state that the cluster's status word names.
pub open spec fn state_named(status: Seq<char>) -> TaskState {
    if status == "PROVISIONING"@ {
        TaskState::Provisioning
    } else if status == "PENDING"@ {
        TaskState::Pending
    } else if status == "ACTIVATING"@ {
        TaskState::Activating
    } else if status == "RUNNING"@ {
        TaskState::Running
    } else if status == "DEACTIVATING"@ {
        TaskState::Deactivating
    } else if status == "STOPPING"@ {
        TaskState::Stopping
    } else if status == "DEPROVISIONING"@ {
        TaskState::Deprovisioning
    } else if status == "STOPPED"@ {
        TaskState::Stopped
    } else {
        TaskState::Unknown
    }
}

fn is_word(status: &String, word: &str) -> (r: bool)
    ensures
        r == (status@ == word@),
{
    let w = String::from_str(word);
    status.eq(&w)
}

impl TaskState {
    /// The state named by a status word such as `STOPPED`; `Unknown` for any other.
    pub fn from_status(status: &String) -> (r: TaskState)
        ensures
            r == state_named(status@),
    {
        if is_word(status, "PROVISIONING") {
            TaskState::Provisioning
        } else if is_word(status, "PENDING") {
            TaskState::Pending
        } else if is_word(status, "ACTIVATING") {
            TaskState::Activating
        } else if is_word(status, "RUNNING") {
            TaskState::Running
        } else if is_word(status, "DEACTIVATING") {
            TaskState::Deactivating
        } else if is_word(status, "STOPPING") {
            TaskState::Stopping
        } else if is_word(status, "DEPROVISIONING") {
            TaskState::Deprovisioning
        } else if is_word(status, "STOPPED") {
            TaskState::Stopped
        } else {
            TaskState::Unknown
        }
    }
}

/// Why a stopped task stopped.
#[derive(Clone, Copy, Debug, PartialEq, Eq, Structural)]
pub enum StopReason {
    /// The essential container exited on its own.
    EssentialContainerExited,
    InfrastructureHealth,
    TaskFailedToStart,
    UserInitiated,
    ServiceSchedulerInitiated,
    SpotInterruption,
    TerminationNotice,
    Unknown,
}

/// Point-in-time status of one task.
#[derive(Clone, Debug)]
pub struct TaskSnapshot {
    pub state: TaskState,
    pub stop_reason: Option<StopReason>,
    /// Exit code of each container of the task; `None` where none was reported.
    pub exit_codes: Vec<Option<i32>>,
}

#[derive(Clone, Copy, Debug, PartialEq, Eq, Structural)]
pub enum Outcome {
    Pass,
    Fail,
}

/// The result of a test run.
#[derive(Clone, Debug)]
pub struct Verdict {
    pub outcome: Outcome,
    pub num_passed: u64,
    pub num_failed: u64,
    pub num_skipped: u64,
    pub other_info: Option<String>,
}

pub open spec fn all_exits_zero(codes: Seq<Option<i32>>) -> bool {
    forall|i: int| 0 <= i < codes.len() ==> #[trigger] codes[i] == Some(0i32)
}

/// A task completed successfully: it stopped because its essential container
/// exited, and every container exited with code zero.
pub open spec fn succeeded(s: TaskSnapshot) -> bool {
    &&& s.state == TaskState::Stopped
    &&& s.stop_reason == Some(StopReason::EssentialContainerExited)
    &&& all_exits_zero(s.exit_codes@)
}

/// Number of snapshots in `s` that show a successfully completed task.
pub open spec fn count_succeeded(s: Seq<TaskSnapshot>) -> nat
    decreases s.len(),
{
    if s.len() == 0 {
        0
    } else {
        count_succeeded(s.drop_last()) + if succeeded(s.last()) {
            1nat
        } else {
            0nat
        }
    }
}

/// The verdict on `snapshots` for a run of `task_count` tasks.
pub open spec fn verdict_for(snapshots: Seq<TaskSnapshot>, task_count: u64) -> Verdict {
    let passed = count_succeeded(snapshots);
    Verdict {
        outcome: if passed == task_count {
            Outcome::Pass
        } else {
            Outcome::Fail
        },
        num_passed: passed as u64,
        num_failed: (task_count - passed) as u64,
        num_skipped: 0,
        other_info: None,
    }
}

pub proof fn lemma_count_succeeded_bounded(s: Seq<TaskSnapshot>)
    ensures
        count_succeeded(s) <= s.len(),
    decreases s.len(),
{
    if s.len() > 0 {
        lemma_count_succeeded_bounded(s.drop_last());
    }
}

/// The passed and failed counts of a verdict add up to the number of tasks, and
/// nothing is ever skipped.
pub proof fn lemma_counts_add_up(snapshots: Seq<TaskSnapshot>, task_count: u64)
    requires
        snapshots.len() <= task_count,
    ensures
        verdict_for(snapshots, task_count).num_passed + verdict_for(snapshots, task_count).num_failed
            == task_count,
        verdict_for(snapshots, task_count).num_skipped == 0,
{
    lemma_count_succeeded_bounded(snapshots);
}

/// A single task passes exactly when it stopped, its essential container exited
/// on its own, and every container exited with zero; if any of the three does
/// not hold, it fails.
pub proof fn lemma_single_task_passes_iff(s: TaskSnapshot)
    ensures
        verdict_for(seq![s], 1).num_passed == 1 <==> {
            &&& s.state == TaskState::Stopped
            &&& s.stop_reason == Some(StopReason::EssentialContainerExited)
            &&& forall|i: int| 0 <= i < s.exit_codes@.len() ==> s.exit_codes@[i] == Some(0i32)
        },
        verdict_for(seq![s], 1).num_passed + verdict_for(seq![s], 1).num_failed == 1,
{
    assert(seq![s].drop_last() =~= Seq::<TaskSnapshot>::empty());
    assert(seq![s].last() == s);
    assert(count_succeeded(Seq::<TaskSnapshot>::empty()) == 0);
    lemma_count_succeeded_bounded(seq![s]);
}

/// The verdict passes exactly when every task passed; each task without a
/// snapshot counts as failed.
pub proof fn lemma_missing_tasks_fail(snapshots: Seq<TaskSnapshot>, task_count: u64)
    requires
        snapshots.len() <= task_count,
    ensures
        verdict_for(snapshots, task_count).outcome == Outcome::Pass
            <==> verdict_for(snapshots, task_count).num_passed == task_count,
        verdict_for(snapshots, task_count).num_failed >= task_count - snapshots.len(),
        snapshots.len() < task_count ==> verdict_for(snapshots, task_count).outcome
            == Outcome::Fail,
{
    lemma_count_succeeded_bounded(snapshots);
}

/// Whether `snapshot` shows a successfully completed task.
pub fn task_succeeded(snapshot: &TaskSnapshot) -> (r: bool)
    ensures
        r == succeeded(*snapshot),
{
    if !matches!(snapshot.state, TaskState::Stopped) {
        return false;
    }
    if !matches!(snapshot.stop_reason, Some(StopReason::EssentialContainerExited)) {
        return false;
    }
    let mut i: usize = 0;
    while i < snapshot.exit_codes.len()
        invariant
            i <= snapshot.exit_codes@.len(),
            forall|j: int| 0 <= j < i ==> #[trigger] snapshot.exit_codes@[j] == Some(0i32),
        decreases snapshot.exit_codes@.len() - i,
    {
        let code = snapshot.exit_codes[i];
        let zero = match code {
            Some(c) => c == 0,
            None => false,
        };
        if !zero {
            assert(snapshot.exit_codes@[i as int] != Some(0i32));
            return false;
        }
        i = i + 1;
    }
    true
}

/// Reduces the snapshots of a run of `task_count` tasks to a verdict. A task
/// without a snapshot counts as failed.
pub fn test_results(snapshots: &[TaskSnapshot], task_count: u64) -> (r: Verdict)
    requires
        snapshots@.len() <= task_count,
    ensures
        r == verdict_for(snapshots@, task_count),
        r.num_passed + r.num_failed == task_count,
        r.num_passed == count_succeeded(snapshots@),
        r.num_skipped == 0,
        r.outcome == Outcome::Pass <==> r.num_passed == task_count,
{
    proof {
        lemma_count_succeeded_bounded(snapshots@);
    }
    let mut passed: u64 = 0;
    let mut i: usize = 0;
    while i < snapshots.len()
        invariant
            i <= snapshots@.len() <= task_count,
            passed == count_succeeded(snapshots@.subrange(0, i as int)),
            passed <= i,
        decreases snapshots@.len() - i,
    {
        let ok = task_succeeded(&snapshots[i]);
        proof {
            assert(snapshots@.subrange(0, i + 1).drop_last() =~= snapshots@.subrange(0, i as int));
        }
        if ok {
            passed = passed + 1;
        }
        i = i + 1;
    }
    proof {
        assert(snapshots@.subrange(0, i as int) =~= snapshots@);
    }
    let outcome = if passed == task_count {
        Outcome::Pass
    } else {
        Outcome::Fail
    };
    Verdict {
        outcome,
        num_passed: passed,
        num_failed: task_count - passed,
        num_skipped: 0,
        other_info: None,
    }
}

} // verus!
