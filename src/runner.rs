//! One test run: wait for capacity, resolve the template, submit the tasks and
//! wait for their verdict. Each call takes what the caller observed and returns
//! what to do next; any fatal failure ends the run at once.

use vstd::prelude::*;
use crate::completion::{
    CompletionAction, CompletionPhase, CompletionWaiter, completion_after_snapshots,
    completion_after_wake,
};
use crate::outcome::{TaskSnapshot, Verdict};
use crate::poll::PollTimer;
use crate::readiness::{
    ClusterStatus, ReadinessAction, ReadinessError, ReadinessWaiter, readiness_after_status,
    readiness_after_wake,
};
use crate::template::{
    DEFAULT_TASK_DEFINITION, FamilyLookup, ProvisionAction, ProvisionPhase, Provisioner, RevisionReply, TemplateDefinition,
    TemplateError, reference,
};

verus! {

/// The settings of a run.
#[derive(Clone, Debug)]
pub struct RunConfig {
    pub cluster_name: String,
    /// A template reference `name:revision` to run instead of the default one.
    pub task_definition_name_and_revision: Option<String>,
    pub task_count: u32,
    pub assume_role: Option<String>,
    pub region: Option<String>,
}

#[derive(Clone, Copy, Debug, PartialEq, Eq, Structural)]
pub enum RunStage {
    Readiness,
    Provisioning,
    Submitting,
    Completion,
    Finished,
}

/// Why a run ended without a verdict.
#[derive(Clone, Debug)]
pub enum RunError {
    ClusterDescribeFailed(String),
    ClusterNotFound,
    /// No container instance registered before the deadline.
    InstanceTimeout,
    Template(TemplateError),
    TaskRunFailed(String),
    TaskDescribeFailed(String),
    /// The cluster described more tasks than were submitted.
    TooManyTasks,
}

/// What the caller observed.
#[derive(Clone, Debug)]
pub enum RunEvent {
    ClusterDescribed(ClusterStatus),
    ClusterDescribeFailed(String),
    /// A sleep asked for ended.
    Woke,
    Family(FamilyLookup),
    LatestRevision(RevisionReply),
    TemplateCreated(RevisionReply),
    TasksSubmitted,
    TaskRunFailed(String),
    TasksDescribed(Vec<TaskSnapshot>),
    TaskDescribeFailed(String),
}

/// What the caller does next.
#[derive(Clone, Debug)]
pub enum RunAction {
    DescribeCluster,
    Sleep(u64),
    DescribeFamily,
    FetchLatestTemplate,
    CreateTemplate(TemplateDefinition),
    /// Start `count` tasks of the template `template` on EC2 capacity.
    SubmitTasks { template: String, count: u32 },
    DescribeTasks,
    Finish(Verdict),
    Abort(RunError),
}

pub struct TestRun {
    pub stage: RunStage,
    pub task_count: u32,
    pub configured_template: Option<String>,
    /// When the current waiting stage started, in milliseconds since the run began.
    pub stage_started_ms: u64,
    pub readiness: ReadinessWaiter,
    pub provisioner: Provisioner,
    pub completion: CompletionWaiter,
}

/// Milliseconds from `start` to `now`; zero if the clock went back.
pub open spec fn since(start: u64, now: u64) -> u64 {
    if now >= start {
        (now - start) as u64
    } else {
        0
    }
}

fn elapsed_since(start: u64, now: u64) -> (r: u64)
    ensures
        r == since(start, now),
{
    if now >= start {
        now - start
    } else {
        0
    }
}

/// The step that ends template resolution, or the next call of it.
pub open spec fn provision_step_ok(
    p: ProvisionAction,
    task_count: u32,
    stage: RunStage,
    r: RunAction,
) -> bool {
    match p {
        ProvisionAction::Resolved(t) => stage == RunStage::Submitting && r is SubmitTasks
            && r->template@ == t@ && r->count == task_count,
        ProvisionAction::DescribeFamily => stage == RunStage::Provisioning && r is DescribeFamily,
        ProvisionAction::FetchLatest => stage == RunStage::Provisioning && r is FetchLatestTemplate,
        ProvisionAction::Create(d) => stage == RunStage::Provisioning && r == RunAction::CreateTemplate(
            d,
        ),
        ProvisionAction::Failed(e) => stage == RunStage::Finished && r == RunAction::Abort(
            RunError::Template(e),
        ),
    }
}

/// The step once the cluster is ready: the configured template is submitted
/// as it is, else the default family is described.
pub open spec fn ready_step_ok(o: TestRun, n: TestRun, r: RunAction) -> bool {
    match o.configured_template {
        Some(t) => n.stage == RunStage::Submitting && r is SubmitTasks && r->template@ == t@
            && r->count == o.task_count,
        None => n.stage == RunStage::Provisioning && r is DescribeFamily,
    }
}

/// The step after a reply that reports a revision of the default family.
pub open spec fn revision_run_step_ok(
    reply: RevisionReply,
    created: bool,
    task_count: u32,
    n: TestRun,
    r: RunAction,
) -> bool {
    match reply {
        RevisionReply::Revision(rev) => n.stage == RunStage::Submitting && r is SubmitTasks
            && r->template@ == reference(DEFAULT_TASK_DEFINITION@, rev) && r->count == task_count,
        RevisionReply::Missing => n.stage == RunStage::Finished && r == RunAction::Abort(
            RunError::Template(TemplateError::DefinitionMissing),
        ),
        RevisionReply::Failed(msg) => n.stage == RunStage::Finished && r is Abort && r->Abort_0
            is Template && if created {
            r->Abort_0->Template_0 is CreateFailed && r->Abort_0->Template_0->CreateFailed_0@
                == msg@
        } else {
            r->Abort_0->Template_0 is DescribeFailed && r->Abort_0->Template_0->DescribeFailed_0@
                == msg@
        },
    }
}

/// The step of run `o` on `event` at `now`, to run `n` with action `r`.
pub open spec fn run_step_ok(o: TestRun, event: RunEvent, now: u64, n: TestRun, r: RunAction) -> bool {
    let elapsed = since(o.stage_started_ms, now);
    match event {
        RunEvent::ClusterDescribed(status) => match readiness_after_status(
            o.readiness.timer,
            status,
            elapsed,
        ) {
            ReadinessAction::Ready => ready_step_ok(o, n, r),
            ReadinessAction::Sleep(ms) => n.stage == RunStage::Readiness && r == RunAction::Sleep(ms),
            ReadinessAction::Failed(ReadinessError::ClusterNotFound) => n.stage == RunStage::Finished
                && r == RunAction::Abort(RunError::ClusterNotFound),
            ReadinessAction::Failed(ReadinessError::Timeout) => n.stage == RunStage::Finished && r
                == RunAction::Abort(RunError::InstanceTimeout),
            ReadinessAction::DescribeCluster => n.stage == RunStage::Readiness && r
                is DescribeCluster,
        },
        RunEvent::ClusterDescribeFailed(msg) => n.stage == RunStage::Finished && r is Abort
            && r->Abort_0 is ClusterDescribeFailed && r->Abort_0->ClusterDescribeFailed_0@ == msg@,
        RunEvent::Woke => if o.stage == RunStage::Readiness {
            match readiness_after_wake(o.readiness.timer, elapsed) {
                ReadinessAction::Failed(_) => n.stage == RunStage::Finished && r == RunAction::Abort(
                    RunError::InstanceTimeout,
                ),
                _ => n.stage == RunStage::Readiness && r is DescribeCluster,
            }
        } else {
            n.stage == RunStage::Completion && r is DescribeTasks && n.completion.phase
                == completion_after_wake(o.completion, elapsed).0
        },
        RunEvent::Family(lookup) => match lookup {
            FamilyLookup::Found => n.stage == RunStage::Provisioning && r is FetchLatestTemplate,
            FamilyLookup::NotFound => n.stage == RunStage::Provisioning && r is CreateTemplate
                && r->CreateTemplate_0.family@ == DEFAULT_TASK_DEFINITION@,
            FamilyLookup::Failed(msg) => n.stage == RunStage::Finished && r is Abort && r->Abort_0
                is Template && r->Abort_0->Template_0 is DescribeFailed
                && r->Abort_0->Template_0->DescribeFailed_0@ == msg@,
        },
        RunEvent::LatestRevision(reply) => revision_run_step_ok(reply, false, o.task_count, n, r),
        RunEvent::TemplateCreated(reply) => revision_run_step_ok(reply, true, o.task_count, n, r),
        RunEvent::TasksSubmitted => n.stage == RunStage::Completion && n.stage_started_ms == now
            && n.completion == CompletionWaiter::spec_new(
            PollTimer::spec_stage_default(),
            o.task_count as u64,
        ) && r is DescribeTasks,
        RunEvent::TaskRunFailed(msg) => n.stage == RunStage::Finished && r is Abort && r->Abort_0
            is TaskRunFailed && r->Abort_0->TaskRunFailed_0@ == msg@,
        RunEvent::TasksDescribed(snapshots) => if snapshots@.len() > o.task_count {
            n.stage == RunStage::Finished && r == RunAction::Abort(RunError::TooManyTasks)
        } else {
            let (phase, a) = completion_after_snapshots(o.completion, snapshots@, elapsed);
            n.completion.phase == phase && match a {
                CompletionAction::Finish(v) => n.stage == RunStage::Finished && r
                    == RunAction::Finish(v),
                CompletionAction::Sleep(ms) => n.stage == RunStage::Completion && r
                    == RunAction::Sleep(ms),
                CompletionAction::DescribeTasks => n.stage == RunStage::Completion && r
                    is DescribeTasks,
            }
        },
        RunEvent::TaskDescribeFailed(msg) => n.stage == RunStage::Finished && r is Abort
            && r->Abort_0 is TaskDescribeFailed && r->Abort_0->TaskDescribeFailed_0@ == msg@,
    }
}

impl TestRun {
    /// Well-formed: the waiter of the current stage expects a reply.
    pub open spec fn wf(&self) -> bool {
        &&& self.stage == RunStage::Readiness ==> self.provisioner.phase == ProvisionPhase::Start
        &&& self.stage == RunStage::Provisioning ==> self.provisioner.phase
            != ProvisionPhase::Start && self.provisioner.phase != ProvisionPhase::Done
        &&& self.stage == RunStage::Completion ==> self.completion.phase != CompletionPhase::Done
            && self.completion.task_count == self.task_count as u64
    }

    /// Whether the run can take `event` in its current state.
    pub open spec fn accepts(&self, event: RunEvent) -> bool {
        match self.stage {
            RunStage::Readiness => event is ClusterDescribed || event is ClusterDescribeFailed
                || event is Woke,
            RunStage::Provisioning => match self.provisioner.phase {
                ProvisionPhase::Describing => event is Family,
                ProvisionPhase::FetchingLatest => event is LatestRevision,
                ProvisionPhase::Creating => event is TemplateCreated,
                _ => false,
            },
            RunStage::Submitting => event is TasksSubmitted || event is TaskRunFailed,
            RunStage::Completion => event is TasksDescribed || event is TaskDescribeFailed || (
            event is Woke && self.completion.phase == CompletionPhase::Polling),
            RunStage::Finished => false,
        }
    }

    /// A run that starts now (`now_ms` on the caller's clock) with `config`.
    pub fn new(config: &RunConfig, now_ms: u64) -> (r: TestRun)
        ensures
            r.wf(),
            r.stage == RunStage::Readiness,
            r.stage_started_ms == now_ms,
            r.task_count == config.task_count,
            r.configured_template == config.task_definition_name_and_revision,
            r.readiness.timer == PollTimer::spec_stage_default(),
            r.provisioner.phase == ProvisionPhase::Start,
    {
        TestRun {
            stage: RunStage::Readiness,
            task_count: config.task_count,
            configured_template: config.task_definition_name_and_revision.clone(),
            stage_started_ms: now_ms,
            readiness: ReadinessWaiter::new(PollTimer::stage_default()),
            provisioner: Provisioner::new(),
            completion: CompletionWaiter::new(PollTimer::stage_default(), config.task_count as u64),
        }
    }

    /// The first step: describe the cluster.
    pub fn start(&self) -> (r: RunAction)
        ensures
            r is DescribeCluster,
    {
        RunAction::DescribeCluster
    }

    /// Whether the run can take `event` in its current state.
    pub fn can_take(&self, event: &RunEvent) -> (r: bool)
        ensures
            r == self.accepts(*event),
    {
        match self.stage {
            RunStage::Readiness => match event {
                RunEvent::ClusterDescribed(_) | RunEvent::ClusterDescribeFailed(_) | RunEvent::Woke => true,
                _ => false,
            },
            RunStage::Provisioning => match (self.provisioner.phase, event) {
                (ProvisionPhase::Describing, RunEvent::Family(_)) => true,
                (ProvisionPhase::FetchingLatest, RunEvent::LatestRevision(_)) => true,
                (ProvisionPhase::Creating, RunEvent::TemplateCreated(_)) => true,
                _ => false,
            },
            RunStage::Submitting => match event {
                RunEvent::TasksSubmitted | RunEvent::TaskRunFailed(_) => true,
                _ => false,
            },
            RunStage::Completion => match event {
                RunEvent::TasksDescribed(_) | RunEvent::TaskDescribeFailed(_) => true,
                RunEvent::Woke => match self.completion.phase {
                    CompletionPhase::Polling => true,
                    _ => false,
                },
                _ => false,
            },
            RunStage::Finished => false,
        }
    }

    fn finish(&mut self, action: RunAction) -> (r: RunAction)
        ensures
            r == action,
            *final(self) == (TestRun { stage: RunStage::Finished, ..*old(self) }),
    {
        self.stage = RunStage::Finished;
        action
    }

    fn after_provision(&mut self, p: ProvisionAction) -> (r: RunAction)
        requires
            old(self).provisioner.phase != ProvisionPhase::Start,
            p is Resolved || p is Failed ==> old(self).provisioner.phase == ProvisionPhase::Done,
            !(p is Resolved || p is Failed) ==> old(self).provisioner.phase != ProvisionPhase::Done,
        ensures
            provision_step_ok(p, old(self).task_count, final(self).stage, r),
            final(self).wf(),
            final(self).task_count == old(self).task_count,
            final(self).provisioner == old(self).provisioner,
            final(self).configured_template == old(self).configured_template,
    {
        match p {
            ProvisionAction::Resolved(template) => {
                self.stage = RunStage::Submitting;
                RunAction::SubmitTasks { template, count: self.task_count }
            },
            ProvisionAction::DescribeFamily => {
                self.stage = RunStage::Provisioning;
                RunAction::DescribeFamily
            },
            ProvisionAction::FetchLatest => {
                self.stage = RunStage::Provisioning;
                RunAction::FetchLatestTemplate
            },
            ProvisionAction::Create(d) => {
                self.stage = RunStage::Provisioning;
                RunAction::CreateTemplate(d)
            },
            ProvisionAction::Failed(e) => self.finish(RunAction::Abort(RunError::Template(e))),
        }
    }
    /// Takes what the caller observed at `now_ms` and says what to do next.
    pub fn on_event(&mut self, event: RunEvent, now_ms: u64) -> (r: RunAction)
        requires
            old(self).wf(),
            old(self).accepts(event),
        ensures
            final(self).wf(),
            final(self).task_count == old(self).task_count,
            final(self).configured_template == old(self).configured_template,
            run_step_ok(*old(self), event, now_ms, *final(self), r),
    {
        let elapsed = elapsed_since(self.stage_started_ms, now_ms);
        match event {
            RunEvent::ClusterDescribed(status) => match self.readiness.on_status(status, elapsed) {
                ReadinessAction::Ready => {
                    let p = self.provisioner.start(&self.configured_template);
                    self.after_provision(p)
                },
                ReadinessAction::Sleep(ms) => RunAction::Sleep(ms),
                ReadinessAction::Failed(ReadinessError::ClusterNotFound) => self.finish(
                    RunAction::Abort(RunError::ClusterNotFound),
                ),
                ReadinessAction::Failed(ReadinessError::Timeout) => self.finish(
                    RunAction::Abort(RunError::InstanceTimeout),
                ),
                ReadinessAction::DescribeCluster => RunAction::DescribeCluster,
            },
            RunEvent::ClusterDescribeFailed(msg) => self.finish(
                RunAction::Abort(RunError::ClusterDescribeFailed(msg)),
            ),
            RunEvent::Woke => {
                if matches!(self.stage, RunStage::Readiness) {
                    match self.readiness.on_wake(elapsed) {
                        ReadinessAction::Failed(_) => self.finish(
                            RunAction::Abort(RunError::InstanceTimeout),
                        ),
                        _ => RunAction::DescribeCluster,
                    }
                } else {
                    let _ = self.completion.on_wake(elapsed);
                    RunAction::DescribeTasks
                }
            },
            RunEvent::Family(lookup) => {
                let p = self.provisioner.on_family(lookup);
                self.after_provision(p)
            },
            RunEvent::LatestRevision(reply) => {
                let p = self.provisioner.on_latest(reply);
                self.after_provision(p)
            },
            RunEvent::TemplateCreated(reply) => {
                let p = self.provisioner.on_created(reply);
                self.after_provision(p)
            },
            RunEvent::TasksSubmitted => {
                self.stage = RunStage::Completion;
                self.stage_started_ms = now_ms;
                self.completion = CompletionWaiter::new(
                    PollTimer::stage_default(),
                    self.task_count as u64,
                );
                RunAction::DescribeTasks
            },
            RunEvent::TaskRunFailed(msg) => self.finish(
                RunAction::Abort(RunError::TaskRunFailed(msg)),
            ),
            RunEvent::TasksDescribed(snapshots) => {
                if snapshots.len() as u64 > self.task_count as u64 {
                    self.finish(RunAction::Abort(RunError::TooManyTasks))
                } else {
                    match self.completion.on_snapshots(snapshots.as_slice(), elapsed) {
                        CompletionAction::Finish(v) => self.finish(RunAction::Finish(v)),
                        CompletionAction::Sleep(ms) => RunAction::Sleep(ms),
                        CompletionAction::DescribeTasks => RunAction::DescribeTasks,
                    }
                }
            },
            RunEvent::TaskDescribeFailed(msg) => self.finish(
                RunAction::Abort(RunError::TaskDescribeFailed(msg)),
            ),
        }
    }
}

} // verus!
