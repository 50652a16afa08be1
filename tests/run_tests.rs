use ecs_test_agent::outcome::{Outcome, StopReason, TaskSnapshot, TaskState};
use ecs_test_agent::readiness::ClusterStatus;
use ecs_test_agent::runner::{RunAction, RunConfig, RunError, RunEvent, RunStage, TestRun};
use ecs_test_agent::template::{
    default_reference, smoke_test_definition, FamilyLookup, ProvisionAction, Provisioner,
    ProvisionPhase, RevisionReply, TemplateError, DEFAULT_TASK_DEFINITION,
};

fn config(template: Option<&str>, count: u32) -> RunConfig {
    RunConfig {
        cluster_name: "cluster".to_string(),
        task_definition_name_and_revision: template.map(|t| t.to_string()),
        task_count: count,
        assume_role: None,
        region: None,
    }
}

fn done_ok() -> TaskSnapshot {
    TaskSnapshot {
        state: TaskState::Stopped,
        stop_reason: Some(StopReason::EssentialContainerExited),
        exit_codes: vec![Some(0)],
    }
}

#[test]
fn reference_has_family_and_revision() {
    assert_eq!(default_reference(7), format!("{}:7", DEFAULT_TASK_DEFINITION));
    assert_eq!(default_reference(123), format!("{}:123", DEFAULT_TASK_DEFINITION));
    assert_eq!(default_reference(-4), format!("{}:-4", DEFAULT_TASK_DEFINITION));
}

#[test]
fn smoke_definition_is_minimal() {
    let d = smoke_test_definition();
    assert_eq!(d.family, DEFAULT_TASK_DEFINITION);
    assert_eq!(d.container_name, "ecs-smoke-test");
    assert_eq!(d.image, "public.ecr.aws/amazonlinux/amazonlinux:2");
    assert!(d.essential);
    assert_eq!(d.entry_point, vec!["sh".to_string(), "-c".to_string()]);
    assert_eq!(d.command, "/bin/sh -c \"echo hello-world\"");
    assert!(d.ec2_compatible);
    assert_eq!(d.cpu, "256");
    assert_eq!(d.memory, "512");
}

#[test]
fn configured_template_used_verbatim() {
    let mut p = Provisioner::new();
    match p.start(&Some("mine:3".to_string())) {
        ProvisionAction::Resolved(t) => assert_eq!(t, "mine:3"),
        _ => panic!("expected the configured template"),
    }
    assert_eq!(p.phase, ProvisionPhase::Done);
}

#[test]
fn missing_family_is_created() {
    let mut p = Provisioner::new();
    assert!(matches!(p.start(&None), ProvisionAction::DescribeFamily));
    match p.on_family(FamilyLookup::NotFound) {
        ProvisionAction::Create(d) => assert_eq!(d.family, DEFAULT_TASK_DEFINITION),
        _ => panic!("expected a creation"),
    }
    match p.on_created(RevisionReply::Revision(1)) {
        ProvisionAction::Resolved(t) => assert_eq!(t, format!("{}:1", DEFAULT_TASK_DEFINITION)),
        _ => panic!("expected a reference"),
    }
}

#[test]
fn existing_family_uses_latest_revision() {
    let mut p = Provisioner::new();
    p.start(&None);
    assert!(matches!(p.on_family(FamilyLookup::Found), ProvisionAction::FetchLatest));
    match p.on_latest(RevisionReply::Revision(42)) {
        ProvisionAction::Resolved(t) => assert_eq!(t, format!("{}:42", DEFAULT_TASK_DEFINITION)),
        _ => panic!("expected a reference"),
    }
}

#[test]
fn other_describe_error_propagates_without_creating() {
    let mut p = Provisioner::new();
    p.start(&None);
    match p.on_family(FamilyLookup::Failed("access denied".to_string())) {
        ProvisionAction::Failed(TemplateError::DescribeFailed(m)) => assert_eq!(m, "access denied"),
        _ => panic!("expected the error"),
    }
    assert_eq!(p.phase, ProvisionPhase::Done);
}

#[test]
fn revision_missing_and_create_failure() {
    let mut p = Provisioner::new();
    p.start(&None);
    p.on_family(FamilyLookup::Found);
    assert!(matches!(
        p.on_latest(RevisionReply::Missing),
        ProvisionAction::Failed(TemplateError::DefinitionMissing)
    ));
    let mut q = Provisioner::new();
    q.start(&None);
    q.on_family(FamilyLookup::NotFound);
    match q.on_created(RevisionReply::Failed("limit".to_string())) {
        ProvisionAction::Failed(TemplateError::CreateFailed(m)) => assert_eq!(m, "limit"),
        _ => panic!("expected the error"),
    }
}

#[test]
fn full_run_with_configured_template() {
    let mut run = TestRun::new(&config(Some("mine:9"), 2), 1_000);
    assert!(matches!(run.start(), RunAction::DescribeCluster));
    let ev = RunEvent::ClusterDescribed(ClusterStatus::Found { registered_instances: 0 });
    assert!(run.can_take(&ev));
    assert!(matches!(run.on_event(ev, 1_000), RunAction::Sleep(2_000)));
    assert!(matches!(run.on_event(RunEvent::Woke, 3_000), RunAction::DescribeCluster));
    let ev = RunEvent::ClusterDescribed(ClusterStatus::Found { registered_instances: 1 });
    match run.on_event(ev, 3_100) {
        RunAction::SubmitTasks { template, count } => {
            assert_eq!(template, "mine:9");
            assert_eq!(count, 2);
        }
        _ => panic!("expected a submission"),
    }
    assert!(!run.can_take(&RunEvent::Woke));
    assert!(matches!(run.on_event(RunEvent::TasksSubmitted, 4_000), RunAction::DescribeTasks));
    assert_eq!(run.stage, RunStage::Completion);
    let ev = RunEvent::TasksDescribed(vec![done_ok(), done_ok()]);
    match run.on_event(ev, 5_000) {
        RunAction::Finish(v) => {
            assert_eq!(v.outcome, Outcome::Pass);
            assert_eq!(v.num_passed, 2);
        }
        _ => panic!("expected a verdict"),
    }
    assert_eq!(run.stage, RunStage::Finished);
    assert!(!run.can_take(&RunEvent::Woke));
}

#[test]
fn run_creates_template_when_missing() {
    let mut run = TestRun::new(&config(None, 1), 0);
    let ev = RunEvent::ClusterDescribed(ClusterStatus::Found { registered_instances: 2 });
    assert!(matches!(run.on_event(ev, 10), RunAction::DescribeFamily));
    assert!(matches!(
        run.on_event(RunEvent::Family(FamilyLookup::NotFound), 20),
        RunAction::CreateTemplate(_)
    ));
    match run.on_event(RunEvent::TemplateCreated(RevisionReply::Revision(5)), 30) {
        RunAction::SubmitTasks { template, count } => {
            assert_eq!(template, format!("{}:5", DEFAULT_TASK_DEFINITION));
            assert_eq!(count, 1);
        }
        _ => panic!("expected a submission"),
    }
}

#[test]
fn run_aborts_on_readiness_timeout() {
    let mut run = TestRun::new(&config(None, 1), 500);
    let ev = RunEvent::ClusterDescribed(ClusterStatus::Found { registered_instances: 0 });
    assert!(matches!(run.on_event(ev, 29_000), RunAction::Sleep(1_500)));
    assert!(matches!(
        run.on_event(RunEvent::Woke, 30_500),
        RunAction::Abort(RunError::InstanceTimeout)
    ));
    assert_eq!(run.stage, RunStage::Finished);
}

#[test]
fn run_aborts_on_missing_cluster_and_failures() {
    let mut run = TestRun::new(&config(None, 1), 0);
    assert!(matches!(
        run.on_event(RunEvent::ClusterDescribed(ClusterStatus::NotFound), 0),
        RunAction::Abort(RunError::ClusterNotFound)
    ));
    let mut run = TestRun::new(&config(Some("t:1"), 1), 0);
    run.on_event(RunEvent::ClusterDescribed(ClusterStatus::Found { registered_instances: 1 }), 0);
    match run.on_event(RunEvent::TaskRunFailed("no capacity".to_string()), 1) {
        RunAction::Abort(RunError::TaskRunFailed(m)) => assert_eq!(m, "no capacity"),
        _ => panic!("expected an abort"),
    }
    let mut run = TestRun::new(&config(None, 1), 0);
    match run.on_event(RunEvent::ClusterDescribeFailed("throttled".to_string()), 0) {
        RunAction::Abort(RunError::ClusterDescribeFailed(m)) => assert_eq!(m, "throttled"),
        _ => panic!("expected an abort"),
    }
}

#[test]
fn run_completion_deadline_uses_final_reading() {
    let mut run = TestRun::new(&config(Some("t:1"), 1), 0);
    run.on_event(RunEvent::ClusterDescribed(ClusterStatus::Found { registered_instances: 1 }), 0);
    run.on_event(RunEvent::TasksSubmitted, 10_000);
    let running = TaskSnapshot { state: TaskState::Running, stop_reason: None, exit_codes: vec![] };
    assert!(matches!(
        run.on_event(RunEvent::TasksDescribed(vec![running]), 39_000),
        RunAction::Sleep(1_000)
    ));
    assert!(matches!(run.on_event(RunEvent::Woke, 40_000), RunAction::DescribeTasks));
    match run.on_event(RunEvent::TasksDescribed(vec![done_ok()]), 41_000) {
        RunAction::Finish(v) => assert_eq!(v.outcome, Outcome::Pass),
        _ => panic!("expected a verdict"),
    }
}

#[test]
fn run_rejects_more_tasks_than_submitted() {
    let mut run = TestRun::new(&config(Some("t:1"), 1), 0);
    run.on_event(RunEvent::ClusterDescribed(ClusterStatus::Found { registered_instances: 1 }), 0);
    run.on_event(RunEvent::TasksSubmitted, 0);
    assert!(matches!(
        run.on_event(RunEvent::TasksDescribed(vec![done_ok(), done_ok()]), 1),
        RunAction::Abort(RunError::TooManyTasks)
    ));
}
