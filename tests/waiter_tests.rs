use ecs_test_agent::completion::{CompletionAction, CompletionPhase, CompletionWaiter};
use ecs_test_agent::outcome::{Outcome, StopReason, TaskSnapshot, TaskState};
use ecs_test_agent::poll::{PollTimer, Wait, POLL_INTERVAL_MS, STAGE_TIMEOUT_MS};
use ecs_test_agent::readiness::{
    ClusterStatus, ReadinessAction, ReadinessError, ReadinessWaiter,
};

fn done_ok() -> TaskSnapshot {
    TaskSnapshot {
        state: TaskState::Stopped,
        stop_reason: Some(StopReason::EssentialContainerExited),
        exit_codes: vec![Some(0)],
    }
}

fn running() -> TaskSnapshot {
    TaskSnapshot { state: TaskState::Running, stop_reason: None, exit_codes: vec![None] }
}

#[test]
fn timer_waits_one_interval_cut_at_deadline() {
    let t = PollTimer::stage_default();
    assert_eq!(t.timeout_ms, 30_000);
    assert_eq!(t.interval_ms, 2_000);
    assert_eq!(t.wait_after(0), Wait::Sleep(2_000));
    assert_eq!(t.wait_after(29_000), Wait::Sleep(1_000));
    assert_eq!(t.wait_after(30_000), Wait::Expired);
    assert_eq!(t.wait_after(45_000), Wait::Expired);
    assert!(!t.is_expired(29_999));
    assert!(t.is_expired(STAGE_TIMEOUT_MS));
    assert_eq!(POLL_INTERVAL_MS, 2_000);
}

#[test]
fn readiness_succeeds_at_eighteen_seconds() {
    let w = ReadinessWaiter::new(PollTimer::stage_default());
    assert_eq!(w.start(), ReadinessAction::DescribeCluster);
    let mut now: u64 = 0;
    while now <= 16_000 {
        let a = w.on_status(ClusterStatus::Found { registered_instances: 0 }, now);
        assert_eq!(a, ReadinessAction::Sleep(2_000));
        now += 2_000;
        assert_eq!(w.on_wake(now), ReadinessAction::DescribeCluster);
    }
    assert_eq!(now, 18_000);
    assert_eq!(
        w.on_status(ClusterStatus::Found { registered_instances: 1 }, now),
        ReadinessAction::Ready
    );
}

#[test]
fn readiness_times_out_without_capacity() {
    let w = ReadinessWaiter::new(PollTimer::stage_default());
    let mut now: u64 = 0;
    let mut last = ReadinessAction::DescribeCluster;
    while now < 40_000 {
        last = w.on_status(ClusterStatus::Found { registered_instances: 0 }, now);
        match last {
            ReadinessAction::Sleep(ms) => {
                now += ms;
                last = w.on_wake(now);
                if last != ReadinessAction::DescribeCluster {
                    break;
                }
            }
            _ => break,
        }
    }
    assert_eq!(now, 30_000);
    assert_eq!(last, ReadinessAction::Failed(ReadinessError::Timeout));
    assert_eq!(
        w.on_status(ClusterStatus::Found { registered_instances: 3 }, 30_500),
        ReadinessAction::Failed(ReadinessError::Timeout)
    );
}

#[test]
fn readiness_missing_cluster_is_fatal() {
    let w = ReadinessWaiter::new(PollTimer::stage_default());
    assert_eq!(
        w.on_status(ClusterStatus::NotFound, 0),
        ReadinessAction::Failed(ReadinessError::ClusterNotFound)
    );
}

#[test]
fn completion_pass_before_deadline_finishes() {
    let mut w = CompletionWaiter::new(PollTimer::stage_default(), 2);
    assert!(matches!(w.start(), CompletionAction::DescribeTasks));
    let a = w.on_snapshots(&[running(), done_ok()], 0);
    assert!(matches!(a, CompletionAction::Sleep(2_000)));
    assert_eq!(w.phase, CompletionPhase::Polling);
    assert!(matches!(w.on_wake(2_000), CompletionAction::DescribeTasks));
    match w.on_snapshots(&[done_ok(), done_ok()], 2_100) {
        CompletionAction::Finish(v) => {
            assert_eq!(v.outcome, Outcome::Pass);
            assert_eq!(v.num_passed, 2);
            assert_eq!(v.num_failed, 0);
        }
        _ => panic!("expected a verdict"),
    }
    assert_eq!(w.phase, CompletionPhase::Done);
}

#[test]
fn completion_deadline_takes_one_final_reading() {
    let mut w = CompletionWaiter::new(PollTimer::stage_default(), 1);
    assert!(matches!(w.on_snapshots(&[running()], 29_500), CompletionAction::Sleep(500)));
    assert!(matches!(w.on_wake(30_000), CompletionAction::DescribeTasks));
    assert_eq!(w.phase, CompletionPhase::FinalRead);
    match w.on_snapshots(&[done_ok()], 30_400) {
        CompletionAction::Finish(v) => {
            assert_eq!(v.outcome, Outcome::Pass);
            assert_eq!(v.num_passed, 1);
        }
        _ => panic!("expected a verdict"),
    }
    assert_eq!(w.phase, CompletionPhase::Done);
}

#[test]
fn completion_final_reading_may_fail() {
    let mut w = CompletionWaiter::new(PollTimer::stage_default(), 2);
    assert!(matches!(w.on_wake(31_000), CompletionAction::DescribeTasks));
    match w.on_snapshots(&[running()], 31_200) {
        CompletionAction::Finish(v) => {
            assert_eq!(v.outcome, Outcome::Fail);
            assert_eq!(v.num_passed, 0);
            assert_eq!(v.num_failed, 2);
        }
        _ => panic!("expected a verdict"),
    }
}

#[test]
fn completion_reading_in_flight_at_deadline_decides() {
    let mut w = CompletionWaiter::new(PollTimer::stage_default(), 1);
    match w.on_snapshots(&[running()], 30_200) {
        CompletionAction::Finish(v) => assert_eq!(v.outcome, Outcome::Fail),
        _ => panic!("expected a verdict"),
    }
}
