use mendimaru::contracts::{BackendErrorCode, UiActionKind};
use mendimaru::coordination::{
    concurrency, vm_mode, Caller, Concurrency, Coordinator, Job, JobState, Registry, SessionGate,
    VmUseMode, HISTORY,
};
use mendimaru::ui_automation::{error, Operation, Request};

const SESSION: &str = "studio-4242-639250850131064367";
const OTHER_SESSION: &str = "studio-4243-639250850131064368";

fn fixture_caller() -> Caller {
    Caller {
        pid: 4242,
        start: Some(639250850131064367),
    }
}

fn fixture_request(session: &str, operation: Operation) -> Request {
    let mut request = Request::new(session, operation);
    request.timeout_ms = 500;
    request
}

#[test]
fn job_classes_follow_the_provider_action_semantics() {
    for operation in [
        Operation::Capabilities,
        Operation::Tree,
        Operation::Find,
        Operation::Screenshot,
        Operation::Wait,
    ] {
        assert_eq!(
            concurrency(operation, None),
            Concurrency::Observation,
            "{operation:?} observes state"
        );
    }
    for operation in [Operation::Release, Operation::Reconnect] {
        assert_eq!(concurrency(operation, None), Concurrency::Session);
    }
    assert_eq!(
        concurrency(Operation::Action, Some(UiActionKind::Focus)),
        Concurrency::Desktop
    );
    assert_eq!(
        concurrency(Operation::Action, Some(UiActionKind::KeyboardInput)),
        Concurrency::Desktop
    );
    for action in [UiActionKind::Invoke, UiActionKind::Click, UiActionKind::SetValue] {
        assert_eq!(
            concurrency(Operation::Action, Some(action)),
            Concurrency::Session
        );
    }
    assert_eq!(vm_mode(Concurrency::Observation), VmUseMode::Shared);
    assert_eq!(vm_mode(Concurrency::Session), VmUseMode::Exclusive);
    assert_eq!(vm_mode(Concurrency::Desktop), VmUseMode::Exclusive);
}

#[test]
fn coordination_busy_is_a_retryable_precondition_failure() {
    let failure = error(Operation::Action, "ui-coordination-busy");
    assert_eq!(failure.code, BackendErrorCode::PreconditionFailed);
    assert_eq!(failure.message, "ui-coordination-busy");
    assert!(failure.retryable);
    let unknown = error(Operation::Tree, "ui-coordination-busy-not-a-reason");
    assert_eq!(unknown.message, "ui-provider-failed");
    assert!(!unknown.retryable);
}

fn submit(coordinator: &mut Coordinator, session: &str, request: &Request) -> (u64, Option<u64>) {
    let arrival = coordinator.reserve(session).expect("arrival");
    let job = Job::new(arrival, request, fixture_caller()).expect("job");
    let granted = coordinator.enqueue(session, arrival, job, 0).expect("ticket");
    (arrival, granted)
}

#[test]
fn same_session_jobs_run_in_accept_order_even_when_filled_out_of_order() {
    let mut coordinator = Coordinator::new();
    let first = coordinator.reserve(SESSION).unwrap();
    let second = coordinator.reserve(SESSION).unwrap();
    let third = coordinator.reserve(SESSION).unwrap();
    let request = fixture_request(SESSION, Operation::Tree);
    let job = |arrival| Job::new(arrival, &request, fixture_caller()).unwrap();
    assert_eq!(coordinator.enqueue(SESSION, third, job(third), 0).unwrap(), None);
    assert_eq!(coordinator.enqueue(SESSION, second, job(second), 0).unwrap(), None);
    assert_eq!(
        coordinator.enqueue(SESSION, first, job(first), 0).unwrap(),
        Some(first)
    );
    assert_eq!(coordinator.turn_completed(SESSION), Some(second));
    assert_eq!(coordinator.turn_completed(SESSION), Some(third));
    assert_eq!(coordinator.turn_completed(SESSION), None);
}

#[test]
fn other_sessions_admit_while_one_session_is_held() {
    let mut coordinator = Coordinator::new();
    let (first, granted) = submit(&mut coordinator, SESSION, &fixture_request(SESSION, Operation::Tree));
    assert_eq!(granted, Some(first));
    let (second, granted) =
        submit(&mut coordinator, SESSION, &fixture_request(SESSION, Operation::Screenshot));
    assert_eq!(granted, None);
    let (other, granted) = submit(
        &mut coordinator,
        OTHER_SESSION,
        &fixture_request(OTHER_SESSION, Operation::Tree),
    );
    assert_eq!(granted, Some(other));
    assert_eq!(coordinator.turn_completed(SESSION), Some(second));
}

#[test]
fn cancelling_a_queued_arrival_removes_only_that_arrival() {
    let mut coordinator = Coordinator::new();
    let (held, _) = submit(&mut coordinator, SESSION, &fixture_request(SESSION, Operation::Tree));
    let (queued, _) = submit(&mut coordinator, SESSION, &fixture_request(SESSION, Operation::Tree));
    let (witness, _) = submit(&mut coordinator, SESSION, &fixture_request(SESSION, Operation::Tree));
    assert!(held < queued && queued < witness);
    assert_eq!(coordinator.remove_queued(SESSION, queued), None);
    assert_eq!(coordinator.turn_completed(SESSION), Some(witness));
}

#[test]
fn dropped_reservations_never_block_admission() {
    let mut coordinator = Coordinator::new();
    let dropped = coordinator.reserve(SESSION).unwrap();
    let later = coordinator.reserve(SESSION).unwrap();
    let request = fixture_request(SESSION, Operation::Tree);
    let job = Job::new(later, &request, fixture_caller()).unwrap();
    assert_eq!(coordinator.enqueue(SESSION, later, job, 0).unwrap(), None);
    assert_eq!(coordinator.remove_queued(SESSION, dropped), Some(later));
}

#[test]
fn enqueue_refuses_foreign_and_unknown_reservations() {
    let mut coordinator = Coordinator::new();
    let arrival = coordinator.reserve(SESSION).unwrap();
    let request = fixture_request(OTHER_SESSION, Operation::Tree);
    let job = Job::new(arrival, &request, fixture_caller()).unwrap();
    assert_eq!(
        coordinator.enqueue(SESSION, arrival, job, 0).unwrap_err().message,
        "ui-invalid-request"
    );
    let request = fixture_request(SESSION, Operation::Tree);
    let job = Job::new(arrival + 7, &request, fixture_caller()).unwrap();
    assert_eq!(
        coordinator.enqueue(SESSION, arrival + 7, job, 0).unwrap_err().message,
        "ui-session-unavailable"
    );
}

#[test]
fn history_stays_bounded_and_running_jobs_are_counted() {
    let mut coordinator = Coordinator::new();
    for _ in 0..(HISTORY + 8) {
        let request = fixture_request(SESSION, Operation::Tree);
        let arrival = coordinator.reserve(SESSION).unwrap();
        let job = Job::new(arrival, &request, fixture_caller()).unwrap();
        let id = job.id.clone();
        assert_eq!(coordinator.enqueue(SESSION, arrival, job, 0).unwrap(), Some(arrival));
        coordinator.record_state(&id, JobState::Running);
        assert!(!coordinator.is_idle());
        coordinator.record_state(&id, JobState::Completed);
        assert!(coordinator.is_idle());
        coordinator.turn_completed(SESSION);
    }
    assert!(coordinator.snapshot().len() <= HISTORY);
    assert_eq!(coordinator.snapshot().len(), HISTORY);
}

#[test]
fn provider_failures_are_recorded_on_the_newest_record() {
    let mut registry = Registry::new();
    let request = fixture_request(SESSION, Operation::Wait);
    let job = Job::new(1, &request, fixture_caller()).unwrap();
    let id = job.id.clone();
    registry.record(job, JobState::Queued, 0);
    registry.record_state(&id, JobState::Running);
    assert_eq!(registry.running(), 1);
    registry.record_state(&id, JobState::Failed("ui-modal-blocked".into()));
    assert_eq!(registry.running(), 0);
    assert_eq!(
        registry.snapshot().last().map(|record| record.state.clone()),
        Some(JobState::Failed("ui-modal-blocked".to_string()))
    );
    registry.record_state("ui_unknown", JobState::Cancelled);
    assert_eq!(registry.snapshot().len(), 1);
}

#[test]
fn a_gate_admits_one_turn_at_a_time() {
    let mut gate = SessionGate::new();
    gate.reserve(1);
    gate.reserve(2);
    assert_eq!(gate.fill(2), (true, None));
    assert_eq!(gate.fill(1), (true, Some(1)));
    assert!(gate.is_busy());
    assert_eq!(gate.fill(9), (false, None));
    assert_eq!(gate.turn_completed(), Some(2));
    assert_eq!(gate.turn_completed(), None);
    assert!(!gate.is_busy());
}
