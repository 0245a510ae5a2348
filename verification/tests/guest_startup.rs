use mendimaru::container::ContainerStatus;
use mendimaru::contracts::BackendErrorCode;
use mendimaru::startup::{
    failure, identity, snapshot, AttemptRegistry, Readiness, ReadinessAction, ReadinessEvent,
    StartupPhase,
};

/// Runs the readiness decisions against scripted inspections and health answers, the way
/// the container driver feeds them; returns the final action, the number of starts and the
/// number of health checks.
fn run(states: &[ContainerStatus], health_after: usize, deadline_steps: usize) -> (ReadinessAction, usize, usize) {
    let (mut machine, mut step) = Readiness::new();
    let mut inspections = 0;
    let mut starts = 0;
    let mut health_calls = 0;
    let mut checks = 0;
    loop {
        let event = match step.action {
            ReadinessAction::CheckDeadline => {
                checks += 1;
                ReadinessEvent::DeadlineChecked { expired: checks > deadline_steps }
            }
            ReadinessAction::Inspect => {
                let status = states[inspections.min(states.len() - 1)];
                inspections += 1;
                ReadinessEvent::Inspected(status)
            }
            ReadinessAction::Health => {
                let healthy = health_calls >= health_after;
                health_calls += 1;
                ReadinessEvent::Health(healthy)
            }
            ReadinessAction::Start => {
                starts += 1;
                ReadinessEvent::Started
            }
            ReadinessAction::Sleep => ReadinessEvent::Slept,
            done => return (done, starts, health_calls),
        };
        step = machine.step(event);
    }
}

#[test]
fn delayed_health_is_the_only_success_condition() {
    let (result, starts, health) = run(&[ContainerStatus::Exited, ContainerStatus::Running], 1, 100);
    assert_eq!(result, ReadinessAction::Succeed);
    assert_eq!(starts, 1);
    assert_eq!(health, 2);
}

#[test]
fn exited_and_dead_fail_without_waiting_for_timeout() {
    for terminal in [ContainerStatus::Exited, ContainerStatus::Dead] {
        let (result, _, _) = run(&[ContainerStatus::Exited, terminal], usize::MAX, 100);
        assert_eq!(
            result,
            ReadinessAction::Fail(BackendErrorCode::ContainerExitedDuringStartup)
        );
    }
}

#[test]
fn running_without_health_has_a_distinct_timeout() {
    let (result, starts, _) = run(&[ContainerStatus::Running], usize::MAX, 5);
    assert_eq!(result, ReadinessAction::Fail(BackendErrorCode::GuestStartupTimeout));
    assert_eq!(starts, 0);
}

#[test]
fn online_is_idempotent_and_exit_during_health_is_rejected() {
    let (result, starts, _) = run(&[ContainerStatus::Running], 0, 100);
    assert_eq!(result, ReadinessAction::Succeed);
    assert_eq!(starts, 0);
    let (result, _, _) = run(
        &[ContainerStatus::Exited, ContainerStatus::Running, ContainerStatus::Dead],
        0,
        100,
    );
    assert_eq!(
        result,
        ReadinessAction::Fail(BackendErrorCode::ContainerExitedDuringStartup)
    );
}

#[test]
fn restarting_containers_are_waited_for_without_a_start() {
    let (result, starts, _) = run(
        &[ContainerStatus::Restarting, ContainerStatus::Restarting, ContainerStatus::Running],
        0,
        100,
    );
    assert_eq!(result, ReadinessAction::Succeed);
    assert_eq!(starts, 0);
}

#[test]
fn attempts_are_numbered_and_scoped_to_their_container() {
    let mut registry = AttemptRegistry::new();
    let key = identity("docker", "/home/dev/compose.yml", "WinBoat");
    assert_eq!(key, "docker\0/home/dev/compose.yml\0WinBoat");
    assert!(snapshot(&registry, &key).is_none());
    registry.begin(&key, "2026-09-08T00:00:00Z");
    registry.begin(&key, "2026-09-08T00:01:00Z");
    let attempt = snapshot(&registry, &key).expect("attempt");
    assert_eq!(attempt.id, 2);
    assert_eq!(attempt.phase, StartupPhase::StartingContainer);
    assert_eq!(attempt.container_status, ContainerStatus::Unknown);
    registry.update(
        StartupPhase::StartupFailed,
        ContainerStatus::Exited,
        Some(BackendErrorCode::QemuBootTimeout),
    );
    let attempt = snapshot(&registry, &key).expect("attempt");
    assert_eq!(attempt.phase, StartupPhase::StartupFailed);
    assert_eq!(attempt.error_code, Some(BackendErrorCode::QemuBootTimeout));
    assert!(snapshot(&registry, "podman\0/home/dev/compose.yml\0WinBoat").is_none());
}

#[test]
fn startup_failures_are_retryable_with_their_own_code() {
    let error = failure(BackendErrorCode::GuestStartupTimeout);
    assert!(error.retryable);
    assert_eq!(error.code, BackendErrorCode::GuestStartupTimeout);
    assert_eq!(error.message, "error-guest-startup-timeout");
    assert_eq!(
        failure(BackendErrorCode::OperationFailed).message,
        "error-startup-command-failed"
    );
}
