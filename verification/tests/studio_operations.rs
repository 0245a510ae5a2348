use mendimaru::contracts::BackendErrorCode;
use mendimaru::studio_ops::{
    lock_cleanup_plan, safe_operation_name, studio_process_id, validate_incomplete_launch_identity,
    validate_operation_id, validate_sha256, InstallProgressState, LaunchIdentityError,
    LockCleanupPlan, PostSuccessCleanup, SessionObservation, StudioInstallPhase, StudioVersion,
    WindowsStudioSessionReport, FULL_PERCENT,
};

#[test]
fn successful_install_synthesizes_transient_phases_missed_between_polls() {
    let mut state = InstallProgressState::new();
    let updates = state.complete();
    assert_eq!(
        updates.iter().map(|update| update.phase).collect::<Vec<_>>(),
        [
            StudioInstallPhase::Installing,
            StudioInstallPhase::Finalizing,
            StudioInstallPhase::Verifying,
        ]
    );
    assert!(updates.iter().all(|update| update.percentage == Some(FULL_PERCENT)));
    assert!(!updates.last().expect("verification update").estimated);
}

#[test]
fn accepts_only_bounded_filename_safe_host_operation_ids() {
    assert!(validate_operation_id("install-11.12.2-0123456789abcdef0123456789abcdef").is_ok());
    assert!(validate_operation_id("").is_err());
    assert!(validate_operation_id("../operation").is_err());
    assert!(validate_operation_id(&"a".repeat(161)).is_err());
    assert!(validate_operation_id(&"a".repeat(160)).is_ok());
    assert_eq!(safe_operation_name("../op eration"), "..operation");
}

#[test]
fn verifying_report_preserves_order_and_is_completed_exactly_once() {
    let mut state = InstallProgressState::new();
    let mut updates = state.observe(StudioInstallPhase::Verifying, Some(0), false);
    updates.extend(state.complete());
    updates.extend(state.complete());
    assert_eq!(
        updates.iter().map(|update| (update.phase, update.percentage)).collect::<Vec<_>>(),
        [
            (StudioInstallPhase::Installing, Some(FULL_PERCENT)),
            (StudioInstallPhase::Finalizing, Some(FULL_PERCENT)),
            (StudioInstallPhase::Verifying, Some(0)),
            (StudioInstallPhase::Verifying, Some(FULL_PERCENT)),
        ]
    );
}

#[test]
fn progress_without_a_percentage_shows_nothing_and_percentages_are_clamped() {
    let mut state = InstallProgressState::new();
    assert!(state.observe(StudioInstallPhase::Installing, None, false).is_empty());
    let updates = state.observe(StudioInstallPhase::Installing, Some(12_000), true);
    assert_eq!(updates.len(), 1);
    assert_eq!(updates[0].percentage, Some(FULL_PERCENT));
}

#[test]
fn installer_digests_are_lower_case_sha256() {
    assert!(validate_sha256(&"ab".repeat(32)).is_ok());
    assert!(validate_sha256(&"AB".repeat(32)).is_err());
    assert!(validate_sha256(&"ab".repeat(31)).is_err());
}

fn selected() -> StudioVersion {
    StudioVersion {
        version: "11.12.2".into(),
        display_name: "Studio Pro 11.12.2".into(),
        executable_path: r"C:\Program Files\Mendix\11.12.2\modeler\studiopro.exe".into(),
        install_root: r"C:\Program Files\Mendix\11.12.2".into(),
        source: "fixture".into(),
        removable: true,
    }
}

#[test]
fn incomplete_launch_cleanup_requires_one_consistent_exact_process_identity() {
    let valid = WindowsStudioSessionReport {
        session_id: "studio-4242-639223488000000000".into(),
        version: "11.12.2".into(),
        process_id: 4242,
        started_at: "2026-08-15T00:00:00Z".into(),
        project_name: None,
        has_window: false,
    };
    assert_eq!(
        validate_incomplete_launch_identity(&selected(), &valid).expect("valid identity"),
        (4242, 639_223_488_000_000_000)
    );
    let mut mismatch = valid.clone();
    mismatch.process_id = 4243;
    assert_eq!(
        validate_incomplete_launch_identity(&selected(), &mismatch),
        Err(LaunchIdentityError::Inconsistent)
    );
    let mut ready = valid.clone();
    ready.has_window = true;
    assert!(validate_incomplete_launch_identity(&selected(), &ready).is_err());
    let mut bad_time = valid;
    bad_time.started_at = "yesterday".into();
    assert_eq!(
        validate_incomplete_launch_identity(&selected(), &bad_time),
        Err(LaunchIdentityError::InvalidStartTime)
    );
}

#[test]
fn dead_launch_locks_are_removed_only_after_authoritative_absence() {
    let session = Some("studio-4242-639240248846965363");
    assert_eq!(
        lock_cleanup_plan(session, SessionObservation::Absent),
        LockCleanupPlan::RemoveDeadLock { process_id: 4242 }
    );
    assert_eq!(
        lock_cleanup_plan(session, SessionObservation::Present),
        LockCleanupPlan::RetainedLiveSession
    );
    assert_eq!(
        lock_cleanup_plan(session, SessionObservation::Unverified),
        LockCleanupPlan::RetainedUnverifiedSession
    );
    assert_eq!(lock_cleanup_plan(None, SessionObservation::Absent), LockCleanupPlan::NotAvailable);
    assert_eq!(
        lock_cleanup_plan(Some("runtime_1"), SessionObservation::Absent),
        LockCleanupPlan::RetainedInvalidIdentity
    );
    assert_eq!(studio_process_id("studio-17-1"), Some(17));
}

#[test]
fn post_success_cleanup_reports_runtime_stop_failure_without_paths() {
    let cleanup = PostSuccessCleanup {
        remote_app_cleanup: "succeeded",
        studio_stop: "not_registered",
        runtime_stop: "failed",
        runtime_stop_code: Some(BackendErrorCode::RuntimeComposeRecoveryFailed),
        session_observation: SessionObservation::Absent,
        lock_cleanup: "succeeded",
        locks_removed: 1,
        report_written: false,
    };
    assert!(!cleanup.retryable());
    let mut recovered = PostSuccessCleanup {
        remote_app_cleanup: "not_owned",
        studio_stop: "succeeded",
        runtime_stop: "succeeded",
        runtime_stop_code: None,
        session_observation: SessionObservation::Absent,
        lock_cleanup: "succeeded",
        locks_removed: 1,
        report_written: true,
    };
    assert!(recovered.retryable());
    recovered.report_written = false;
    assert!(!recovered.retryable());
    assert_eq!(BackendErrorCode::RuntimeComposeRecoveryFailed.as_str(), "runtime_compose_recovery_failed");
}
