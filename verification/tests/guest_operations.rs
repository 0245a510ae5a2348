use mendimaru::bounded_command::{
    completion_failure, drain_failure, CapturedStream, CommandFailure, CommandPolicy, Completion,
    Drain,
};
use mendimaru::container::ContainerStatus;
use mendimaru::diagnostics::{CommandFailureKind, EnvironmentDiagnosticErrorCode, GuestClockProbe};
use mendimaru::environment::{
    current_shared_directory, guest_api_endpoint, guest_observation, guest_probes_wanted,
    inspection_from, rdp_endpoint, rdp_observation, shared_mount_source, storage_identity,
    ContainerMount, InspectionOutput,
};
use mendimaru::operation_watch::{
    endpoint_wait, failure_reason, retries_after, OperationWatch, RemoteAppCheck,
    ReportObservation, WatchEnd, WindowsOperationFailure,
};
use mendimaru::windows_reason::WindowsOperationState;

fn mount(source: &str, destination: &str) -> ContainerMount {
    ContainerMount { source: source.to_string(), destination: destination.to_string() }
}

fn report(state: WindowsOperationState, percentage: Option<i32>, timestamp: &str) -> ReportObservation {
    ReportObservation { state, percentage_tenths: percentage, estimated: false, timestamp: timestamp.to_string() }
}

#[test]
fn captures_keep_the_first_bytes_and_flag_truncation() {
    let mut capture = CapturedStream::new(5);
    capture.accept(b"abc");
    assert_eq!(capture.bytes, b"abc");
    assert!(!capture.truncated);
    capture.accept(b"defg");
    assert_eq!(capture.bytes, b"abcde");
    assert!(capture.truncated);
    capture.accept(b"h");
    assert_eq!(capture.bytes, b"abcde");
    let mut exact = CapturedStream::new(3);
    exact.accept(b"xyz");
    assert!(!exact.truncated);
    exact.accept(b"");
    assert!(!exact.truncated);
}

#[test]
fn command_policies_and_failures_read_as_the_operation_and_its_reason() {
    assert_eq!(CommandPolicy::probe(), CommandPolicy { timeout_ms: 2000, output_limit: 65536, termination_grace_ms: 250 });
    assert_eq!(CommandPolicy::status().output_limit, 262144);
    assert_eq!(CommandPolicy::new(100, 1024).with_termination_grace(50).kill_wait_ms(), 100);
    assert_eq!(completion_failure(Completion::Exited), None);
    assert_eq!(completion_failure(Completion::TimedOut), Some(CommandFailureKind::Timeout));
    assert_eq!(completion_failure(Completion::Cancelled), Some(CommandFailureKind::Cancelled));
    assert_eq!(completion_failure(Completion::WaitFailed), Some(CommandFailureKind::Wait));
    assert_eq!(drain_failure(Drain::TimedOut), Some(CommandFailureKind::Cleanup));
    assert_eq!(drain_failure(Drain::ReaderFailed), Some(CommandFailureKind::Wait));
    assert_eq!(drain_failure(Drain::Collected), None);
    let failure = CommandFailure::new(CommandFailureKind::Timeout, "hanging fixture", None);
    assert_eq!(failure.message(), "hanging fixture reached its deadline");
    let failure = CommandFailure::new(CommandFailureKind::Spawn, "probe", Some("No such file".to_string()));
    assert_eq!(failure.message(), "probe could not be started: No such file");
    let operation = WindowsOperationFailure::from_command(&failure);
    assert!(operation.retryable);
    assert_eq!(operation.failure_kind, Some(CommandFailureKind::Spawn));
}

#[test]
fn inspections_find_the_shared_mount_and_the_storage_identity() {
    let mounts = vec![mount("/a", "/storage"), mount("/home/dev/Mendix", "/shared"), mount("/b", "/STORAGE"), mount("/a", "/storage")];
    assert_eq!(shared_mount_source(&mounts).as_deref(), Some("/home/dev/Mendix"));
    assert_eq!(storage_identity(&mounts).unwrap(), vec!["/a".to_string(), "/b".to_string()]);
    assert_eq!(storage_identity(&vec![mount("/x", "/shared")]).unwrap_err(), "the WinBoat container has no /storage mount");

    let parsed = inspection_from(InspectionOutput::Parsed { status: "running".to_string(), mounts });
    assert_eq!(parsed.status, ContainerStatus::Running);
    assert_eq!(parsed.shared_directory.as_deref(), Some("/home/dev/Mendix"));
    let missing = inspection_from(InspectionOutput::Unsuccessful);
    assert_eq!(missing.status, ContainerStatus::NotFound);
    let failed = inspection_from(InspectionOutput::Failed(CommandFailureKind::Timeout));
    assert_eq!(failed.status, ContainerStatus::Unknown);
    assert_eq!(failed.error_code, Some(EnvironmentDiagnosticErrorCode::ExternalProcessTimeout));
    assert_eq!(current_shared_directory(&missing, Some("/compose".to_string())).as_deref(), Some("/compose"));
    assert_eq!(current_shared_directory(&parsed, Some("/compose".to_string())).as_deref(), Some("/home/dev/Mendix"));
}

#[test]
fn guest_endpoints_prefer_forwarded_ports_and_errors_keep_the_guest_offline() {
    assert_eq!(guest_api_endpoint(Ok(Some(47271)), "http://configured").0, "http://127.0.0.1:47271");
    assert_eq!(guest_api_endpoint(Ok(None), "http://configured"), ("http://configured".to_string(), None));
    let (url, error) = guest_api_endpoint(Err(CommandFailureKind::Cancelled), "http://configured");
    assert_eq!(url, "http://configured");
    assert_eq!(error, Some(EnvironmentDiagnosticErrorCode::ExternalProcessCancelled));
    assert_eq!(rdp_endpoint(Ok(Some(47300)), 3389), (47300, None));
    assert_eq!(rdp_endpoint(Err(CommandFailureKind::Spawn), 3389).0, 3389);
    assert_eq!(guest_observation(true, Some(GuestClockProbe::Measured(3)), None), (true, Some(GuestClockProbe::Measured(3))));
    assert_eq!(guest_observation(true, Some(GuestClockProbe::Measured(3)), error), (false, None));
    assert_eq!(rdp_observation(Ok(true), None), (true, None));
    assert_eq!(rdp_observation(Err(()), None), (false, Some(EnvironmentDiagnosticErrorCode::ExternalProcessInterrupted)));
    assert!(guest_probes_wanted(true, ContainerStatus::Running));
    assert!(!guest_probes_wanted(true, ContainerStatus::Exited));
    assert!(!guest_probes_wanted(false, ContainerStatus::Running));
}

#[test]
fn a_watch_passes_on_changed_reports_and_ends_on_success() {
    let mut watch = OperationWatch::new(600);
    let (pass_on, end) = watch.observe_report(0, &report(WindowsOperationState::Installing, Some(100), "t1"));
    assert!(pass_on);
    assert!(end.is_none());
    let (pass_on, _) = watch.observe_report(1000, &report(WindowsOperationState::Installing, Some(100), "t2"));
    assert!(!pass_on);
    assert_eq!(watch.last_changed_ms, Some(1000));
    let (pass_on, _) = watch.observe_report(2000, &report(WindowsOperationState::Installing, Some(105), "t2"));
    assert!(pass_on);
    assert_eq!(watch.last_changed_ms, Some(1000));
    let (_, end) = watch.observe_report(3000, &report(WindowsOperationState::Succeeded, Some(1000), "t3"));
    assert!(matches!(end, Some(WatchEnd::Succeeded)));
}

#[test]
fn a_watch_waits_out_a_live_report_after_remoteapp_ends() {
    let mut watch = OperationWatch::new(600);
    watch.observe_report(0, &report(WindowsOperationState::Installing, Some(100), "t1"));
    assert!(watch.checks_remote_app());
    assert!(watch.observe_rest(1000, Some(RemoteAppCheck::Exited("exit status: 0".to_string()))).is_none());
    assert!(!watch.checks_remote_app());
    watch.observe_report(15000, &report(WindowsOperationState::Installing, Some(200), "t2"));
    assert!(watch.observe_rest(21000, None).is_none());
    match watch.observe_rest(45000, None) {
        Some(WatchEnd::RemoteAppEnded { state, status }) => {
            assert_eq!(state, WindowsOperationState::Installing);
            assert_eq!(status, "exit status: 0");
        }
        other => panic!("unexpected {other:?}"),
    }
}

#[test]
fn a_watch_reports_unstarted_operations_as_retryable_and_deadlines() {
    let mut watch = OperationWatch::new(600);
    assert!(watch.observe_rest(0, Some(RemoteAppCheck::Exited("exit status: 1".to_string()))).is_none());
    assert!(matches!(watch.observe_rest(20000, None), Some(WatchEnd::NotStarted { .. })));
    let mut watch = OperationWatch::new(1);
    assert!(matches!(watch.observe_rest(1000, Some(RemoteAppCheck::Running)), Some(WatchEnd::TimedOut)));
    let mut watch = OperationWatch::new(60);
    assert!(matches!(
        watch.observe_rest(0, Some(RemoteAppCheck::Unreadable("denied".to_string()))),
        Some(WatchEnd::RemoteAppUnreadable(_))
    ));
    assert_eq!(failure_reason(&Some(String::new()), "message"), "message");
    assert_eq!(failure_reason(&Some("error".to_string()), "message"), "error");
    assert!(retries_after(0, true));
    assert!(!retries_after(1, true));
    assert!(!retries_after(0, false));
    assert_eq!(endpoint_wait(0, 15000).unwrap(), 250);
    assert_eq!(endpoint_wait(14900, 15000).unwrap(), 100);
    let failure = endpoint_wait(15000, 15000).unwrap_err();
    assert!(failure.retryable);
    assert_eq!(failure.failure_kind, Some(CommandFailureKind::Wait));
}
