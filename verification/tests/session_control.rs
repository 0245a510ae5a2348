use mendimaru::runtime_session::StudioProcessState;
use mendimaru::security::{authenticate_envelope, authenticated_envelope, OperationSecurity};
use mendimaru::session_registry::{
    confirm_closed, launch_session_status, reconnect_status, stop_control_payload,
    stop_identity, RegisteredControl, RegisteredSession, SessionRegistry, StopOutcome,
};
use mendimaru::studio_ops::WindowsStudioSessionReport;
use mendimaru::studio_sessions::{
    SessionIdentity, StudioConnectionState, StudioReconnectUnavailable, StudioSessionStatus,
};

const SESSION: &str = "studio-4242-638908128000000000";
const STARTED: &str = "2025-08-15T00:00:00Z";

fn control(security: OperationSecurity, previous: u64) -> RegisteredControl {
    let envelope = authenticated_envelope(&security, previous, br#"{"state":"succeeded"}"#).unwrap();
    let previous_report = authenticate_envelope(&envelope, &security).unwrap();
    RegisteredControl {
        report_path: "/shared/session.json".into(),
        control_path: "/shared/session.control.json".into(),
        security,
        previous_report,
        next_sequence: 1,
        cleanup_report: false,
    }
}

fn status(session_id: &str, seconds: i64) -> StudioSessionStatus {
    StudioSessionStatus {
        session_id: session_id.into(),
        version: "11.12.3".into(),
        state: StudioProcessState::Running,
        process_id: Some(4242),
        started_at: Some((seconds, 0)),
        project_name: None,
        connection: StudioConnectionState::Connected,
        reconnectable: false,
        reconnect_unavailable: Some(StudioReconnectUnavailable::AlreadyConnected),
    }
}

fn report(session_id: &str, version: &str, has_window: bool) -> WindowsStudioSessionReport {
    WindowsStudioSessionReport {
        session_id: session_id.into(),
        version: version.into(),
        process_id: 4242,
        started_at: STARTED.into(),
        project_name: Some(" Orders ".into()),
        has_window,
    }
}

#[test]
fn writes_an_authenticated_exact_identity_stop_request_without_overwriting() {
    let security = OperationSecurity::fixture();
    let mut control = control(security, 2);
    let identity = SessionIdentity { process_id: 4242, started_ticks: 638_908_128_000_000_000 };
    let envelope = control.stop_request(SESSION, identity).expect("stop request is signed");
    control.advance_sequence().expect("sequence advances");
    let authenticated = authenticate_envelope(&envelope, &control.security).expect("stop request authenticates");
    assert_eq!(authenticated.sequence, 1);
    let value: serde_json::Value = serde_json::from_slice(&authenticated.payload).unwrap();
    assert_eq!(value["action"], "studio.stop");
    assert_eq!(value["sessionId"], SESSION);
    assert_eq!(value["processId"], 4242);
    assert_eq!(value["startedTicks"], 638_908_128_000_000_000_i64);
    assert_eq!(value.as_object().unwrap().len(), 4);
    assert_eq!(control.next_sequence, 2);
    let second = control.stop_request(SESSION, identity).unwrap();
    assert_eq!(second.sequence, 2);
}

#[test]
fn stop_payload_matches_serde_output() {
    let identity = SessionIdentity { process_id: 7, started_ticks: 638_908_128_000_000_001 };
    assert_eq!(
        stop_control_payload("studio-7-638908128000000001", identity),
        "{\"action\":\"studio.stop\",\"sessionId\":\"studio-7-638908128000000001\",\"processId\":7,\"startedTicks\":638908128000000001}"
    );
}

#[test]
fn removes_a_disconnected_launch_after_an_authenticated_empty_session_report() {
    let security = OperationSecurity::fixture();
    let mut control = control(security.clone(), 2);
    let closed = authenticated_envelope(&security, 3, br#"{"state":"succeeded","sessions":[]}"#).unwrap();
    let authenticated = authenticate_envelope(&closed, &security).unwrap();
    assert_eq!(control.session_active(authenticated, Ok((true, false))), Ok(false));
    assert_eq!(control.previous_report.sequence, 3);
}

#[test]
fn session_reports_must_not_regress_or_fail() {
    let security = OperationSecurity::fixture();
    let mut control = control(security.clone(), 5);
    let older = authenticate_envelope(&authenticated_envelope(&security, 4, b"{}").unwrap(), &security).unwrap();
    assert_eq!(
        control.session_active(older, Ok((true, true))),
        Err("the Studio Pro session report sequence regressed".to_string())
    );
    let same = authenticate_envelope(&authenticated_envelope(&security, 5, b"{}").unwrap(), &security).unwrap();
    assert_eq!(control.session_active(same, Err("ignored".into())), Ok(true));
    let failed = authenticate_envelope(&authenticated_envelope(&security, 6, b"{}").unwrap(), &security).unwrap();
    assert_eq!(
        control.session_active(failed, Ok((false, true))),
        Err("the Studio Pro session report did not succeed".to_string())
    );
    assert_eq!(control.previous_report.sequence, 5);
}

#[test]
fn a_launch_registers_only_the_exact_launched_session() {
    let launched = launch_session_status("11.12.3", &vec![report(SESSION, "11.12.3", true)]).unwrap();
    assert_eq!(launched.session_id, SESSION);
    assert_eq!(launched.project_name.as_deref(), Some("Orders"));
    assert_eq!(launched.connection, StudioConnectionState::Connected);
    assert!(!launched.reconnectable);
    assert_eq!(
        launch_session_status("11.12.3", &vec![]).unwrap_err().message,
        "Windows did not return the launched Studio Pro session identity"
    );
    assert_eq!(
        launch_session_status("11.12.4", &vec![report(SESSION, "11.12.3", true)]).unwrap_err().message,
        "Windows returned an invalid launched Studio Pro session identity"
    );
    assert_eq!(
        launch_session_status("11.12.3", &vec![report(SESSION, "11.12.3", false)]).unwrap_err().message,
        "Windows returned an invalid launched Studio Pro session identity"
    );
    assert_eq!(
        launch_session_status("11.12.3", &vec![report("studio-4242-638908128000000001", "11.12.3", true)])
            .unwrap_err()
            .message,
        "Windows returned an invalid launched Studio Pro session identity"
    );
    assert_eq!(
        launch_session_status("11.12.3", &vec![report("studio-x", "11.12.3", true)]).unwrap_err().message,
        "the Studio Pro session identifier is invalid"
    );
}

#[test]
fn reconnect_picks_the_reconnectable_session_and_marks_it_connected() {
    let mut waiting = status(SESSION, 1);
    waiting.connection = StudioConnectionState::Disconnected;
    waiting.reconnectable = true;
    waiting.reconnect_unavailable = None;
    let mut other = status("studio-1-638908128000000000", 2);
    other.reconnectable = false;
    let sessions = vec![other, waiting];
    let chosen = reconnect_status(&sessions, SESSION).unwrap();
    assert_eq!(chosen.connection, StudioConnectionState::Connected);
    assert!(!chosen.reconnectable);
    assert_eq!(chosen.reconnect_unavailable, Some(StudioReconnectUnavailable::AlreadyConnected));
    assert!(reconnect_status(&sessions, "studio-1-638908128000000000").is_none());
}

#[test]
fn a_registered_session_is_stopped_once_and_listed_latest_first() {
    let security = OperationSecurity::fixture();
    let mut registry = SessionRegistry::new();
    assert!(registry.register(RegisteredSession { status: status(SESSION, 10), control: control(security.clone(), 1) }).is_none());
    let second = "studio-5-638908128000000000";
    assert!(registry.register(RegisteredSession { status: status(second, 20), control: control(security.clone(), 1) }).is_none());
    let listed = registry.listed();
    assert_eq!(listed[0].session_id, second);
    assert_eq!(listed[1].session_id, SESSION);
    assert!(registry.is_connected(SESSION));

    let session = registry.begin_stop(SESSION).unwrap().expect("connected session");
    assert!(registry.is_connected(SESSION));
    assert_eq!(
        registry.begin_stop(SESSION).err().unwrap().message,
        "the Studio Pro session is already stopping"
    );
    assert_eq!(registry.listed().len(), 2);
    assert!(registry.end_stop(session, StopOutcome::Stopped).is_none());
    assert!(!registry.is_connected(SESSION));
    assert!(registry.begin_stop(SESSION).unwrap().is_none());

    let session = registry.begin_stop(second).unwrap().unwrap();
    registry.end_stop(session, StopOutcome::FailedWhileConnected);
    assert!(registry.is_connected(second));
    assert!(registry.remove(second).is_some());
    assert!(registry.listed().is_empty());
}

#[test]
fn a_stop_checks_the_registered_identity() {
    let identity = stop_identity(SESSION, &status(SESSION, 1_755_216_000)).unwrap();
    assert_eq!(identity.process_id, 4242);
    let wrong_start = stop_identity(SESSION, &status(SESSION, 1_755_216_001)).unwrap_err();
    assert_eq!(wrong_start.message, "the registered Studio Pro process identity is inconsistent");
    assert!(confirm_closed(0).is_ok());
    assert_eq!(
        confirm_closed(1).unwrap_err().message,
        "Windows returned sessions after confirming Studio Pro closed"
    );
}
