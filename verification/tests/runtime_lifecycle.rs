use sha2::Digest as _;
use mendimaru::contracts::BackendErrorCode;
use mendimaru::runtime_session::{
    apply_http_readiness, fail_timed_out_wait, failure_diagnostic, finish_stop, host_binding,
    observe_studio, plan_stop_compose, refresh_binding, status_url, validate_start_request,
    wait_timeout_seconds, wait_verdict, HostBinding, PortMapping, RefreshStep, ReportedBinding,
    RuntimeMode, RuntimeRecord, RuntimeStart, RuntimeStartRequest, RuntimeState, StartAction,
    RuntimeStop, StartEvent, StartStage, StopAction, StopEvent, StopStage, StudioObservation,
    StudioProcessState, WaitVerdict,
};

fn request() -> RuntimeStartRequest {
    RuntimeStartRequest {
        mode: RuntimeMode::StudioRunLocally,
        package_artifact_id: None,
        readiness_timeout_seconds: 120,
        guest_port: None,
        studio_session_id: None,
    }
}

fn record() -> RuntimeRecord {
    RuntimeRecord {
        state: RuntimeState::Starting,
        http_ready: false,
        failure_code: None,
        studio_session_id: Some("studio-4242-638000000000000000".to_string()),
        studio_state: StudioProcessState::Unknown,
        studio_process_id: None,
        host_port: 47300,
        guest_port: 8080,
        readiness_timeout_seconds: 120,
        original_compose_sha256: "aa".to_string(),
        managed_compose_sha256: "bb".to_string(),
        storage_mount_identity: vec!["/home/dev/Mendix:/shared".to_string()],
    }
}

fn binding(host_ip: &str, host_port: u16, guest_port: u16) -> HostBinding {
    HostBinding { host_ip: host_ip.to_string(), host_port, guest_port }
}

#[test]
fn start_requests_are_bounded_and_linked_sessions_must_be_well_formed() {
    assert!(validate_start_request(&request()).is_ok());
    let mut timeout = request();
    timeout.readiness_timeout_seconds = 0;
    assert_eq!(validate_start_request(&timeout).unwrap_err().code, BackendErrorCode::InvalidRequest);
    let mut timeout = request();
    timeout.readiness_timeout_seconds = 3601;
    assert!(validate_start_request(&timeout).is_err());
    let mut port = request();
    port.guest_port = Some(1023);
    assert!(validate_start_request(&port).is_err());
    port.guest_port = Some(1024);
    assert!(validate_start_request(&port).is_ok());
    let mut package = request();
    package.package_artifact_id = Some("artifact".to_string());
    assert!(validate_start_request(&package).is_err());
    let mut linked = request();
    linked.studio_session_id = Some("studio-4242-638000000000000000".to_string());
    assert!(validate_start_request(&linked).is_ok());
    linked.studio_session_id = Some("studio-0-1".to_string());
    assert!(validate_start_request(&linked).is_err());
}

#[test]
fn host_bindings_need_one_loopback_mapping_with_a_port() {
    let loopback = |port: &str| ReportedBinding { host_ip: "127.0.0.1".to_string(), loopback: true, host_port: port.to_string() };
    let found = host_binding(true, 8080, Some(vec![loopback("47300")])).unwrap();
    assert_eq!((found.host_ip.as_str(), found.host_port, found.guest_port), ("127.0.0.1", 47300, 8080));
    assert_eq!(host_binding(false, 8080, Some(vec![loopback("47300")])).unwrap_err(), "the WinBoat container is not running");
    assert_eq!(host_binding(true, 8080, None).unwrap_err(), "the WinBoat container has no mapping for 8080/tcp");
    assert_eq!(host_binding(true, 8080, Some(vec![])).unwrap_err(), "the WinBoat container has no mapping for 8080/tcp");
    assert_eq!(
        host_binding(true, 8080, Some(vec![loopback("1"), loopback("2")])).unwrap_err(),
        "the WinBoat container has multiple mappings for 8080/tcp"
    );
    let wide = ReportedBinding { host_ip: "0.0.0.0".to_string(), loopback: false, host_port: "47300".to_string() };
    assert_eq!(host_binding(true, 8080, Some(vec![wide])).unwrap_err(), "the WinBoat Runtime mapping for 8080/tcp is not loopback-only");
    assert_eq!(host_binding(true, 8080, Some(vec![loopback("0")])).unwrap_err(), "the WinBoat Runtime mapping for 8080/tcp has no host port");
}

#[test]
fn a_start_that_changes_compose_rolls_back_a_failed_recreation() {
    let mut start = RuntimeStart::new(&request());
    assert_eq!(start.step(StartEvent::GuestProbed(true)), StartAction::ReadComposeMapping);
    assert_eq!(start.step(StartEvent::MappingRead(Ok(None))), StartAction::PrepareSession);
    assert_eq!(
        start.step(StartEvent::SessionPrepared(Ok(vec!["/home/dev/Mendix:/shared".to_string()]))),
        StartAction::EnsureMapping
    );
    assert_eq!(start.step(StartEvent::MappingEnsured(Ok(true))), StartAction::RecreateContainer);
    assert_eq!(
        start.step(StartEvent::ContainerRecreated(Err("Bind for 127.0.0.1:47300 failed: port is already allocated".to_string()))),
        StartAction::RollBack
    );
    assert_eq!(
        start.step(StartEvent::RolledBack(true)),
        StartAction::RestoreComposeAndFail { code: BackendErrorCode::RuntimePortConflict, retryable: true }
    );
}

#[test]
fn a_failed_rollback_reports_compose_recovery() {
    let mut start = RuntimeStart::new(&request());
    start.step(StartEvent::GuestProbed(true));
    start.step(StartEvent::MappingRead(Ok(None)));
    start.step(StartEvent::SessionPrepared(Ok(vec![])));
    start.step(StartEvent::MappingEnsured(Ok(true)));
    assert_eq!(start.step(StartEvent::ContainerRecreated(Ok(()))), StartAction::WaitForGuest);
    assert_eq!(start.step(StartEvent::GuestWaited(false)), StartAction::RollBack);
    assert_eq!(
        start.step(StartEvent::RolledBack(false)),
        StartAction::RestoreComposeAndFail { code: BackendErrorCode::RuntimeComposeRecoveryFailed, retryable: false }
    );
}

#[test]
fn a_start_records_the_session_for_a_matching_binding() {
    let mut start = RuntimeStart::new(&request());
    start.step(StartEvent::GuestProbed(true));
    let prepared = PortMapping { host_ip: "127.0.0.1".to_string(), host_port: None, protocol: "tcp".to_string() };
    assert_eq!(start.step(StartEvent::MappingRead(Ok(Some(prepared)))), StartAction::ReadLiveBinding);
    assert_eq!(start.step(StartEvent::LiveBindingRead(Err(()))), StartAction::PrepareSession);
    start.step(StartEvent::SessionPrepared(Ok(vec!["m".to_string()])));
    assert_eq!(start.step(StartEvent::MappingEnsured(Ok(false))), StartAction::ReadStorage);
    assert_eq!(start.step(StartEvent::StorageRead(Ok(vec!["m".to_string()]))), StartAction::ReadManagedCompose);
    assert_eq!(start.step(StartEvent::ManagedComposeRead(true)), StartAction::ReadBinding);
    assert_eq!(
        start.step(StartEvent::BindingRead(Ok(binding("127.0.0.1", 47300, 8080)))),
        StartAction::CreateRecord { host_port: 47300 }
    );
}

#[test]
fn a_linked_start_needs_the_live_loopback_mapping_and_offline_guests_are_retryable() {
    let mut linked = request();
    linked.studio_session_id = Some("studio-4242-638000000000000000".to_string());
    let mut start = RuntimeStart::new(&linked);
    start.step(StartEvent::GuestProbed(true));
    assert_eq!(
        start.step(StartEvent::MappingRead(Ok(None))),
        StartAction::Fail { code: BackendErrorCode::RuntimePortForwardingInvalid, retryable: true }
    );
    let mut start = RuntimeStart::new(&linked);
    start.step(StartEvent::GuestProbed(true));
    let prepared = PortMapping { host_ip: "127.0.0.1".to_string(), host_port: None, protocol: "tcp".to_string() };
    start.step(StartEvent::MappingRead(Ok(Some(prepared))));
    assert_eq!(
        start.step(StartEvent::LiveBindingRead(Ok(binding("127.0.0.1", 47300, 9090)))),
        StartAction::Fail { code: BackendErrorCode::RuntimePortForwardingInvalid, retryable: true }
    );
    let mut start = RuntimeStart::new(&request());
    assert_eq!(
        start.step(StartEvent::GuestProbed(false)),
        StartAction::Fail { code: BackendErrorCode::RuntimeGuestOffline, retryable: true }
    );
    let mut start = RuntimeStart::new(&request());
    start.step(StartEvent::GuestProbed(true));
    start.step(StartEvent::MappingRead(Ok(None)));
    start.step(StartEvent::SessionPrepared(Ok(vec!["m".to_string()])));
    start.step(StartEvent::MappingEnsured(Ok(false)));
    assert_eq!(start.step(StartEvent::StorageRead(Ok(vec!["other".to_string()]))), StartAction::RollBack);
}

#[test]
fn refresh_fails_offline_guests_once_and_follows_the_host_port() {
    let mut r = record();
    match refresh_binding(&mut r, false, Err(())) {
        RefreshStep::Failed { note } => assert_eq!(
            note.as_deref(),
            Some("Runtime failure recorded: code=runtime_guest_offline; reason=Guest API health probe failed.; httpReady=false; studioSession=studio-4242-638000000000000000; studioState=Unknown; studioProcessId=unspecified.")
        ),
        RefreshStep::Probe { .. } => panic!("an offline guest is a failure"),
    }
    assert_eq!(r.state, RuntimeState::Failed);
    match refresh_binding(&mut r, false, Err(())) {
        RefreshStep::Failed { note } => assert_eq!(note, None),
        RefreshStep::Probe { .. } => panic!("still offline"),
    }
    match refresh_binding(&mut r, true, Ok(binding("127.0.0.1", 47310, 8080))) {
        RefreshStep::Probe { url, port_changed } => {
            assert_eq!(url, "http://127.0.0.1:47310");
            assert!(port_changed);
        }
        RefreshStep::Failed { .. } => panic!("a matching binding is probed"),
    }
    assert_eq!(r.host_port, 47310);
    apply_http_readiness(&mut r, true);
    assert_eq!((r.state, r.failure_code, r.studio_state), (RuntimeState::Ready, None, StudioProcessState::Running));
    assert_eq!(status_url(&r).as_deref(), Some("http://127.0.0.1:47310"));
    match refresh_binding(&mut r, true, Ok(binding("0.0.0.0", 47310, 8080))) {
        RefreshStep::Failed { note } => assert!(note.unwrap().contains("code=runtime_port_forwarding_invalid")),
        RefreshStep::Probe { .. } => panic!("a wide binding fails"),
    }
    assert_eq!(status_url(&r), None);
}

#[test]
fn waits_give_up_on_final_failures_and_name_an_exited_studio() {
    let mut r = record();
    assert_eq!(wait_verdict(&r), WaitVerdict::KeepWaiting);
    r.failure_code = Some(BackendErrorCode::RuntimeGuestOffline);
    assert_eq!(wait_verdict(&r), WaitVerdict::KeepWaiting);
    r.failure_code = Some(BackendErrorCode::RuntimePortConflict);
    assert_eq!(wait_verdict(&r), WaitVerdict::Fail);
    r.state = RuntimeState::Ready;
    assert_eq!(wait_verdict(&r), WaitVerdict::Ready);
    r.readiness_timeout_seconds = 0;
    assert_eq!(wait_timeout_seconds(&r), 1);
    r.readiness_timeout_seconds = 99_999;
    assert_eq!(wait_timeout_seconds(&r), 3_600);

    let mut r = record();
    let note = fail_timed_out_wait(&mut r, BackendErrorCode::RuntimeReadinessTimeout, true).unwrap();
    assert_eq!(r.failure_code, Some(BackendErrorCode::RuntimeExited));
    assert!(note.starts_with("Runtime failure recorded: code=runtime_exited; reason="));
    let mut r = record();
    fail_timed_out_wait(&mut r, BackendErrorCode::RuntimeNotListening, true);
    assert_eq!(r.failure_code, Some(BackendErrorCode::RuntimeNotListening));
}

#[test]
fn stops_restore_only_a_known_compose_file() {
    let r = record();
    assert_eq!(plan_stop_compose(&r, "aa", "bb"), Ok(true));
    assert_eq!(plan_stop_compose(&r, "aa", "aa"), Ok(false));
    assert_eq!(plan_stop_compose(&r, "zz", "bb"), Err(BackendErrorCode::RuntimeComposeRecoveryFailed));
    assert_eq!(plan_stop_compose(&r, "aa", "cc"), Err(BackendErrorCode::RuntimeComposeRecoveryFailed));
    let mut r = record();
    assert_eq!(finish_stop(&mut r, &vec!["elsewhere".to_string()]), Err(BackendErrorCode::RuntimeComposeRecoveryFailed));
    assert_eq!(r.state, RuntimeState::Starting);
    assert_eq!(finish_stop(&mut r, &vec!["/home/dev/Mendix:/shared".to_string()]), Ok(()));
    assert_eq!((r.state, r.studio_state, r.studio_process_id), (RuntimeState::Stopped, StudioProcessState::Stopped, None));
}

#[test]
fn the_linked_studio_session_is_observed_by_its_id() {
    let mut r = record();
    let sessions = vec![
        StudioObservation { session_id: "studio-1-1".to_string(), state: StudioProcessState::Running, process_id: Some(1) },
        StudioObservation { session_id: "studio-4242-638000000000000000".to_string(), state: StudioProcessState::Running, process_id: Some(4242) },
    ];
    observe_studio(&mut r, Ok(sessions));
    assert_eq!((r.studio_state, r.studio_process_id), (StudioProcessState::Running, Some(4242)));
    observe_studio(&mut r, Ok(vec![]));
    assert_eq!((r.studio_state, r.studio_process_id), (StudioProcessState::Stopped, None));
    observe_studio(&mut r, Err(()));
    assert_eq!(r.studio_state, StudioProcessState::Unknown);
    let mut failed = record();
    failed.failure_code = Some(BackendErrorCode::RuntimeNotListening);
    let note = failure_diagnostic((RuntimeState::Starting, None), &failed, "probe").unwrap();
    assert!(note.contains("code=runtime_not_listening; reason=probe; httpReady=false"));
    assert_eq!(failure_diagnostic((RuntimeState::Failed, Some(BackendErrorCode::RuntimeNotListening)), &failed, "probe"), None);
}

#[test]
fn failures_after_the_compose_snapshot_restore_it() {
    let prepared = |start: &mut RuntimeStart| {
        start.step(StartEvent::GuestProbed(true));
        start.step(StartEvent::MappingRead(Ok(None)));
    };
    let mut start = RuntimeStart::new(&request());
    prepared(&mut start);
    assert_eq!(
        start.step(StartEvent::SessionPrepared(Err((BackendErrorCode::OperationFailed, false)))),
        StartAction::Fail { code: BackendErrorCode::OperationFailed, retryable: false }
    );
    let mut start = RuntimeStart::new(&request());
    prepared(&mut start);
    assert_eq!(
        start.step(StartEvent::SessionPrepared(Err((BackendErrorCode::RuntimePortForwardingInvalid, true)))),
        StartAction::RestoreComposeAndFail { code: BackendErrorCode::RuntimePortForwardingInvalid, retryable: false }
    );
    let mut start = RuntimeStart::new(&request());
    prepared(&mut start);
    start.step(StartEvent::SessionPrepared(Ok(vec!["m".to_string()])));
    assert_eq!(
        start.step(StartEvent::MappingEnsured(Err(()))),
        StartAction::RestoreComposeAndFail { code: BackendErrorCode::RuntimePortForwardingInvalid, retryable: false }
    );
    let mut start = RuntimeStart::new(&request());
    prepared(&mut start);
    start.step(StartEvent::SessionPrepared(Ok(vec!["m".to_string()])));
    start.step(StartEvent::MappingEnsured(Ok(true)));
    start.step(StartEvent::ContainerRecreated(Ok(())));
    start.step(StartEvent::GuestWaited(true));
    start.step(StartEvent::StorageRead(Ok(vec!["m".to_string()])));
    assert_eq!(
        start.step(StartEvent::ManagedComposeRead(false)),
        StartAction::RestoreComposeAndFail { code: BackendErrorCode::RuntimePortForwardingInvalid, retryable: false }
    );
    let mut start = RuntimeStart::new(&request());
    prepared(&mut start);
    start.step(StartEvent::SessionPrepared(Ok(vec!["m".to_string()])));
    start.step(StartEvent::MappingEnsured(Ok(false)));
    start.step(StartEvent::StorageRead(Ok(vec!["m".to_string()])));
    start.step(StartEvent::ManagedComposeRead(true));
    assert_eq!(
        start.step(StartEvent::BindingRead(Err(()))),
        StartAction::RestoreComposeAndFail { code: BackendErrorCode::RuntimePortForwardingInvalid, retryable: true }
    );
}

#[test]
fn a_recorded_start_commits_and_a_failed_record_restores() {
    let run = |outcome: Result<(), (BackendErrorCode, bool)>| {
        let mut start = RuntimeStart::new(&request());
        start.step(StartEvent::GuestProbed(true));
        start.step(StartEvent::MappingRead(Ok(None)));
        start.step(StartEvent::SessionPrepared(Ok(vec!["m".to_string()])));
        start.step(StartEvent::MappingEnsured(Ok(false)));
        start.step(StartEvent::StorageRead(Ok(vec!["m".to_string()])));
        start.step(StartEvent::ManagedComposeRead(true));
        start.step(StartEvent::BindingRead(Ok(binding("127.0.0.1", 47300, 8080))));
        start.step(StartEvent::RecordCreated(outcome))
    };
    assert_eq!(run(Ok(())), StartAction::Commit);
    assert_eq!(
        run(Err((BackendErrorCode::OperationFailed, false))),
        StartAction::RestoreComposeAndFail { code: BackendErrorCode::OperationFailed, retryable: false }
    );
}

#[test]
fn an_invalid_start_request_is_refused_before_any_probe() {
    let (start, action) = RuntimeStart::begin(&request()).expect("valid request");
    assert_eq!(action, StartAction::ProbeGuest);
    assert_eq!(start.stage, StartStage::ProbingGuest);
    let mut invalid = request();
    invalid.readiness_timeout_seconds = 0;
    let refused = RuntimeStart::begin(&invalid).err().expect("invalid request");
    assert_eq!(refused.code, BackendErrorCode::InvalidRequest);
    assert!(!refused.retryable);
}

fn hex_digest(bytes: &[u8]) -> String {
    sha2::Sha256::digest(bytes).iter().map(|b| format!("{b:02x}")).collect()
}

fn stop_record() -> RuntimeRecord {
    let mut r = record();
    r.state = RuntimeState::Ready;
    r.http_ready = true;
    r.original_compose_sha256 = hex_digest(b"original");
    r.managed_compose_sha256 = hex_digest(b"managed");
    r
}

#[test]
fn a_stop_restores_the_original_compose_and_records_the_stopped_session() {
    let (mut stop, action) = RuntimeStop::begin(stop_record());
    assert_eq!(action, StopAction::ReadOriginal);
    assert_eq!(stop.step(StopEvent::OriginalRead(Ok(b"original".to_vec()))), StopAction::ReadCurrent);
    assert_eq!(stop.step(StopEvent::CurrentRead(Ok(b"managed".to_vec()))), StopAction::WriteOriginal);
    assert_eq!(stop.step(StopEvent::OriginalWritten(true)), StopAction::RecreateContainer);
    assert_eq!(stop.step(StopEvent::ContainerRecreated(true)), StopAction::WaitForGuest);
    assert_eq!(stop.step(StopEvent::GuestWaited(true)), StopAction::ReadStorage);
    assert_eq!(
        stop.step(StopEvent::StorageRead(Ok(vec!["/home/dev/Mendix:/shared".to_string()]))),
        StopAction::WriteRecord
    );
    assert_eq!(stop.record.state, RuntimeState::Stopped);
    assert!(!stop.record.http_ready);
    assert_eq!(stop.record.studio_state, StudioProcessState::Stopped);
    assert_eq!(stop.step(StopEvent::RecordWritten(true)), StopAction::Done);
    assert_eq!(stop.stage, StopStage::Stopped);
}

#[test]
fn a_stopped_session_stops_at_once_and_failures_keep_their_codes() {
    let mut stopped = stop_record();
    stopped.state = RuntimeState::Stopped;
    let (stop, action) = RuntimeStop::begin(stopped);
    assert_eq!(action, StopAction::AlreadyStopped);
    assert_eq!(stop.stage, StopStage::Stopped);

    let recovery = |retryable: bool| StopAction::Fail { code: BackendErrorCode::RuntimeComposeRecoveryFailed, retryable };
    let (mut stop, _) = RuntimeStop::begin(stop_record());
    assert_eq!(stop.step(StopEvent::OriginalRead(Ok(b"tampered".to_vec()))), recovery(false));

    let (mut stop, _) = RuntimeStop::begin(stop_record());
    stop.step(StopEvent::OriginalRead(Ok(b"original".to_vec())));
    assert_eq!(stop.step(StopEvent::CurrentRead(Ok(b"edited".to_vec()))), recovery(false));

    let (mut stop, _) = RuntimeStop::begin(stop_record());
    stop.step(StopEvent::OriginalRead(Ok(b"original".to_vec())));
    assert_eq!(stop.step(StopEvent::CurrentRead(Ok(b"original".to_vec()))), StopAction::RecreateContainer);
    assert_eq!(stop.step(StopEvent::ContainerRecreated(false)), recovery(true));

    let (mut stop, _) = RuntimeStop::begin(stop_record());
    stop.step(StopEvent::OriginalRead(Ok(b"original".to_vec())));
    stop.step(StopEvent::CurrentRead(Ok(b"original".to_vec())));
    stop.step(StopEvent::ContainerRecreated(true));
    assert_eq!(
        stop.step(StopEvent::GuestWaited(false)),
        StopAction::Fail { code: BackendErrorCode::RuntimeGuestOffline, retryable: true }
    );

    let (mut stop, _) = RuntimeStop::begin(stop_record());
    stop.step(StopEvent::OriginalRead(Ok(b"original".to_vec())));
    stop.step(StopEvent::CurrentRead(Ok(b"original".to_vec())));
    stop.step(StopEvent::ContainerRecreated(true));
    stop.step(StopEvent::GuestWaited(true));
    assert_eq!(stop.step(StopEvent::StorageRead(Ok(vec!["other".to_string()]))), recovery(false));
    assert_eq!(stop.record.state, RuntimeState::Ready);
}
