use mendimaru::bounded_command::capture_all;
use mendimaru::container::ContainerStatus;
use mendimaru::contracts::BackendErrorCode;
use mendimaru::diagnostics::{EnvironmentDiagnosticErrorCode, GuestClockProbe, ToolProbe};
use mendimaru::environment::{diagnostic_state, environment_status_of, GuestProbes, HostObservations};
use mendimaru::scripts::{
    install_script, launch_studio_script, studio_sessions_script, uninstall_script,
    StudioSessionScriptMode,
};
use mendimaru::startup::{
    identity, snapshot, AttemptRegistry, ReadinessAction, ReadinessStep, StartupPhase,
};
use mendimaru::startup_diagnostics::{classify, classify_text, QEMU_TIMEOUT, SGR_RED, SGR_RESET};

#[test]
fn a_whole_stream_keeps_exactly_its_first_bytes() {
    let chunks = vec![b"abc".to_vec(), Vec::new(), b"defg".to_vec(), b"h".to_vec()];
    let capture = capture_all(&chunks, 5);
    assert_eq!(capture.bytes, b"abcde".to_vec());
    assert!(capture.truncated);
    let capture = capture_all(&chunks, 8);
    assert_eq!(capture.bytes, b"abcdefgh".to_vec());
    assert!(!capture.truncated);
    let capture = capture_all(&Vec::new(), 0);
    assert!(capture.bytes.is_empty());
    assert!(!capture.truncated);
}

fn usable(version: &str) -> ToolProbe {
    ToolProbe { available: true, usable: true, version: Some(version.to_string()), error_code: None }
}

fn observations(status: ContainerStatus, probes: Option<GuestProbes>) -> HostObservations {
    HostObservations {
        winboat_available: true,
        compose_available: true,
        compose_file_valid: true,
        runtime: usable("29.7.2"),
        freerdp: usable("3.30.0"),
        browser: usable("151.0"),
        browser_sandbox_available: true,
        shared_directory_available: true,
        shared_location_matches: true,
        container_status: status,
        container_error_code: None,
        guest_probes: probes,
    }
}

fn answered() -> GuestProbes {
    GuestProbes {
        api_port_error: None,
        guest_answered: true,
        guest_clock: Some(GuestClockProbe::Measured(1)),
        rdp_port_error: None,
        rdp_probe: Ok(true),
    }
}

#[test]
fn the_guest_counts_as_online_only_for_a_running_initialized_container() {
    let ready = environment_status_of(observations(ContainerStatus::Running, Some(answered())), false, None);
    assert!(ready.guest_online);
    assert!(ready.ready);
    assert!(ready.winboat_initialized);

    let exited = environment_status_of(observations(ContainerStatus::Exited, Some(answered())), true, None);
    assert!(!exited.guest_online);
    assert!(!exited.ready);
    assert!(exited.setup_pending);

    let mut lookup_failed = answered();
    lookup_failed.api_port_error = Some(EnvironmentDiagnosticErrorCode::ExternalProcessInterrupted);
    lookup_failed.rdp_probe = Err(());
    let state = diagnostic_state(observations(ContainerStatus::Running, Some(lookup_failed)));
    assert!(!state.guest_online);
    assert_eq!(state.guest_clock, None);
    assert!(!state.rdp_reachable);
    assert_eq!(state.rdp_error_code, Some(EnvironmentDiagnosticErrorCode::ExternalProcessInterrupted));

    let mut missing_compose = observations(ContainerStatus::Running, Some(answered()));
    missing_compose.compose_available = false;
    let status = environment_status_of(missing_compose, false, None);
    assert!(!status.winboat_initialized);
    assert!(!status.guest_online);
    assert!(!status.shared_mount_matches);
}

#[test]
fn log_text_is_classified_as_decoded() {
    let line = format!("{SGR_RED}❯ {QEMU_TIMEOUT}{SGR_RESET}");
    assert_eq!(classify_text(&line), Some(BackendErrorCode::QemuBootTimeout));
    assert_eq!(classify(line.as_bytes()), Some(BackendErrorCode::QemuBootTimeout));
    assert_eq!(classify_text("all is well"), None);
}

#[test]
fn finished_startups_are_recorded_on_their_attempt() {
    let key = identity("docker", "/compose.yml", "WinBoat");
    let mut registry = AttemptRegistry::new();
    registry.begin(&key, "2026-01-01T00:00:00Z");
    registry.apply(&key, ReadinessStep {
        phase: Some((StartupPhase::Online, ContainerStatus::Running)),
        action: ReadinessAction::Succeed,
    });
    let online = snapshot(&registry, &key).expect("attempt");
    assert_eq!((online.id, online.phase, online.error_code), (1, StartupPhase::Online, None));

    registry.begin(&key, "2026-01-01T00:01:00Z");
    registry.apply(&key, ReadinessStep {
        phase: Some((StartupPhase::WaitingForGuest, ContainerStatus::Exited)),
        action: ReadinessAction::CheckDeadline,
    });
    registry.apply(&key, ReadinessStep {
        phase: None,
        action: ReadinessAction::Fail(BackendErrorCode::ContainerExitedDuringStartup),
    });
    let failed = snapshot(&registry, &key).expect("attempt");
    assert_eq!(failed.id, 2);
    assert_eq!(failed.phase, StartupPhase::StartupFailed);
    assert_eq!(failed.container_status, ContainerStatus::Exited);
    assert_eq!(failed.error_code, Some(BackendErrorCode::ContainerExitedDuringStartup));
}

#[test]
fn script_templates_are_filled_with_quoted_values() {
    let launch = launch_studio_script(
        "__SECURITY_PREAMBLE__\n$exe = '__EXECUTABLE_PATH__'\n$project = '__PROJECT_PATH__'\n$report = '__RESULT_PATH__'\n$root = '__INSTALL_ROOT__'\n$version = '__VERSION__'",
        "# preamble",
        r"C:\Program Files\Mendix\11.13.0\modeler\studiopro.exe",
        Some(r"\\host.lan\Data\Jo's App\App.mpr"),
        r"\\host.lan\Data\report.json",
        r"C:\Program Files\Mendix",
        "11.13.0",
    );
    assert!(launch.starts_with("# preamble\n"));
    assert!(launch.contains(r"$project = '\\host.lan\Data\Jo''s App\App.mpr'"));
    assert!(launch.contains("$version = '11.13.0'"));
    assert!(!launch.contains("__"));
    let without_project = launch_studio_script("'__PROJECT_PATH__'", "", "", None, "", "", "");
    assert_eq!(without_project, "''");

    let install = install_script(
        "__INSTALLER_PATH__|__EXPECTED_SHA256__|__SOURCE_ROOT__|__SECURITY_PREAMBLE__",
        "P",
        r"C:\installer.exe",
        "",
        "",
        "",
        "abc123",
        "O'Brien",
    );
    assert_eq!(install, r"C:\installer.exe|abc123|O''Brien|P");

    let uninstall = uninstall_script("__DATA_ROOT__ __VERSION__ __VERSION__", "", "D", "", "11.13.0", "");
    assert_eq!(uninstall, "D 11.13.0 11.13.0");

    let sessions = studio_sessions_script(
        "$mode = '__MODE__'\n$targetProcessId = [int]__TARGET_PROCESS_ID__\n$targetStartedTicks = [long]__TARGET_STARTED_TICKS__\n$known = '__KNOWN_STUDIOS_BASE64__'",
        "",
        b"[]",
        StudioSessionScriptMode::Stop { process_id: 4242, started_ticks: 638_908_128_000_000_000 },
        "",
        "",
    );
    assert!(sessions.contains("$mode = 'stop'"));
    assert!(sessions.contains("$targetProcessId = [int]4242"));
    assert!(sessions.contains("$targetStartedTicks = [long]638908128000000000"));
    assert!(sessions.contains("$known = 'W10='"));
    assert!(!sessions.contains("__"));
}
