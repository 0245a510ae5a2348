use mendimaru::container::ContainerStatus;
use mendimaru::contracts::BackendErrorCode;
use mendimaru::diagnostics::{
    build_linux_diagnostics, environment_error_code, extract_version, sanitized_host_clocksource,
    CommandFailureKind, EnvironmentDiagnostic, EnvironmentDiagnosticAction,
    EnvironmentDiagnosticErrorCode, EnvironmentDiagnosticId, EnvironmentDiagnosticStatus,
    GuestClockProbe, LinuxDiagnosticState, ToolProbe,
};
use mendimaru::startup::{StartupAttempt, StartupPhase};
use mendimaru::startup_diagnostics::{apply, classify, LOG_BYTES, LOG_LINES, QEMU_TIMEOUT};

fn healthy_state() -> LinuxDiagnosticState {
    LinuxDiagnosticState {
        winboat_available: true,
        compose_available: true,
        compose_valid: true,
        runtime: ToolProbe {
            available: true,
            usable: true,
            version: Some("29.7.2".to_string()),
            error_code: None,
        },
        freerdp: ToolProbe {
            available: true,
            usable: true,
            version: Some("3.30.0".to_string()),
            error_code: None,
        },
        shared_directory_available: true,
        shared_mount_matches: true,
        container_status: ContainerStatus::Running,
        container_error_code: None,
        guest_online: true,
        guest_error_code: None,
        guest_clock: Some(GuestClockProbe::Measured(0)),
        rdp_reachable: true,
        rdp_error_code: None,
        browser: ToolProbe {
            available: true,
            usable: true,
            version: Some("151.0.7922.137".to_string()),
            error_code: None,
        },
        browser_sandbox_available: true,
    }
}

fn find(diagnostics: &[EnvironmentDiagnostic], id: EnvironmentDiagnosticId) -> &EnvironmentDiagnostic {
    diagnostics.iter().find(|d| d.id == id).expect("diagnostic")
}

#[test]
fn healthy_environment_has_independent_successful_checks() {
    let state = healthy_state();
    let diagnostics = build_linux_diagnostics(&state, None);
    assert!(state.ready());
    assert_eq!(diagnostics.len(), 11);
    assert!(diagnostics.iter().all(|d| d.status == EnvironmentDiagnosticStatus::Success));
    assert_eq!(find(&diagnostics, EnvironmentDiagnosticId::GuestClock).error_code, None);
    assert_eq!(
        find(&diagnostics, EnvironmentDiagnosticId::ContainerRuntime).observed.as_deref(),
        Some("29.7.2")
    );
    assert_eq!(
        find(&diagnostics, EnvironmentDiagnosticId::MarketplaceBrowser).observed.as_deref(),
        Some("151.0.7922.137; sandbox=active")
    );
}

#[test]
fn partial_failures_keep_recovery_actions_and_unrelated_successes() {
    let mut state = healthy_state();
    state.compose_valid = false;
    state.guest_online = false;
    state.browser = ToolProbe::default();
    state.browser_sandbox_available = false;
    let diagnostics = build_linux_diagnostics(&state, None);
    assert!(!state.ready());
    let compose = find(&diagnostics, EnvironmentDiagnosticId::Compose);
    assert_eq!(compose.status, EnvironmentDiagnosticStatus::Failure);
    assert_eq!(compose.action, Some(EnvironmentDiagnosticAction::OpenSettings));
    let guest = find(&diagnostics, EnvironmentDiagnosticId::GuestApi);
    assert_eq!(guest.status, EnvironmentDiagnosticStatus::Failure);
    assert_eq!(guest.action, Some(EnvironmentDiagnosticAction::OpenWinboat));
    let browser = find(&diagnostics, EnvironmentDiagnosticId::MarketplaceBrowser);
    assert_eq!(browser.status, EnvironmentDiagnosticStatus::Warning);
    assert_eq!(browser.action, Some(EnvironmentDiagnosticAction::Redetect));
    assert_eq!(
        find(&diagnostics, EnvironmentDiagnosticId::Freerdp).status,
        EnvironmentDiagnosticStatus::Success
    );
}

#[test]
fn guest_clock_skew_uses_bounded_thresholds() {
    for (skew_seconds, expected) in [
        (0, EnvironmentDiagnosticStatus::Success),
        (5, EnvironmentDiagnosticStatus::Success),
        (-5, EnvironmentDiagnosticStatus::Success),
        (6, EnvironmentDiagnosticStatus::Warning),
        (-6, EnvironmentDiagnosticStatus::Warning),
        (60, EnvironmentDiagnosticStatus::Warning),
        (61, EnvironmentDiagnosticStatus::Failure),
        (-36_000, EnvironmentDiagnosticStatus::Failure),
    ] {
        let mut state = healthy_state();
        state.guest_clock = Some(GuestClockProbe::Measured(skew_seconds));
        let diagnostics = build_linux_diagnostics(&state, None);
        let guest_clock = find(&diagnostics, EnvironmentDiagnosticId::GuestClock);
        assert_eq!(guest_clock.status, expected, "skew {skew_seconds}s");
        assert_eq!(
            guest_clock.error_code,
            (expected == EnvironmentDiagnosticStatus::Failure)
                .then_some(EnvironmentDiagnosticErrorCode::GuestClockSkewExceeded),
            "skew {skew_seconds}s"
        );
    }
}

#[test]
fn guest_clock_unmeasurable_and_offline_paths_have_recovery_actions() {
    let mut unmeasurable = healthy_state();
    unmeasurable.guest_clock = Some(GuestClockProbe::Unmeasurable);
    let diagnostics = build_linux_diagnostics(&unmeasurable, None);
    let diagnostic = find(&diagnostics, EnvironmentDiagnosticId::GuestClock);
    assert_eq!(diagnostic.status, EnvironmentDiagnosticStatus::Warning);
    assert_eq!(diagnostic.action, Some(EnvironmentDiagnosticAction::Redetect));
    assert_eq!(diagnostic.error_code, None);
    assert!(diagnostic
        .observed
        .as_deref()
        .is_some_and(|observed| observed.starts_with("skew=unavailable")));

    let mut offline = healthy_state();
    offline.guest_online = false;
    offline.guest_clock = None;
    let diagnostics = build_linux_diagnostics(&offline, None);
    let diagnostic = find(&diagnostics, EnvironmentDiagnosticId::GuestClock);
    assert_eq!(diagnostic.status, EnvironmentDiagnosticStatus::Failure);
    assert_eq!(diagnostic.action, Some(EnvironmentDiagnosticAction::OpenWinboat));
    assert_eq!(diagnostic.observed, None);
}

#[test]
fn guest_clock_observes_measured_skew_and_a_safe_host_clocksource() {
    let mut state = healthy_state();
    state.guest_clock = Some(GuestClockProbe::Measured(-36_000));
    let diagnostics = build_linux_diagnostics(&state, Some("tsc\n"));
    let observed = find(&diagnostics, EnvironmentDiagnosticId::GuestClock)
        .observed
        .clone()
        .expect("measured skew is observable");
    assert_eq!(observed, "skew=-36000s; host-clocksource=tsc");
    let diagnostics = build_linux_diagnostics(&state, Some("hpet; rm -rf /"));
    assert_eq!(
        find(&diagnostics, EnvironmentDiagnosticId::GuestClock).observed.as_deref(),
        Some("skew=-36000s")
    );
}

#[test]
fn host_clocksource_accepts_only_bounded_safe_names() {
    assert_eq!(sanitized_host_clocksource("tsc\n"), Some("tsc".to_string()));
    assert_eq!(sanitized_host_clocksource("kvm-clock"), Some("kvm-clock".to_string()));
    assert_eq!(sanitized_host_clocksource(""), None);
    assert_eq!(sanitized_host_clocksource("hpet; rm -rf /"), None);
    assert_eq!(sanitized_host_clocksource(&"x".repeat(33)), None);
    assert_eq!(sanitized_host_clocksource("UPPER"), None);
}

#[test]
fn usable_browser_without_a_verified_sandbox_is_a_failure() {
    let mut state = healthy_state();
    state.browser_sandbox_available = false;
    let diagnostics = build_linux_diagnostics(&state, None);
    let browser = find(&diagnostics, EnvironmentDiagnosticId::MarketplaceBrowser);
    assert_eq!(browser.status, EnvironmentDiagnosticStatus::Failure);
    assert_eq!(browser.action, Some(EnvironmentDiagnosticAction::Redetect));
    assert_eq!(browser.observed.as_deref(), Some("151.0.7922.137; sandbox=unavailable"));
}

#[test]
fn version_output_is_reduced_to_a_safe_component_version() {
    assert_eq!(
        extract_version(b"Google Chrome 151.0.7922.137\n"),
        Some("151.0.7922.137".to_string())
    );
    assert_eq!(
        extract_version(b"This is FreeRDP version 3.30.0 (build)"),
        Some("3.30.0".to_string())
    );
    assert_eq!(extract_version(b"password=secret"), None);
    assert_eq!(extract_version(b"(v1.2)"), None);
    assert_eq!(extract_version(b"[1.2.3]"), Some("1.2.3".to_string()));
}

#[test]
fn stopped_containers_ask_for_winboat_to_start() {
    let mut state = healthy_state();
    state.container_status = ContainerStatus::Exited;
    state.guest_online = false;
    state.rdp_reachable = false;
    let diagnostics = build_linux_diagnostics(&state, None);
    let container = find(&diagnostics, EnvironmentDiagnosticId::Container);
    assert_eq!(container.status, EnvironmentDiagnosticStatus::Warning);
    assert_eq!(container.observed.as_deref(), Some("exited"));
    assert_eq!(container.action, Some(EnvironmentDiagnosticAction::StartWinboat));
    let rdp = find(&diagnostics, EnvironmentDiagnosticId::Rdp);
    assert_eq!(rdp.status, EnvironmentDiagnosticStatus::Warning);
    assert_eq!(rdp.action, Some(EnvironmentDiagnosticAction::StartWinboat));
    state.container_status = ContainerStatus::Dead;
    let diagnostics = build_linux_diagnostics(&state, None);
    assert_eq!(
        find(&diagnostics, EnvironmentDiagnosticId::Container).status,
        EnvironmentDiagnosticStatus::Failure
    );
}

#[test]
fn probe_failures_have_stable_codes() {
    assert_eq!(
        environment_error_code(CommandFailureKind::Timeout),
        EnvironmentDiagnosticErrorCode::ExternalProcessTimeout
    );
    assert_eq!(
        environment_error_code(CommandFailureKind::Cleanup),
        EnvironmentDiagnosticErrorCode::ExternalProcessInterrupted
    );
    assert_eq!(
        environment_error_code(CommandFailureKind::Spawn),
        EnvironmentDiagnosticErrorCode::ExternalProcessSpawnFailed
    );
}

#[test]
fn runtime_states_map_to_statuses() {
    assert_eq!(ContainerStatus::from_runtime("running"), ContainerStatus::Running);
    assert_eq!(ContainerStatus::from_runtime("dead"), ContainerStatus::Dead);
    assert_eq!(ContainerStatus::from_runtime("Running"), ContainerStatus::Unknown);
}

#[test]
fn only_exact_allowlisted_signatures_produce_a_specific_code() {
    for line in [
        QEMU_TIMEOUT.to_string(),
        format!("❯ {QEMU_TIMEOUT}"),
        format!("\u{1b}[1;31m❯ {QEMU_TIMEOUT}\u{1b}[0m"),
        format!("{QEMU_TIMEOUT}\npassword=private token=secret /home/private"),
    ] {
        assert_eq!(classify(line.as_bytes()), Some(BackendErrorCode::QemuBootTimeout));
    }
    for line in [
        "password=private token=secret /home/private".to_string(),
        format!("untrusted prefix {QEMU_TIMEOUT}"),
        format!("{QEMU_TIMEOUT} password=secret"),
    ] {
        assert_eq!(classify(line.as_bytes()), None);
    }
}

#[test]
fn logs_beyond_byte_and_line_limits_are_not_classified() {
    assert_eq!(
        classify(format!("{}\n{QEMU_TIMEOUT}", "x".repeat(LOG_BYTES)).as_bytes()),
        None
    );
    assert_eq!(
        classify(format!("{}{QEMU_TIMEOUT}", "unknown\n".repeat(LOG_LINES)).as_bytes()),
        None
    );
    assert_eq!(classify(&[0xff; LOG_BYTES + 1]), None);
}

#[test]
fn diagnostics_contain_only_codes_and_recovery_actions() {
    let attempt = StartupAttempt {
        id: 7,
        started_at: "2026-09-08T00:00:00Z".into(),
        phase: StartupPhase::StartupFailed,
        error_code: Some(BackendErrorCode::QemuBootTimeout),
        container_status: ContainerStatus::Exited,
    };
    let mut checks = vec![EnvironmentDiagnostic {
        id: EnvironmentDiagnosticId::Container,
        status: EnvironmentDiagnosticStatus::Success,
        observed: Some("password=secret /home/private".into()),
        action: None,
        error_code: None,
    }];
    apply(Some(&attempt), &mut checks);
    assert_eq!(checks[0].error_code, Some(EnvironmentDiagnosticErrorCode::QemuBootTimeout));
    assert_eq!(checks[0].action, Some(EnvironmentDiagnosticAction::OpenWinboat));
    assert_eq!(checks[0].status, EnvironmentDiagnosticStatus::Failure);
    assert_eq!(checks[0].observed, None);

    let mut untouched = checks.clone();
    let running = StartupAttempt { phase: StartupPhase::Online, ..attempt };
    apply(Some(&running), &mut untouched);
    assert_eq!(untouched, checks);
}
