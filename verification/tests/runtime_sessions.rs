use mendimaru::contracts::{BackendErrorCode, CapabilityId};
use mendimaru::runtime_rules::{
    diagnostic_code, diagnostic_log_message, error_message, loggable, page_log,
    port_conflict_message, record_error, runtime_url, valid_studio_session_id,
    validate_runtime_session_id,
};
use mendimaru::scripts::runtime_port_probe_script;

#[test]
fn validates_only_opaque_runtime_and_exact_studio_process_identities() {
    assert!(validate_runtime_session_id(&format!("runtime_{}", "ab".repeat(16))).is_ok());
    assert!(validate_runtime_session_id("runtime_../compose").is_err());
    assert!(valid_studio_session_id("studio-4242-638908128000000000"));
    assert!(!valid_studio_session_id("studio-0-638908128000000000"));
    assert!(!valid_studio_session_id("studio-4242-1-extra"));
}

#[test]
fn maps_guest_listener_and_firewall_diagnostics_to_distinct_codes() {
    assert_eq!(
        diagnostic_code(Some("MENDIMARU_RUNTIME_NOT_LISTENING")),
        BackendErrorCode::RuntimeNotListening
    );
    assert_eq!(
        diagnostic_code(Some("MENDIMARU_RUNTIME_FIREWALL_BLOCKED")),
        BackendErrorCode::RuntimeFirewallBlocked
    );
    assert_eq!(
        diagnostic_code(Some("MENDIMARU_RUNTIME_LISTENING")),
        BackendErrorCode::RuntimeFirewallBlocked
    );
    assert_eq!(diagnostic_code(None), BackendErrorCode::RuntimeReadinessTimeout);
}

#[test]
fn exposes_only_ipv4_loopback_urls_and_classifies_runtime_port_conflicts() {
    assert_eq!(runtime_url(49152), "http://127.0.0.1:49152");
    assert!(port_conflict_message("Bind for 0.0.0.0 failed: port is already allocated"));
    assert!(port_conflict_message("ADDRESS ALREADY IN USE"));
    assert!(!port_conflict_message("guest server is offline"));
}

#[test]
fn runtime_errors_carry_fixed_messages_and_retry_hints() {
    let error = record_error(
        Some(BackendErrorCode::RuntimeNotListening),
        CapabilityId::RuntimeWait,
        "artifact-1",
    );
    assert!(error.retryable);
    assert_eq!(error.message, "the Mendix Runtime is not listening inside the WinBoat guest");
    assert_eq!(error.diagnostic_ref.as_deref(), Some("artifact-1"));
    let exited = record_error(Some(BackendErrorCode::RuntimeExited), CapabilityId::RuntimeStatus, "a");
    assert!(!exited.retryable);
    let unknown = record_error(None, CapabilityId::RuntimeStatus, "a");
    assert_eq!(unknown.code, BackendErrorCode::OperationFailed);
    assert_eq!(
        error_message(BackendErrorCode::GuestStartupTimeout),
        "the WinBoat Runtime operation could not be completed"
    );
    assert_eq!(
        diagnostic_log_message(BackendErrorCode::RuntimeGuestOffline),
        "Runtime wait failed: WinBoat guest offline."
    );
}

#[test]
fn log_lines_are_single_and_bounded() {
    assert!(loggable("Runtime started."));
    assert!(!loggable("two\nlines"));
    assert!(!loggable(&"x".repeat(513)));
}

#[test]
fn log_pages_follow_the_cursor() {
    let content: String = (0..1500).map(|i| format!("line {i}\n")).collect();
    let first = page_log(content.as_bytes(), None).expect("first page");
    assert_eq!(first.entries.len(), 1000);
    assert_eq!(first.next_cursor, Some(1000));
    assert!(first.truncated);
    let second = page_log(content.as_bytes(), Some("1000")).expect("second page");
    assert_eq!(second.entries.len(), 500);
    assert_eq!(second.entries[0], "line 1000");
    assert_eq!(second.next_cursor, None);
    assert!(page_log(content.as_bytes(), Some("1501")).is_none());
    assert!(page_log(content.as_bytes(), Some("x")).is_none());
}

#[test]
fn runtime_probe_uses_a_numeric_port_and_authenticated_closed_report() {
    let script = runtime_port_probe_script(8080, r"\\host.lan\Data\probe.json", "");
    assert!(script.contains("$guestPort = [int]8080"));
    assert!(script.contains("Get-NetTCPConnection"));
    assert!(script.contains("Get-NetFirewallRule"));
    assert!(script.contains("MENDIMARU_RUNTIME_NOT_LISTENING"));
    assert!(script.contains("MENDIMARU_RUNTIME_FIREWALL_BLOCKED"));
    assert!(script.contains("Write-MendimaruReport"));
    assert!(!script.contains("__"));
    assert!(script.contains(r"$resultPath = '\\host.lan\Data\probe.json'"));
}
