use mendimaru::contracts::{compatible_record_schema, BackendErrorCode, UiActionKind};
use mendimaru::ui_automation::{error, safe_diagnostic, safe_reason, Operation, Request, Selector};

const SESSION: &str = "studio-4242-639250850131064367";

#[test]
fn bounded_requests_reject_ambiguous_or_executable_payloads() {
    for operation in [
        Operation::Capabilities,
        Operation::Tree,
        Operation::Screenshot,
        Operation::Release,
    ] {
        let request = Request::new(SESSION, operation);
        request.validate_fields().unwrap();
        let mut bad = request.clone();
        bad.value = Some("secret".into());
        assert!(bad.validate_fields().is_err());
        for timeout in [0, 99, 60001, u64::MAX] {
            bad = request.clone();
            bad.timeout_ms = timeout;
            assert!(bad.validate_fields().is_err());
        }
    }
    for session in [
        "studio-0-639250850131064367",
        "studio-42-0",
        "studio-1-639250850131064367-extra",
        "studio-x-639250850131064367",
    ] {
        assert!(Request::new(session, Operation::Tree).validate_fields().is_err());
    }
    let mut request = Request::new(SESSION, Operation::Find);
    assert!(request.validate_fields().is_err());
    request.selector = Some(Selector {
        name: Some("Name".into()),
        ..Default::default()
    });
    request.validate_fields().unwrap();
    request.selector.as_mut().unwrap().name = Some("x".repeat(257));
    assert!(request.validate_fields().is_err());
}

#[test]
fn writes_require_ids_and_supported_keys_and_capture_bounds_do_not_wrap() {
    let mut r = Request::new(SESSION, Operation::Action);
    r.element_id = Some(format!("{}:1.2.3", "a".repeat(32)));
    r.action = Some(UiActionKind::KeyboardInput);
    r.value = Some("F5".into());
    r.validate_fields().unwrap();
    r.value = Some("%{F4}".into());
    assert!(r.validate_fields().is_err());
    r.action = Some(UiActionKind::SetValue);
    r.value = Some("line\nbreak".into());
    assert!(r.validate_fields().is_err());
    r = Request::new(SESSION, Operation::Screenshot);
    r.region = Some([0, 0, 4096, 4096]);
    r.validate_fields().unwrap();
    for region in [[u32::MAX, 0, 1, 1], [0, 0, 0, 1], [4096, 0, 1, 1]] {
        r.region = Some(region);
        assert!(r.validate_fields().is_err());
    }
}

#[test]
fn waits_never_guess_unknown_states_and_errors_do_not_echo_values() {
    let mut r = Request::new(SESSION, Operation::Wait);
    assert!(r.validate_fields().is_err());
    r.condition = Some("project-ready".into());
    r.validate_fields().unwrap();
    r.selector = Some(Selector {
        role: Some("Button".into()),
        ..Default::default()
    });
    assert!(r.validate_fields().is_err());
    assert_eq!(
        error(Operation::Tree, "ui-secret-credential").message,
        "ui-provider-failed"
    );
    assert_eq!(
        error(Operation::Action, "ui-unsupported-element").code,
        BackendErrorCode::UnsupportedCapability
    );
    assert_eq!(
        error(Operation::Wait, "ui-helper-timeout").code,
        BackendErrorCode::ExternalProcessTimeout
    );
}

#[test]
fn v5_preserves_v4_record_read_compatibility_and_rejects_older_shapes() {
    for v in ["4.0.0", "5.0.0"] {
        assert!(compatible_record_schema(v));
    }
    for v in ["3.0.0", "6.0.0", "5.1.0"] {
        assert!(!compatible_record_schema(v));
    }
}

#[test]
fn encoded_request_size_is_bounded() {
    let request = Request::new(SESSION, Operation::Tree);
    request.validate(8192).unwrap();
    let refused = request.validate(8193).unwrap_err();
    assert_eq!(refused.code, BackendErrorCode::InvalidRequest);
    assert_eq!(refused.message, "invalid bounded UI request");
}

#[test]
fn operation_names_follow_their_capabilities() {
    assert_eq!(Operation::Tree.name(), "ui.tree");
    assert_eq!(Operation::Release.name(), "ui.release");
    assert_eq!(Operation::Reconnect.name(), "ui.reconnect");
    assert_eq!(Operation::Screenshot.name(), "ui.screenshot");
    assert_eq!(Operation::Release.capability().as_str(), "ui.capabilities");
}

#[test]
fn new_requests_carry_only_the_session_and_the_default_timeout() {
    let request = Request::new(SESSION, Operation::Capabilities);
    assert_eq!(request.session_id, SESSION);
    assert_eq!(request.timeout_ms, 15000);
    assert!(request.selector.is_none() && request.value.is_none() && request.region.is_none());
}

#[test]
fn element_ids_and_session_ids_have_exact_shapes() {
    let mut r = Request::new(SESSION, Operation::Action);
    r.action = Some(UiActionKind::Invoke);
    r.element_id = Some("a".repeat(33));
    assert!(r.validate_fields().is_err());
    r.element_id = Some("a".repeat(34));
    r.validate_fields().unwrap();
    r.element_id = Some(format!("{}/", "a".repeat(40)));
    assert!(r.validate_fields().is_err());
    assert!(Request::new("studio-4242-621355968000000000", Operation::Tree)
        .validate_fields()
        .is_err());
    assert!(Request::new("studio-4242-621355968000000001", Operation::Tree)
        .validate_fields()
        .is_ok());
}

#[test]
fn only_fixed_reasons_and_diagnostics_cross_the_boundary() {
    assert_eq!(safe_reason("ui-cancelled"), Some("ui-cancelled"));
    assert_eq!(safe_reason("ui-cancelled "), None);
    assert!(safe_diagnostic("uia:System.TimeoutException:-2147467259"));
    assert!(safe_diagnostic("uia:System.TimeoutException:0"));
    assert!(!safe_diagnostic("uia:System.TimeoutException:+1"));
    assert!(!safe_diagnostic("uia:System.TimeoutException:01"));
    assert!(!safe_diagnostic("uia:System.IO.IOException:1"));
    assert!(!safe_diagnostic("System.TimeoutException:1"));
    let cancelled = error(Operation::Tree, "ui-cancelled");
    assert_eq!(cancelled.code, BackendErrorCode::ExternalProcessCancelled);
    assert!(!cancelled.retryable);
    assert_eq!(
        error(Operation::Tree, "ui-invalid-request").code,
        BackendErrorCode::InvalidRequest
    );
}
