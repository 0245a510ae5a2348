use base64::Engine as _;
use mendimaru::security::{authenticated_envelope, OperationSecurity, ReportEnvelope};
use mendimaru::ui_automation::Operation;
use mendimaru::ui_bridge::{
    authenticate_response, finished_by_failure, response_verdict, screenshot_bytes,
    ResponseFields,
};
use serde_json::Value;

fn fields_of(payload: &[u8]) -> Option<ResponseFields> {
    let value: Value = serde_json::from_slice(payload).ok()?;
    Some(ResponseFields {
        id: value["id"].as_str().map(String::from),
        ok: value["ok"] == true,
        reason: value["reason"].as_str().map(String::from),
    })
}

fn decode(
    envelope: ReportEnvelope,
    security: &OperationSecurity,
    id: &str,
    operation: Operation,
) -> Result<bool, mendimaru::contracts::BackendError> {
    let authenticated = authenticate_response(512, Some(envelope), security, operation)?;
    response_verdict(fields_of(&authenticated.payload), id, operation)
}

#[test]
fn authenticates_responses_without_accepting_stale_or_tampered_results() {
    let security = OperationSecurity::fixture();
    let payload = br#"{"id":"ui_expected","ok":true,"data":{"sessionId":"selected"}}"#;
    let envelope = authenticated_envelope(&security, 1, payload).unwrap();
    assert_eq!(decode(envelope.clone(), &security, "ui_other", Operation::Tree), Ok(false));
    let authenticated =
        authenticate_response(512, Some(envelope.clone()), &security, Operation::Tree).unwrap();
    assert_eq!(
        response_verdict(fields_of(&authenticated.payload), "ui_expected", Operation::Tree),
        Ok(true)
    );
    let value: Value = serde_json::from_slice(&authenticated.payload).unwrap();
    assert_eq!(value["data"]["sessionId"], "selected");

    let mut tampered = envelope;
    tampered.mac = "0".repeat(64);
    assert_eq!(
        decode(tampered, &security, "ui_expected", Operation::Tree)
            .unwrap_err()
            .message,
        "ui-bridge-untrusted"
    );
    let failure = authenticated_envelope(
        &security,
        2,
        br#"{"id":"ui_expected","ok":false,"reason":"private-secret"}"#,
    )
    .unwrap();
    assert_eq!(
        decode(failure, &security, "ui_expected", Operation::Tree)
            .unwrap_err()
            .message,
        "ui-provider-failed"
    );
}

#[test]
fn refuses_oversized_missing_and_unparsable_replies() {
    let security = OperationSecurity::fixture();
    let envelope = authenticated_envelope(&security, 1, br#"{"id":"a","ok":true}"#).unwrap();
    let err = authenticate_response(16 * 1024 * 1024 + 1, Some(envelope), &security, Operation::Find)
        .unwrap_err();
    assert_eq!(err.message, "ui-bridge-untrusted");
    assert!(authenticate_response(10, None, &security, Operation::Find).is_err());
    let verdict = response_verdict(fields_of(b"not json"), "a", Operation::Find);
    assert_eq!(verdict.unwrap_err().message, "ui-bridge-untrusted");
}

#[test]
fn a_known_failure_reason_is_kept_and_finishes_the_request() {
    let fields = ResponseFields {
        id: Some("ui_x".into()),
        ok: false,
        reason: Some("ui-element-not-found".into()),
    };
    let err = response_verdict(Some(fields), "ui_x", Operation::Action).unwrap_err();
    assert!(finished_by_failure(&err));
    let untrusted = response_verdict(None, "ui_x", Operation::Action).unwrap_err();
    assert!(!finished_by_failure(&untrusted));
}

#[test]
fn screenshots_must_be_png_within_the_limit() {
    let engine = base64::engine::general_purpose::STANDARD;
    let mut png = b"\x89PNG\r\n\x1a\n".to_vec();
    png.extend_from_slice(b"pixels");
    let encoded = engine.encode(&png);
    assert_eq!(screenshot_bytes(Some(&encoded)).unwrap(), png);
    let not_png = engine.encode(b"GIF89a-not-a-png");
    assert_eq!(
        screenshot_bytes(Some(&not_png)).unwrap_err().message,
        "ui-capture-failed"
    );
    assert!(screenshot_bytes(Some("***")).is_err());
    assert!(screenshot_bytes(None).is_err());
}
