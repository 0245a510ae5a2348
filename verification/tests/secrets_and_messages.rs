use mendimaru::contracts::{identifier_from, secure_identifier};
use mendimaru::security::{OperationSecurity, ReportAuthenticationError};

const DIGEST: &str = "0123456789abcdef0123456789abcdef0123456789abcdef0123456789abcdef";

#[test]
fn secrets_are_the_given_bytes_in_lower_case_hex() {
    let mut request_id = [0_u8; 16];
    request_id[0] = 0xab;
    request_id[15] = 0x01;
    let nonce = [0xff_u8; 16];
    let security = OperationSecurity::from_secrets(DIGEST, request_id, nonce, [7_u8; 32])
        .expect("valid digest");
    assert_eq!(security.request_id(), "ab000000000000000000000000000001");
    assert_eq!(security.nonce(), "ffffffffffffffffffffffffffffffff");
    assert_eq!(security.script_sha256(), DIGEST);
}

#[test]
fn secrets_refuse_a_digest_that_is_not_lower_case_hex() {
    let upper = DIGEST.to_uppercase();
    for digest in [upper.as_str(), "abc", ""] {
        let refused = OperationSecurity::from_secrets(digest, [0; 16], [0; 16], [0; 32]);
        assert_eq!(refused.err().as_deref(), Some("the prepared script SHA-256 is invalid"));
        let refused = OperationSecurity::generate(digest);
        assert_eq!(refused.err().as_deref(), Some("the prepared script SHA-256 is invalid"));
    }
}

#[test]
fn generated_secrets_are_fresh_and_well_formed() {
    let first = OperationSecurity::generate(DIGEST).expect("random source");
    let second = OperationSecurity::generate(DIGEST).expect("random source");
    assert_eq!(first.request_id().len(), 32);
    assert!(first.request_id().chars().all(|c| c.is_ascii_hexdigit() && !c.is_ascii_uppercase()));
    assert_ne!(first.request_id(), second.request_id());
    assert_ne!(first.nonce(), second.nonce());
}

#[test]
fn identifiers_are_the_prefix_and_the_bytes_in_hex() {
    let mut bytes = [0_u8; 16];
    bytes[1] = 0x5a;
    assert_eq!(identifier_from("job", bytes), "job_005a0000000000000000000000000000");
    let id = secure_identifier("session").expect("random source");
    assert!(id.starts_with("session_"));
    assert_eq!(id.len(), "session_".len() + 32);
}

#[test]
fn report_errors_have_their_messages() {
    assert_eq!(
        ReportAuthenticationError::UnsupportedSchema(42).message(),
        "unsupported report schema version 42"
    );
    assert_eq!(
        ReportAuthenticationError::InvalidEnvelope("bad".to_string()).message(),
        "invalid report envelope: bad"
    );
    assert_eq!(ReportAuthenticationError::Replay.message(), "a stale or replayed report sequence was detected");
}
