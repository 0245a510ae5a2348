use base64::Engine as _;
use mendimaru::security::{
    authenticate_envelope, authenticated_envelope, check_report_size, hex_decode, hex_encode,
    secure_powershell_launcher, OperationSecurity, ReportAuthenticationError,
    ReportSequenceTracker, MAX_REPORT_BYTES,
};

const PAYLOAD: &[u8] = br#"{"state":"succeeded","message":"ok","percentage":null,"estimated":false,"timestamp":"2026-08-14T00:00:00Z","exitCode":0,"executablePath":null,"error":null}"#;

#[test]
fn accepts_an_authenticated_operation_report() {
    let security = OperationSecurity::fixture();
    let envelope = authenticated_envelope(&security, 7, PAYLOAD).expect("fixture envelope");
    let authenticated = authenticate_envelope(&envelope, &security).expect("fixture report authenticates");
    assert_eq!(authenticated.sequence, 7);
    assert_eq!(authenticated.payload, PAYLOAD);
}

#[test]
fn rejects_payload_mac_identity_nonce_and_schema_tampering() {
    let security = OperationSecurity::fixture();
    let envelope = authenticated_envelope(&security, 1, PAYLOAD).expect("fixture envelope");

    let mut tampered = envelope.clone();
    tampered.request_id = "11112233445566778899aabbccddeeff".into();
    assert_eq!(
        authenticate_envelope(&tampered, &security),
        Err(ReportAuthenticationError::RequestMismatch)
    );
    let mut tampered = envelope.clone();
    tampered.nonce = "11112233445566778899aabbccddeeff".into();
    assert_eq!(
        authenticate_envelope(&tampered, &security),
        Err(ReportAuthenticationError::NonceMismatch)
    );
    let mut tampered = envelope.clone();
    tampered.schema_version = 99;
    assert_eq!(
        authenticate_envelope(&tampered, &security),
        Err(ReportAuthenticationError::UnsupportedSchema(99))
    );
    let mut tampered = envelope.clone();
    tampered.payload = base64::engine::general_purpose::STANDARD.encode(b"changed");
    assert_eq!(
        authenticate_envelope(&tampered, &security),
        Err(ReportAuthenticationError::InvalidMac)
    );
}

#[test]
fn rejects_zero_sequence_bad_mac_invalid_base64_and_oversized_reports() {
    let security = OperationSecurity::fixture();
    let mut envelope = authenticated_envelope(&security, 1, PAYLOAD).expect("fixture envelope");
    envelope.sequence = 0;
    assert_eq!(
        authenticate_envelope(&envelope, &security),
        Err(ReportAuthenticationError::InvalidSequence)
    );
    envelope.sequence = 1;
    envelope.mac = "00".repeat(32);
    assert_eq!(
        authenticate_envelope(&envelope, &security),
        Err(ReportAuthenticationError::InvalidMac)
    );
    envelope.payload = "%%%invalid%%%".into();
    assert!(matches!(
        authenticate_envelope(&envelope, &security),
        Err(ReportAuthenticationError::InvalidPayload(_))
    ));
    assert_eq!(
        check_report_size(MAX_REPORT_BYTES as usize + 1, MAX_REPORT_BYTES),
        Err(ReportAuthenticationError::Oversized)
    );
    assert_eq!(check_report_size(MAX_REPORT_BYTES as usize, MAX_REPORT_BYTES), Ok(()));
}

#[test]
fn secure_launcher_hash_pins_a_private_guest_copy_without_sharing_the_key() {
    let security = OperationSecurity::fixture();
    let launcher = secure_powershell_launcher(
        r"\\host.lan\Data\.mendimaru\commands\operation.ps1",
        &security,
    );
    assert!(launcher.contains("Get-FileHash"));
    assert!(launcher.contains("MENDIMARU_COMMAND_HASH_MISMATCH"));
    assert!(launcher.contains("Mendimaru\\Commands"));
    assert!(launcher.contains("MENDIMARU_OPERATION_KEY"));
    assert!(launcher.contains("ReparsePoint"));
    assert!(!launcher.contains("ExecutionPolicy Bypass"));
    assert!(!launcher.contains("& '\\\\host.lan\\Data"));
    assert!(launcher.contains("$source='\\\\host.lan\\Data\\.mendimaru\\commands\\operation.ps1'"));
    assert!(launcher.contains(&format!("$expected='{}'", "ab".repeat(32))));
}

#[test]
fn launcher_quotes_single_quotes_in_the_script_path() {
    let security = OperationSecurity::fixture();
    let launcher = secure_powershell_launcher(r"C:\it's\run.ps1", &security);
    assert!(launcher.contains(r"$source='C:\it''s\run.ps1'"));
}

#[test]
fn rejects_stale_replay_and_sequence_reuse_but_allows_unchanged_polling() {
    let security = OperationSecurity::fixture();
    let report = |sequence: u64, payload: &[u8]| {
        let envelope = authenticated_envelope(&security, sequence, payload).unwrap();
        authenticate_envelope(&envelope, &security).expect("valid MAC")
    };
    let first = report(4, PAYLOAD);
    let stale = report(3, PAYLOAD);
    let reused = report(4, b"different");
    let next = report(5, PAYLOAD);

    let mut tracker = ReportSequenceTracker::new();
    assert_eq!(tracker.accept(&first), Ok(true));
    assert_eq!(tracker.accept(&first), Ok(false));
    assert_eq!(tracker.accept(&stale), Err(ReportAuthenticationError::Replay));
    assert_eq!(
        tracker.accept(&reused),
        Err(ReportAuthenticationError::SequenceReuse)
    );
    assert_eq!(tracker.accept(&next), Ok(true));
    let mut resumed = ReportSequenceTracker::after(&next);
    assert_eq!(resumed.accept(&next), Ok(false));
}

#[test]
fn envelopes_refuse_zero_sequences_and_oversized_payloads() {
    let security = OperationSecurity::fixture();
    assert!(authenticated_envelope(&security, 0, PAYLOAD).is_err());
    assert!(authenticated_envelope(&security, 1, &vec![0u8; 96 * 1024 + 1]).is_err());
    assert!(authenticated_envelope(&security, 1, &vec![0u8; 96 * 1024]).is_ok());
}

#[test]
fn hex_round_trips_and_rejects_odd_or_invalid_text() {
    let bytes = [0x00u8, 0x0f, 0xa0, 0xff];
    let text: String = hex_encode(&bytes).into_iter().collect();
    assert_eq!(text, "000fa0ff");
    let chars: Vec<char> = text.chars().collect();
    assert_eq!(hex_decode(&chars), Some(bytes.to_vec()));
    let upper: Vec<char> = "0FA0".chars().collect();
    assert_eq!(hex_decode(&upper), Some(vec![0x0f, 0xa0]));
    let odd: Vec<char> = "abc".chars().collect();
    assert_eq!(hex_decode(&odd), None);
    let invalid: Vec<char> = "zz".chars().collect();
    assert_eq!(hex_decode(&invalid), None);
}

#[test]
fn generated_secrets_are_lower_hex_and_the_script_digest_is_checked() {
    assert!(OperationSecurity::generate("not-a-digest").is_err());
    let security = OperationSecurity::generate(&"cd".repeat(32)).expect("secrets");
    assert_eq!(security.request_id().len(), 32);
    assert_eq!(security.nonce().len(), 32);
    assert!(security.request_id().chars().all(|c| c.is_ascii_hexdigit() && !c.is_ascii_uppercase()));
    assert_eq!(security.script_sha256(), "cd".repeat(32));
    assert_eq!(security.key_base64().len(), 44);
}

#[test]
fn error_messages_name_the_failure() {
    assert_eq!(
        ReportAuthenticationError::UnsupportedSchema(7).message(),
        "unsupported report schema version 7"
    );
    assert_eq!(
        ReportAuthenticationError::Replay.message(),
        "a stale or replayed report sequence was detected"
    );
}
