use base64::Engine as _;
use mendimaru::guest_apps::{
    validate_apps, AppListError, AppsRequestMode, GuestHealth, WinApp, MAX_PROJECTED_APPS,
};
use mendimaru::project_access::{
    drive_argument, drive_share, validate_host_root_argument, validate_share_name,
};
use mendimaru::remote_app::{
    certificate_failed, css_slug, encode_powershell_script, fingerprint_policy_from_pem,
    fits_rail_arguments, freerdp_arguments, freerdp_payload, headless_powershell_arguments,
    parse_credentials, powershell_encoded_arguments, CredentialError,
};
use mendimaru::windows_reason::{localize_windows_reason, operation_state_key, WindowsOperationState};

#[test]
fn bounds_app_counts_and_fields() {
    let app = WinApp {
        name: "Studio Pro".into(),
        path: r"C:\Program Files\Mendix\11.12.2\modeler\StudioPro.exe".into(),
        source: "fixture".into(),
    };
    assert!(validate_apps(&vec![app.clone(); MAX_PROJECTED_APPS], MAX_PROJECTED_APPS).is_ok());
    assert_eq!(
        validate_apps(&vec![app.clone(); MAX_PROJECTED_APPS + 1], MAX_PROJECTED_APPS),
        Err(AppListError::TooManyApps)
    );
    let mut invalid = app;
    invalid.path.push('\n');
    assert_eq!(validate_apps(&[invalid], MAX_PROJECTED_APPS), Err(AppListError::InvalidField));
}

#[test]
fn health_answers_are_bounded_and_name_the_projected_query() {
    let health = GuestHealth {
        status: "ok".into(),
        capabilities: vec!["apps-query-v1".into()],
        authentication: Some("bearer".into()),
    };
    assert!(health.validate().is_ok());
    assert!(health.supports_projected_apps());
    let mut down = health.clone();
    down.status = "degraded".into();
    assert!(down.validate().is_err());
    let mut noisy = health.clone();
    noisy.capabilities = vec!["x".into(); 65];
    assert!(noisy.validate().is_err());
    let mut empty = health;
    empty.authentication = Some(String::new());
    assert!(empty.validate().is_err());
    assert_eq!(AppsRequestMode::Projected.app_limit(), 128);
    assert_eq!(AppsRequestMode::Legacy.response_limit(), 8 * 1024 * 1024);
}

#[test]
fn drive_argument_rejects_every_stdin_or_freerdp_delimiter() {
    for value in [
        "/tmp/project,other",
        "/tmp/project\\alias",
        "/tmp/project\"quoted",
        "/tmp/project\noption",
        "/tmp/project\roption",
        "",
    ] {
        assert!(
            validate_host_root_argument(value).is_err(),
            "unsafe root was accepted: {value:?}"
        );
    }
    validate_host_root_argument("/tmp/한국어 project 'quoted'").expect("safe UTF-8 root");
}

#[test]
fn drive_arguments_and_guest_paths_are_built_from_the_digest() {
    let digest = "0123456789abcdef".repeat(4);
    let (share, path) = drive_share(&digest, "Orders.mpr").expect("share");
    assert_eq!(share, "mpr-0123456789abcdef");
    assert_eq!(path, r"\\tsclient\mpr-0123456789abcdef\Orders.mpr");
    assert!(drive_share(&digest, "Ord:ers.mpr").is_none());
    assert!(drive_share(&"0123456789ABCDEF".repeat(4), "Orders.mpr").is_none());
    assert_eq!(
        drive_argument(&share, "/tmp/한국어 project 'quoted'").unwrap(),
        "/drive:mpr-0123456789abcdef,/tmp/한국어 project 'quoted'"
    );
    assert!(validate_share_name("MPR").is_err());
    assert!(drive_argument("mpr-x", "/tmp/a,b").is_err());
}

#[test]
fn encodes_powershell_as_utf16le_without_remote_app_quotes() {
    let script = "Write-Output 'hello'";
    let decoded = base64::engine::general_purpose::STANDARD
        .decode(encode_powershell_script(script))
        .expect("valid base64");
    let utf16: Vec<u16> = decoded
        .chunks_exact(2)
        .map(|bytes| u16::from_le_bytes([bytes[0], bytes[1]]))
        .collect();
    assert_eq!(String::from_utf16(&utf16).expect("valid UTF-16"), script);
    assert_eq!(encode_powershell_script("A"), "QQA=");
}

#[test]
fn powershell_file_launcher_stays_below_freerdp_rail_argument_limit() {
    let launcher = r"& '\\host.lan\Data\.mendimaru\commands\launch-11.12.2.ps1'";
    let encoded = encode_powershell_script(launcher);
    let arguments = powershell_encoded_arguments(&encoded);
    assert!(fits_rail_arguments(&arguments));
    assert!(arguments.contains("-EncodedCommand"));
    assert!(arguments.contains("-WindowStyle Hidden"));
    assert!(!arguments.contains("MainWindowHandle"));
    assert!(!fits_rail_arguments(&"x".repeat(8000)));
    assert!(headless_powershell_arguments("QQA=").starts_with("--headless C:\\Windows\\System32\\WindowsPowerShell"));
}

#[test]
fn converts_the_app_pin_to_an_exact_sha256_fingerprint_policy() {
    let policy = fingerprint_policy_from_pem(
        b"-----BEGIN CERTIFICATE-----\nbWVuZGltYXJ1\n-----END CERTIFICATE-----\n",
    )
    .expect("fixture pin parses");
    assert_eq!(
        policy,
        "/cert:fingerprint:sha256:8edde51f9bc00d3fff19237df43bc1c6d058839aa1469b3fbd0c5479c929825d"
    );
    assert!(fingerprint_policy_from_pem(b"no certificate here").is_err());
    assert!(fingerprint_policy_from_pem(&[0xff, 0xfe]).is_err());
}

#[test]
fn freerdp_receives_credentials_only_on_stdin_lines() {
    let arguments = freerdp_arguments(
        "User", "p@ss", "127.0.0.1", 47300, "/cert:tofu",
        r"C:\Windows\System32\conhost.exe", Some("--headless x"), "Install, 'Studio' Pro",
    );
    assert_eq!(arguments.len(), 16);
    assert_eq!(arguments[1], "/p:p@ss");
    assert_eq!(arguments[3], "/port:47300");
    assert_eq!(arguments[14], "/wm-class:mendimaru-install-studio-pro");
    assert_eq!(
        arguments[15],
        r"/app:program:C:\Windows\System32\conhost.exe,name:Install Studio Pro,cmd:--headless x"
    );
    let payload = freerdp_payload(&arguments);
    assert!(payload.ends_with(",cmd:--headless x\n"));
    assert_eq!(payload.lines().count(), 16);
    assert_eq!(css_slug(&"--A b--".chars().collect::<Vec<_>>()).into_iter().collect::<String>(), "a-b");
}

#[test]
fn guest_credentials_and_certificate_failures_are_read_from_output() {
    let (user, pass) = parse_credentials(b"PATH=/bin\nUSERNAME=Dev\nPASSWORD=secret\n").unwrap();
    assert_eq!((user.as_str(), pass.as_str()), ("Dev", "secret"));
    assert_eq!(parse_credentials(b"USERNAME=\nPASSWORD=x\n"), Err(CredentialError::UsernameMissing));
    assert_eq!(parse_credentials(b"USERNAME=a\n"), Err(CredentialError::PasswordMissing));
    assert!(certificate_failed(b"ERROR: CERTIFICATE verify failed"));
    assert!(!certificate_failed(b"certificate accepted"));
}

#[test]
fn converts_script_error_codes_to_current_language() {
    let localized = localize_windows_reason(r"MENDIMARU_INSTALLER_NOT_FOUND:C:\Missing\StudioPro.exe")
        .expect("known reason");
    let (name, value) = localized.argument.clone().expect("path argument");
    assert_eq!(name, "path");
    assert!(value.contains(r"C:\Missing\StudioPro.exe"));
    assert!(!localized.key.contains("MENDIMARU_INSTALLER_NOT_FOUND"));
    assert_eq!(localized.key, "error-script-installer-not-found");

    let localized = localize_windows_reason("MENDIMARU_ADMIN_REQUIRED").expect("known reason");
    assert!(!localized.key.contains("MENDIMARU_ADMIN_REQUIRED"));
    assert_eq!(localized.key, "error-script-admin-required");

    let code = localize_windows_reason("MENDIMARU_INSTALLER_EXIT_CODE:1603").expect("exit code");
    assert_eq!(code.number, Some(1603));
    assert!(localize_windows_reason("something else").is_none());
    assert_eq!(
        localize_windows_reason("MENDIMARU_STUDIO_WINDOW_TIMEOUT").unwrap().number,
        Some(4)
    );
    assert_eq!(operation_state_key(WindowsOperationState::Failed), Some("operation-state-failed"));
    assert_eq!(operation_state_key(WindowsOperationState::Staging), None);
    assert_eq!(WindowsOperationState::from_report("verifying"), WindowsOperationState::Verifying);
    assert_eq!(WindowsOperationState::from_report("other"), WindowsOperationState::Unknown);
}
