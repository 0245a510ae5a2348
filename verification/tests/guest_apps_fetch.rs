use mendimaru::guest_apps::{
    apps_query, apps_request_mode, apps_status, bearer_authorization, check_token_file,
    path_prefix, AppsRequestMode, BoundedBody, GuestAppsError, GuestHealth, TokenFileFacts,
    MAX_PROJECTED_APPS_RESPONSE_BYTES,
};

fn health(authentication: Option<&str>, capabilities: &[&str]) -> GuestHealth {
    GuestHealth {
        status: "ok".into(),
        capabilities: capabilities.iter().map(|c| c.to_string()).collect(),
        authentication: authentication.map(String::from),
    }
}

#[test]
fn uses_the_projected_query_only_when_the_capability_is_advertised() {
    assert_eq!(
        apps_request_mode(&health(Some("bearer"), &["apps-query-v1"]), true),
        Ok(AppsRequestMode::Projected)
    );
    assert_eq!(apps_request_mode(&health(None, &[]), false), Ok(AppsRequestMode::Legacy));
    assert_eq!(
        apps_request_mode(&health(None, &["other", "apps-query-v1"]), false),
        Ok(AppsRequestMode::Projected)
    );
}

#[test]
fn stops_before_apps_when_bearer_authentication_has_no_token() {
    assert_eq!(
        apps_request_mode(&health(Some("bearer"), &["apps-query-v1"]), false),
        Err(GuestAppsError::AuthRequired)
    );
    assert_eq!(
        apps_request_mode(&health(Some("basic"), &[]), true),
        Err(GuestAppsError::UnsupportedAuthentication)
    );
    assert_eq!(GuestAppsError::AuthRequired.message_key(), "error-guest-auth-required");
}

#[test]
fn builds_the_projected_query_under_the_install_root() {
    assert_eq!(path_prefix("C:/Program Files/Mendix\\\\"), "C:\\Program Files\\Mendix\\");
    let query = apps_query(AppsRequestMode::Projected, r"C:\Program Files\Mendix");
    let expected: Vec<(String, String)> = vec![
        ("includeIcons".into(), "false".into()),
        ("pathPrefix".into(), r"C:\Program Files\Mendix\".into()),
        ("pathSuffix".into(), r"\modeler\studiopro.exe".into()),
        ("fields".into(), "Name,Path,Source".into()),
        ("limit".into(), "128".into()),
    ];
    assert_eq!(query, expected);
    assert!(apps_query(AppsRequestMode::Legacy, r"C:\Program Files\Mendix").is_empty());
}

#[test]
fn fails_closed_on_rejected_or_failed_responses() {
    assert_eq!(apps_status(401), Err(GuestAppsError::AuthRequired));
    assert_eq!(apps_status(403), Err(GuestAppsError::AuthRequired));
    assert_eq!(apps_status(500), Err(GuestAppsError::ResponseStatus(500)));
    assert_eq!(apps_status(404), Err(GuestAppsError::ResponseStatus(404)));
    assert_eq!(apps_status(200), Ok(()));
    assert_eq!(apps_status(304), Ok(()));
}

#[test]
fn rejects_oversized_responses_before_and_while_reading() {
    let limit = MAX_PROJECTED_APPS_RESPONSE_BYTES;
    assert!(matches!(
        BoundedBody::new(limit, Some(limit as u64 + 1)),
        Err(GuestAppsError::Oversized)
    ));
    let mut body = BoundedBody::new(4, None).unwrap();
    assert_eq!(body.push(b"ab"), Ok(()));
    assert_eq!(body.push(b"cd"), Ok(()));
    assert_eq!(body.push(b"e"), Err(GuestAppsError::Oversized));
    assert_eq!(body.into_bytes(), b"abcd".to_vec());
}

#[test]
fn accepts_only_private_regular_token_files() {
    let usable = TokenFileFacts { is_file: true, length: 24, owned_by_caller: true, mode: 0o600 };
    assert_eq!(check_token_file(usable), Ok(()));
    assert!(check_token_file(TokenFileFacts { mode: 0o666, ..usable }).is_err());
    assert!(check_token_file(TokenFileFacts { mode: 0o620, ..usable }).is_err());
    assert!(check_token_file(TokenFileFacts { is_file: false, ..usable }).is_err());
    assert!(check_token_file(TokenFileFacts { length: 0, ..usable }).is_err());
    assert!(check_token_file(TokenFileFacts { length: 4097, ..usable }).is_err());
    assert!(check_token_file(TokenFileFacts { owned_by_caller: false, ..usable }).is_err());
}

#[test]
fn builds_the_bearer_authorization_from_a_trimmed_token() {
    assert_eq!(
        bearer_authorization(b"  fixture-token-1234567890\n"),
        Ok("Bearer fixture-token-1234567890".to_string())
    );
    assert_eq!(bearer_authorization(b"short"), Err(GuestAppsError::AuthToken));
    assert_eq!(bearer_authorization(b"fixture token 1234567890"), Err(GuestAppsError::AuthToken));
    assert_eq!(bearer_authorization(&[0xff; 20]), Err(GuestAppsError::AuthToken));
    assert_eq!(bearer_authorization(&[b'a'; 513]), Err(GuestAppsError::AuthToken));
    assert!(bearer_authorization(&[b'a'; 512]).is_ok());
}
