use chrono::{TimeZone, Utc};
use mendimaru::studio_ops::{ticks_of, StudioVersion, WindowsStudioSessionReport};
use mendimaru::studio_sessions::{
    normalize_sessions, parse_session_id, safe_project_name, validate_version,
    StudioConnectionState, StudioReconnectUnavailable,
};

fn studio(version: &str) -> StudioVersion {
    StudioVersion {
        version: version.into(),
        display_name: format!("Studio Pro {version}"),
        executable_path: format!(r"C:\Program Files\Mendix\{version}\modeler\studiopro.exe"),
        install_root: format!(r"C:\Program Files\Mendix\{version}"),
        source: "fixture".into(),
        removable: true,
    }
}

fn datetime_ticks(value: chrono::DateTime<Utc>) -> Option<i64> {
    ticks_of(value.timestamp(), value.timestamp_subsec_nanos())
}

#[test]
fn accepts_normal_mendix_versions_and_rejects_commands() {
    assert!(validate_version("11.12.2").is_ok());
    assert!(validate_version("10.24.0.12345").is_ok());
    assert!(validate_version("11.0.0-beta1").is_ok());
    assert!(validate_version("11.12.2; calc.exe").is_err());
}

#[test]
fn validates_pid_and_start_time_as_one_session_identity() {
    let started = Utc.with_ymd_and_hms(2026, 8, 15, 3, 0, 0).single().expect("start time");
    let ticks = datetime_ticks(started).expect("Windows ticks");
    let id = format!("studio-4242-{ticks}");
    assert_eq!(parse_session_id(&id).expect("session ID").process_id, 4242);
    let earlier = Utc.with_ymd_and_hms(2026, 8, 15, 2, 0, 0).single().expect("earlier start time");
    let earlier_ticks = datetime_ticks(earlier).expect("earlier Windows ticks");

    let sessions = normalize_sessions(
        &vec![studio("11.13.0"), studio("10.24.9")],
        vec![
            WindowsStudioSessionReport {
                session_id: format!("studio-3131-{earlier_ticks}"),
                version: "10.24.9".into(),
                process_id: 3131,
                started_at: earlier.to_rfc3339_opts(chrono::SecondsFormat::Nanos, true),
                project_name: None,
                has_window: false,
            },
            WindowsStudioSessionReport {
                session_id: id,
                version: "11.13.0".into(),
                process_id: 4242,
                started_at: started.to_rfc3339_opts(chrono::SecondsFormat::Nanos, true),
                project_name: Some("Orders".into()),
                has_window: true,
            },
        ],
        &vec![],
    )
    .map_err(|failure| failure.message)
    .expect("valid sessions");
    assert_eq!(sessions.len(), 2);
    assert_eq!(sessions[0].version, "11.13.0");
    assert_eq!(sessions[0].project_name.as_deref(), Some("Orders"));
    assert!(sessions[0].reconnectable);
    assert_eq!(sessions[1].version, "10.24.9");
    assert!(!sessions[1].reconnectable);
    assert_eq!(sessions[1].reconnect_unavailable, Some(StudioReconnectUnavailable::WindowUnavailable));
}

#[test]
fn rejects_pid_reuse_unknown_versions_and_path_like_project_names() {
    let started = Utc.with_ymd_and_hms(2026, 8, 15, 3, 0, 0).single().expect("start time");
    let ticks = datetime_ticks(started).expect("Windows ticks");
    let fixture = |session_id: String, version: &str| WindowsStudioSessionReport {
        session_id,
        version: version.into(),
        process_id: 4242,
        started_at: started.to_rfc3339(),
        project_name: None,
        has_window: true,
    };

    assert!(normalize_sessions(&vec![studio("11.13.0")], vec![fixture(format!("studio-4242-{}", ticks + 1), "11.13.0")], &vec![]).is_err());
    assert!(normalize_sessions(&vec![studio("11.13.0")], vec![fixture(format!("studio-4242-{ticks}"), "11.12.2")], &vec![]).is_err());
    assert!(!safe_project_name(r"C:\Users\dev\secret"));
    assert!(safe_project_name("Orders"));
}

#[test]
fn session_lists_refuse_duplicates_and_mark_connected_sessions() {
    let started = Utc.with_ymd_and_hms(2026, 8, 15, 3, 0, 0).single().expect("start time");
    let ticks = datetime_ticks(started).expect("Windows ticks");
    let report = || WindowsStudioSessionReport {
        session_id: format!("studio-4242-{ticks}"),
        version: "11.13.0".into(),
        process_id: 4242,
        started_at: started.to_rfc3339(),
        project_name: Some("  Orders  ".into()),
        has_window: false,
    };
    let duplicate = normalize_sessions(&vec![studio("11.13.0")], vec![report(), report()], &vec![]);
    assert_eq!(duplicate.unwrap_err().message, "Windows returned an invalid Studio Pro session");
    let listed = normalize_sessions(&vec![studio("11.13.0")], vec![report()], &vec![format!("studio-4242-{ticks}")])
        .map_err(|failure| failure.message)
        .unwrap();
    assert_eq!(listed[0].connection, StudioConnectionState::Connected);
    assert_eq!(listed[0].reconnect_unavailable, Some(StudioReconnectUnavailable::AlreadyConnected));
    assert_eq!(listed[0].project_name.as_deref(), Some("Orders"));
    assert_eq!(listed[0].started_at, Some((started.timestamp(), 0)));
    let many: Vec<_> = (0..65).map(|_| report()).collect();
    assert_eq!(
        normalize_sessions(&vec![studio("11.13.0")], many, &vec![]).unwrap_err().message,
        "Windows returned too many Studio Pro sessions"
    );
    assert!(parse_session_id("studio-0-638908128000000000").is_err());
    assert!(parse_session_id("studio-4242-5").is_err());
}
