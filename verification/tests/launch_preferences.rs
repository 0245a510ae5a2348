use mendimaru::project_launches::{
    apply_preferences, check_store_file, normalize_selected_version, project_digest,
    remember_record, validate_store, LaunchRecord, LaunchStore, MAX_RECORDS,
};
use mendimaru::projects::{MendixProject, ProjectLocation};

fn project(mpr: &str) -> MendixProject {
    MendixProject {
        name: "Orders".into(),
        directory: "/workspace/Orders".into(),
        mpr_path: mpr.into(),
        windows_path: r"\\host.lan\Data\Orders\Orders.mpr".into(),
        location: ProjectLocation::ConfiguredWorkspace,
        version: None,
        preferred_version: None,
        launch_pending: false,
        favorite: false,
        last_launched_at: None,
        last_modified: None,
    }
}

fn empty_store() -> LaunchStore {
    LaunchStore { schema_version: "1.0.0".into(), records: Vec::new() }
}

#[test]
fn remembers_only_a_hashed_project_identity_and_restores_pending_state() {
    let mpr = "/workspace/Orders/Orders.mpr";
    let key = project_digest(mpr);
    assert_eq!(key.len(), 64);
    assert!(!key.contains("Orders"));
    let version = normalize_selected_version(Some(" 11.12.2 ")).unwrap();
    let store = remember_record(
        empty_store(),
        LaunchRecord { project_key: key.clone(), selected_version: version, pending: true, updated_at: (100, 0) },
    );
    assert_eq!(validate_store(&store), Ok(()));
    let projects = apply_preferences(&store, vec![project(mpr), project("/other.mpr")], &vec![key, project_digest("/other.mpr")]);
    assert_eq!(projects[0].preferred_version.as_deref(), Some("11.12.2"));
    assert!(projects[0].launch_pending);
    assert_eq!(projects[1].preferred_version, None);
    assert!(!projects[1].launch_pending);
}

#[test]
fn accepts_hashed_outside_projects_but_rejects_invalid_versions_and_forged_stores() {
    assert!(normalize_selected_version(Some("../11.12.2")).is_err());
    assert_eq!(normalize_selected_version(Some("   ")), Ok(None));
    assert_eq!(normalize_selected_version(None), Ok(None));
    let forged = LaunchStore { schema_version: "2.0.0".into(), records: Vec::new() };
    assert_eq!(
        validate_store(&forged),
        Err("project launch preferences use an unsupported shape".to_string())
    );
    let bad_key = LaunchStore {
        schema_version: "1.0.0".into(),
        records: vec![LaunchRecord { project_key: "Orders".into(), selected_version: None, pending: false, updated_at: (0, 0) }],
    };
    assert_eq!(
        validate_store(&bad_key),
        Err("project launch preferences contain an invalid project key".to_string())
    );
    let key = format!("{:064x}", 7);
    let duplicate = LaunchStore {
        schema_version: "1.0.0".into(),
        records: vec![
            LaunchRecord { project_key: key.clone(), selected_version: None, pending: false, updated_at: (0, 0) },
            LaunchRecord { project_key: key, selected_version: None, pending: false, updated_at: (1, 0) },
        ],
    };
    assert!(validate_store(&duplicate).is_err());
    assert!(check_store_file(true, false, 128 * 1024 + 1).is_err());
    assert!(check_store_file(true, true, 10).is_err());
    assert!(check_store_file(true, false, 10).is_ok());
}

#[test]
fn bounds_the_number_of_remembered_projects() {
    let records: Vec<LaunchRecord> = (0..MAX_RECORDS)
        .map(|index| LaunchRecord {
            project_key: format!("{index:064x}"),
            selected_version: Some("11.12.2".into()),
            pending: index % 2 == 0,
            updated_at: (1_000_000 - index as i64, 0),
        })
        .collect();
    let store = LaunchStore { schema_version: "1.0.0".into(), records };
    assert_eq!(validate_store(&store), Ok(()));
    let newest = project_digest("/workspace/Newest.mpr");
    let store = remember_record(
        store,
        LaunchRecord { project_key: newest.clone(), selected_version: Some("11.13.0".into()), pending: true, updated_at: (2_000_000, 0) },
    );
    assert_eq!(store.records.len(), MAX_RECORDS);
    assert_eq!(store.records[0].project_key, newest);
    assert_eq!(store.records[MAX_RECORDS - 1].project_key, format!("{:064x}", MAX_RECORDS - 2));
    assert_eq!(validate_store(&store), Ok(()));
}

#[test]
fn remembering_again_replaces_the_earlier_record() {
    let key = project_digest("/a.mpr");
    let store = remember_record(
        empty_store(),
        LaunchRecord { project_key: key.clone(), selected_version: None, pending: true, updated_at: (1, 0) },
    );
    let store = remember_record(
        store,
        LaunchRecord { project_key: key.clone(), selected_version: Some("10.24.3".into()), pending: false, updated_at: (2, 0) },
    );
    assert_eq!(store.records.len(), 1);
    assert_eq!(store.records[0].selected_version.as_deref(), Some("10.24.3"));
    assert!(!store.records[0].pending);
}
