use mendimaru::projects::{
    distinct_project_version, has_mpr_extension, is_external_project_token, project_name,
    selection_token, should_visit, validate_freerdp_host_path, validate_windows_guest_file_name,
    ExternalSelections, MendixProject, ProjectLocation, ProjectPathError,
};
use mendimaru::workspace_scan::{
    compare_text, settings_read_allowed, settings_version, Admission, Precedence, ScanLimits,
    ScanPhase, ScanReport, SettingsProbe, SettingsRead, WalkEntry, WorkspaceScan,
    MAX_SCAN_ERRORS,
};

fn project(name: &str) -> MendixProject {
    MendixProject {
        name: name.to_string(),
        directory: format!("/workspace/{name}"),
        mpr_path: format!("/workspace/{name}/{name}.mpr"),
        windows_path: format!(r"\\host.lan\Data\{name}\{name}.mpr"),
        location: ProjectLocation::ConfiguredWorkspace,
        version: None,
        preferred_version: None,
        launch_pending: false,
        favorite: false,
        last_launched_at: None,
        last_modified: None,
    }
}

fn file(path: &str) -> WalkEntry {
    WalkEntry::Found { is_file: true, path: path.to_string() }
}

fn directory(path: &str) -> WalkEntry {
    WalkEntry::Found { is_file: false, path: path.to_string() }
}

/// Feeds a walk of `(entry, modified, settings bytes)` to a scan the way the application
/// does, and returns the scan.
fn run(limits: ScanLimits, walk: Vec<(WalkEntry, i128, u64)>, cancelled: bool, elapsed_ms: u64) -> WorkspaceScan {
    let mut scan = WorkspaceScan::new(limits);
    for (entry, modified, bytes) in walk {
        let name = match &entry {
            WalkEntry::Found { path, .. } => path.rsplit('/').next().unwrap().trim_end_matches(".mpr").to_string(),
            WalkEntry::Failed(_) => String::new(),
        };
        match scan.take_entry(cancelled, elapsed_ms, entry) {
            Admission::Project => {}
            admission if matches!(admission, Admission::WalkError | Admission::NotProject) => continue,
            _ => break,
        }
        if !scan.settings_probe("settings", SettingsProbe::Regular(bytes)) {
            if !scan.record(modified, project(&name), 0) {
                break;
            }
            continue;
        }
        let read = SettingsRead::Read { length: bytes, parsed: Ok(None) };
        let (_, counted) = scan.settings_read("settings", read);
        if !scan.record(modified, project(&name), counted) {
            break;
        }
    }
    scan
}

fn three_projects() -> Vec<(WalkEntry, i128, u64)> {
    vec![
        (directory("/w"), 0, 0),
        (directory("/w/Alpha"), 0, 0),
        (file("/w/Alpha/Alpha.mpr"), 10, 51),
        (directory("/w/Beta"), 0, 0),
        (file("/w/Beta/Beta.mpr"), 20, 51),
        (directory("/w/Gamma"), 0, 0),
        (file("/w/Gamma/Gamma.mpr"), 30, 51),
    ]
}

#[test]
fn scan_stops_at_the_entry_limit_with_one_error() {
    let limits = ScanLimits { max_entries: 2, ..ScanLimits::standard() };
    let result = run(limits, three_projects(), false, 0).finish("/w".to_string(), 1);
    assert!(result.truncated);
    assert_eq!(result.visited_entries, 2);
    assert!(result.projects.is_empty());
    assert_eq!(result.error_count, 1);
    assert_eq!(result.errors, vec!["workspace scan stopped after 2 entries".to_string()]);
}

#[test]
fn scan_stops_at_the_project_limit() {
    let limits = ScanLimits { max_projects: 1, ..ScanLimits::standard() };
    let result = run(limits, three_projects(), false, 0).finish("/w".to_string(), 1);
    assert!(result.truncated);
    assert_eq!(result.projects.len(), 1);
    assert_eq!(result.errors, vec!["workspace scan stopped after 1 projects".to_string()]);
}

#[test]
fn scan_stops_once_the_settings_total_is_passed() {
    let limits = ScanLimits { max_total_settings_bytes: 50, ..ScanLimits::standard() };
    let result = run(limits, three_projects(), false, 0).finish("/w".to_string(), 1);
    assert!(result.truncated);
    assert_eq!(result.projects.len(), 1);
    assert!(result.settings_bytes_read > 50);
    assert_eq!(result.errors, vec!["workspace scan stopped after reading 50 settings bytes".to_string()]);
}

#[test]
fn a_cancelled_scan_visits_nothing() {
    let result = run(ScanLimits::standard(), three_projects(), true, 0).finish("/w".to_string(), 0);
    assert_eq!(result.visited_entries, 0);
    assert!(result.truncated);
    assert_eq!(result.error_count, 0);
}

#[test]
fn an_elapsed_scan_stops_on_the_next_clock_check() {
    let walk: Vec<_> = (0..200).map(|index| (directory(&format!("/w/entry-{index}")), 0, 0)).collect();
    let limits = ScanLimits { max_duration_ms: 0, ..ScanLimits::standard() };
    let result = run(limits, walk, false, 0).finish("/w".to_string(), 0);
    assert!(result.truncated);
    assert_eq!(result.visited_entries, 128);
    assert_eq!(result.errors, vec!["workspace scan stopped after 0ms".to_string()]);
}

#[test]
fn a_complete_scan_lists_newest_first_then_by_name() {
    let walk = vec![
        (file("/w/b/beta.mpr"), 5, 0),
        (file("/w/a/Alpha.mpr"), 5, 0),
        (file("/w/c/Gamma.mpr"), 9, 0),
        (file("/w/d/notes.txt"), 9, 0),
        (WalkEntry::Failed("permission denied".to_string()), 0, 0),
    ];
    let result = run(ScanLimits::standard(), walk, false, 0).finish("/w".to_string(), 3);
    assert!(!result.truncated);
    assert_eq!(result.visited_entries, 5);
    assert_eq!(result.skipped_entries, 1);
    assert_eq!(result.errors, vec!["permission denied".to_string()]);
    let names: Vec<_> = result.projects.iter().map(|p| p.name.as_str()).collect();
    assert_eq!(names, vec!["Gamma", "Alpha", "beta"]);
    assert_eq!(result.source_key, "/w");
    assert_eq!(result.duration_ms, 3);
    assert!(!result.watcher_active);
}

#[test]
fn a_scan_keeps_only_the_first_error_messages() {
    let walk: Vec<_> = (0..40).map(|index| (WalkEntry::Failed(format!("error {index}")), 0, 0)).collect();
    let result = run(ScanLimits::standard(), walk, false, 0).finish("/w".to_string(), 0);
    assert_eq!(result.error_count, 40);
    assert_eq!(result.skipped_entries, 40);
    assert_eq!(result.errors.len(), MAX_SCAN_ERRORS);
    assert_eq!(result.errors[0], "error 0");
    assert_eq!(result.errors[31], "error 31");
}

#[test]
fn an_unreadable_modification_time_skips_the_project() {
    let mut scan = WorkspaceScan::new(ScanLimits::standard());
    assert_eq!(scan.take_entry(false, 0, file("/w/Orders/Orders.mpr")), Admission::Project);
    scan.modified_unreadable("\"/w/Orders/Orders.mpr\"", "gone");
    assert_eq!(scan.phase, ScanPhase::Ready);
    let result = scan.finish("/w".to_string(), 0);
    assert!(result.projects.is_empty());
    assert_eq!(result.skipped_entries, 1);
    assert_eq!(result.errors, vec!["\"/w/Orders/Orders.mpr\": gone".to_string()]);
}

#[test]
fn reads_settings_at_the_exact_byte_limit_and_rejects_one_more_byte() {
    let mut report = ScanReport::new();
    let maximum = 160;
    assert!(settings_read_allowed("s", SettingsProbe::Regular(maximum), maximum, &mut report));
    let read = SettingsRead::Read {
        length: maximum,
        parsed: Ok(Some(vec!["A, Version=11.12.2.0".to_string()])),
    };
    let (version, bytes) = settings_version("s", read, maximum, &mut report);
    assert_eq!(version.as_deref(), Some("11.12.2"));
    assert_eq!(bytes, maximum);
    assert_eq!(report.error_count, 0);

    assert!(!settings_read_allowed("s", SettingsProbe::Regular(maximum), maximum - 1, &mut report));
    assert_eq!(report.error_count, 1);
    assert_eq!(report.skipped_entries, 1);
    assert!(report.errors[0].contains("exceed"));
    assert_eq!(report.errors[0], "s: project settings exceed 159 bytes");
}

#[test]
fn settings_that_are_missing_special_grown_or_malformed() {
    let mut report = ScanReport::new();
    assert!(!settings_read_allowed("s", SettingsProbe::Missing, 10, &mut report));
    assert_eq!(report.error_count, 0);
    assert!(!settings_read_allowed("s", SettingsProbe::NotRegularFile, 10, &mut report));
    assert_eq!(report.errors[0], "s: project settings must be a regular file");
    let grown = SettingsRead::Read { length: 11, parsed: Ok(None) };
    assert_eq!(settings_version("s", grown, 10, &mut report), (None, 0));
    assert_eq!(report.errors[1], "s: project settings changed past the safe size limit");
    let malformed = SettingsRead::Read { length: 4, parsed: Err("expected value".to_string()) };
    assert_eq!(settings_version("s", malformed, 10, &mut report), (None, 4));
    assert_eq!(report.errors[2], "s: expected value");
    assert_eq!(report.skipped_entries, 3);
}

#[test]
fn infers_only_one_distinct_project_version() {
    let same = vec!["A, Version=11.12.2.0".to_string(), "B, Version=11.12.2.0".to_string()];
    assert_eq!(distinct_project_version(&same).as_deref(), Some("11.12.2"));
    let differing = vec!["A, Version=11.12.2.0".to_string(), "B, Version=10.24.9.0".to_string()];
    assert_eq!(distinct_project_version(&differing), None);
}

#[test]
fn texts_compare_by_code_point() {
    assert_eq!(compare_text("alpha", "beta"), Precedence::Before);
    assert_eq!(compare_text("beta", "alpha"), Precedence::After);
    assert_eq!(compare_text("app", "apple"), Precedence::Before);
    assert_eq!(compare_text("same", "same"), Precedence::Same);
    assert_eq!(compare_text("Zeta", "alpha"), Precedence::Before);
}

#[test]
fn generated_directories_are_not_visited() {
    assert!(should_visit(0, "node_modules"));
    for excluded in [".git", "node_modules", "deployment", ".mendix-cache", "target"] {
        assert!(!should_visit(1, excluded));
    }
    assert!(should_visit(1, "Orders"));
    assert!(has_mpr_extension("/w/Orders/Orders.MPR"));
    assert!(!has_mpr_extension("/w/Orders/Orders.txt"));
    assert_eq!(project_name("/w/Orders", "/w/Orders/App.mpr"), "Orders");
    assert_eq!(project_name("/w/Orders", "/w/Orders/Billing.mpr"), "Billing");
}

#[test]
fn guest_file_names_exclude_reserved_devices_and_characters() {
    assert_eq!(validate_windows_guest_file_name("/p/Orders.mpr"), Ok(()));
    assert_eq!(validate_windows_guest_file_name("/p/CON.mpr"), Err(ProjectPathError::Unsupported));
    assert_eq!(validate_windows_guest_file_name("/p/com1.mpr"), Err(ProjectPathError::Unsupported));
    assert_eq!(validate_windows_guest_file_name("/p/COM0.mpr"), Ok(()));
    assert_eq!(validate_windows_guest_file_name("/p/a?b.mpr"), Err(ProjectPathError::Unsupported));
    assert_eq!(validate_windows_guest_file_name("/p/trailing."), Err(ProjectPathError::Unsupported));
    assert_eq!(validate_windows_guest_file_name("/"), Err(ProjectPathError::Encoding));
    assert_eq!(validate_freerdp_host_path("/home/me/comma,project"), Err(ProjectPathError::Unsupported));
    assert_eq!(validate_freerdp_host_path("/home/me/double\"quote"), Err(ProjectPathError::Unsupported));
    assert_eq!(validate_freerdp_host_path("/home/me/Orders"), Ok(()));
}

#[test]
fn selection_tokens_name_the_path_digest_and_the_store_keeps_the_newest() {
    let token = selection_token("/home/me/Orders/Orders.mpr");
    assert!(token.starts_with("external-project_"));
    assert_eq!(token.len(), "external-project_".len() + 64);
    assert!(is_external_project_token(&token));
    assert!(!is_external_project_token(&token.to_uppercase()));
    assert_ne!(token, selection_token("/home/me/Orders/Other.mpr"));

    let mut store = ExternalSelections::new();
    store.remember(token.clone(), "/home/me/Orders/Orders.mpr".to_string());
    assert_eq!(store.path_of(&token).as_deref(), Some("/home/me/Orders/Orders.mpr"));
    assert_eq!(store.path_of("/home/me/Orders/Orders.mpr"), None);
    for index in 0..8 {
        let path = format!("/home/me/P{index}/P.mpr");
        store.remember(selection_token(&path), path);
    }
    assert_eq!(store.path_of(&token), None);
    let newest = selection_token("/home/me/P7/P.mpr");
    assert_eq!(store.path_of(&newest).as_deref(), Some("/home/me/P7/P.mpr"));
    store.remember(newest.clone(), "/moved/P.mpr".to_string());
    assert_eq!(store.path_of(&newest).as_deref(), Some("/moved/P.mpr"));
    let oldest_kept = selection_token("/home/me/P0/P.mpr");
    assert_eq!(store.path_of(&oldest_kept).as_deref(), Some("/home/me/P0/P.mpr"));
}
