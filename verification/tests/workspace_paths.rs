use mendimaru::projects::{
    check_selection_text, external_share_root_error, path_within, scanned_project, selection_location,
    ProjectLocation, SelectionTextError, MAX_PROJECT_PATH_BYTES,
};
use mendimaru::paths::linux_path_to_windows_share;

#[test]
fn maps_linux_project_path_to_windows_share() {
    let mapped = linux_path_to_windows_share(
        "/workspace",
        "/workspace/Customer Portal/App.mpr",
        r"\\host.lan\Data",
    )
    .expect("mapped path");
    assert_eq!(mapped, r"\\host.lan\Data\Customer Portal\App.mpr");
}

#[test]
fn share_root_loses_trailing_separators_and_maps_the_workspace_itself() {
    assert_eq!(
        linux_path_to_windows_share("/workspace/", "/workspace", r"\\host.lan\Data\/").unwrap(),
        r"\\host.lan\Data"
    );
    assert_eq!(
        linux_path_to_windows_share("/workspace", "/workspace//Orders/./Orders.mpr", r"D:\").unwrap(),
        r"D:\Orders\Orders.mpr"
    );
}

#[test]
fn paths_outside_the_workspace_are_refused() {
    assert!(linux_path_to_windows_share("/workspace", "/workspace2/App.mpr", r"\\host.lan\Data").is_err());
    assert!(linux_path_to_windows_share("/workspace/a", "/workspace", r"\\host.lan\Data").is_err());
}

#[test]
fn requested_project_paths_are_absolute_bounded_and_single_line() {
    assert_eq!(check_selection_text("/home/dev/App.mpr"), Ok(()));
    assert_eq!(check_selection_text("App.mpr"), Err(SelectionTextError::NotAbsolute));
    assert_eq!(check_selection_text(""), Err(SelectionTextError::NotAbsolute));
    assert_eq!(check_selection_text("/a\nb.mpr"), Err(SelectionTextError::Unsupported));
    let at_limit = format!("/{}", "a".repeat(MAX_PROJECT_PATH_BYTES - 1));
    assert_eq!(check_selection_text(&at_limit), Ok(()));
    let over = format!("/{}", "a".repeat(MAX_PROJECT_PATH_BYTES));
    assert_eq!(check_selection_text(&over), Err(SelectionTextError::TooLong));
    assert_eq!(SelectionTextError::TooLong.message_key(), "error-project-path-too-long");
}

#[test]
fn a_path_is_within_a_root_by_whole_components() {
    assert!(path_within("/home/dev/Mendix/App/App.mpr", "/home/dev/Mendix"));
    assert!(path_within("/home/dev/Mendix", "/home/dev/Mendix/"));
    assert!(!path_within("/home/dev/MendixOther/App.mpr", "/home/dev/Mendix"));
    assert!(!path_within("relative/App.mpr", "/home"));
    assert_eq!(
        selection_location("/home/dev/Mendix/App/App.mpr", "/home/dev/Mendix"),
        ProjectLocation::ConfiguredWorkspace
    );
    assert_eq!(
        selection_location("/srv/App/App.mpr", "/home/dev/Mendix"),
        ProjectLocation::ExplicitHostSelection
    );
}

#[test]
fn outside_shares_must_be_narrow_and_writable() {
    assert_eq!(external_share_root_error(true, false, false), Some("error-project-share-too-broad"));
    assert_eq!(external_share_root_error(false, true, true), Some("error-project-share-too-broad"));
    assert_eq!(external_share_root_error(false, false, true), Some("error-project-share-read-only"));
    assert_eq!(external_share_root_error(false, false, false), None);
}

#[test]
fn a_scanned_project_is_shared_under_the_windows_root_with_no_preferences() {
    let project = scanned_project(
        "/workspace",
        r"\\host.lan\Data\",
        "/workspace/Portal".to_string(),
        "/workspace/Portal/App.mpr",
        Some("10.24.0".to_string()),
        "2026-01-01T00:00:00+00:00".to_string(),
    )
    .expect("inside the workspace");
    assert_eq!(project.windows_path, r"\\host.lan\Data\Portal\App.mpr");
    assert_eq!(project.name, "Portal");
    assert_eq!(project.location, ProjectLocation::ConfiguredWorkspace);
    assert_eq!(project.version.as_deref(), Some("10.24.0"));
    assert!(project.preferred_version.is_none());
    assert!(!project.launch_pending);
    let outside = scanned_project("/workspace", r"\\host\D", "/srv".to_string(), "/srv/App.mpr", None, String::new());
    assert_eq!(outside.err().as_deref(), Some("error-project-outside-workspace"));
}
