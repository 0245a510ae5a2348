use mendimaru::settings::{
    after_persist, after_recreate, compose_command_error, expected_revision,
    preview_settings_save, recreate_previous, rollback_outcome, CommandErrorCode, ComposeError,
    ComposeErrorKind, SaveStep, SharedMountPlan,
};

fn error(kind: ComposeErrorKind) -> ComposeError {
    ComposeError { kind, message: "compose".into() }
}

fn plan(mount_changed: bool) -> SharedMountPlan {
    SharedMountPlan {
        service_name: "windows".into(),
        current_source: Some("/old".into()),
        next_source: "/new".into(),
        mount_changed,
        revision: "abc".into(),
    }
}

#[test]
fn compose_identity_and_revision_failures_keep_distinct_command_codes() {
    assert_eq!(compose_command_error(error(ComposeErrorKind::NotWinboat)).code, CommandErrorCode::ComposeNotWinboat);
    assert_eq!(compose_command_error(error(ComposeErrorKind::Ambiguous)).code, CommandErrorCode::ComposeAmbiguous);
    assert_eq!(
        compose_command_error(error(ComposeErrorKind::RevisionConflict)).code,
        CommandErrorCode::ComposeRevisionConflict
    );
    assert_eq!(compose_command_error(error(ComposeErrorKind::Other)).code, CommandErrorCode::OperationFailed);
    assert_eq!(compose_command_error(error(ComposeErrorKind::Other)).message, "compose");
}

#[test]
fn previews_the_mount_change_and_recreation() {
    let preview = preview_settings_save(Some(Ok(plan(true))), true).unwrap().unwrap();
    assert!(preview.container_will_recreate);
    assert_eq!(preview.current_shared_directory.as_deref(), Some("/old"));
    assert_eq!(preview.next_shared_directory, "/new");
    assert_eq!(preview.compose_revision, "abc");
    assert!(!preview_settings_save(Some(Ok(plan(true))), false).unwrap().unwrap().container_will_recreate);
    assert!(!preview_settings_save(Some(Ok(plan(false))), true).unwrap().unwrap().container_will_recreate);
    assert_eq!(preview_settings_save(None, true), Ok(None));
    assert_eq!(
        preview_settings_save(Some(Err(error(ComposeErrorKind::Ambiguous))), true).unwrap_err().code,
        CommandErrorCode::ComposeAmbiguous
    );
    assert_eq!(
        expected_revision(None).unwrap_err().code,
        CommandErrorCode::ComposeRevisionConflict
    );
    assert_eq!(expected_revision(Some("abc")), Ok("abc"));
}

#[test]
fn saves_persist_then_recreate_and_roll_back_failures() {
    assert_eq!(after_persist(Ok(()), true, true), SaveStep::Recreate);
    assert_eq!(
        after_persist(Ok(()), true, false),
        SaveStep::Finish { mount_changed: true, container_recreated: false }
    );
    assert_eq!(after_persist(Err("disk".into()), true, true), SaveStep::Rollback { error: "disk".into() });
    assert_eq!(
        after_recreate(Ok(()), true),
        SaveStep::Finish { mount_changed: true, container_recreated: true }
    );
    assert_eq!(after_recreate(Err("docker".into()), true), SaveStep::Rollback { error: "docker".into() });
}

#[test]
fn rollback_reports_every_failure_and_whether_compose_was_restored() {
    let clean = rollback_outcome("docker".into(), Ok(()), Some(Ok(())));
    assert_eq!(clean.rollback_errors, None);
    assert!(clean.compose_restored);
    assert!(recreate_previous(&clean, true));
    assert!(!recreate_previous(&clean, false));
    let both = rollback_outcome("docker".into(), Err("config".into()), Some(Err("compose".into())));
    assert_eq!(both.rollback_errors.as_deref(), Some("config; compose"));
    assert!(!both.compose_restored);
    assert!(!recreate_previous(&both, true));
    let unchanged = rollback_outcome("x".into(), Err("config".into()), None);
    assert_eq!(unchanged.rollback_errors.as_deref(), Some("config"));
    assert!(unchanged.compose_restored);
}
