//! Saving settings: the preview of a shared-mount change, how Compose failures are reported,
//! and the order of persisting, recreating and rolling back.
use vstd::prelude::*;
use crate::text::{push_all, push_str, string_from, to_chars};

verus! {

/// Why a Compose file could not be planned or changed.
#[derive(Debug, Clone, Copy, PartialEq, Eq, Structural)]
pub enum ComposeErrorKind {
    NotWinboat,
    Ambiguous,
    RevisionConflict,
    Other,
}

/// A Compose failure and its message.
#[derive(Debug, Clone, PartialEq, Eq)]
pub struct ComposeError {
    pub kind: ComposeErrorKind,
    pub message: String,
}

/// The codes a failed settings command is answered with.
#[derive(Debug, Clone, Copy, PartialEq, Eq, Structural)]
pub enum CommandErrorCode {
    ComposeNotWinboat,
    ComposeAmbiguous,
    ComposeRevisionConflict,
    OperationFailed,
}

/// A failed settings command.
#[derive(Debug, Clone, PartialEq, Eq)]
pub struct CommandError {
    pub code: CommandErrorCode,
    pub message: String,
}

/// The command code for a Compose failure: each kind keeps a code of its own.
pub open spec fn compose_code(kind: ComposeErrorKind) -> CommandErrorCode {
    match kind {
        ComposeErrorKind::NotWinboat => CommandErrorCode::ComposeNotWinboat,
        ComposeErrorKind::Ambiguous => CommandErrorCode::ComposeAmbiguous,
        ComposeErrorKind::RevisionConflict => CommandErrorCode::ComposeRevisionConflict,
        ComposeErrorKind::Other => CommandErrorCode::OperationFailed,
    }
}

/// The command failure a Compose failure is answered with, with its message.
pub fn compose_command_error(error: ComposeError) -> (r: CommandError)
    ensures
        r.code == compose_code(error.kind),
        r.message == error.message,
{
    let code = match error.kind {
        ComposeErrorKind::NotWinboat => CommandErrorCode::ComposeNotWinboat,
        ComposeErrorKind::Ambiguous => CommandErrorCode::ComposeAmbiguous,
        ComposeErrorKind::RevisionConflict => CommandErrorCode::ComposeRevisionConflict,
        ComposeErrorKind::Other => CommandErrorCode::OperationFailed,
    };
    CommandError { code, message: error.message }
}

/// A planned change of the shared mount in the Compose file.
#[derive(Debug, Clone, PartialEq, Eq)]
pub struct SharedMountPlan {
    pub service_name: String,
    pub current_source: Option<String>,
    pub next_source: String,
    pub mount_changed: bool,
    pub revision: String,
}

/// What saving settings would do.
#[derive(Debug, Clone, PartialEq, Eq)]
pub struct SettingsSavePreview {
    pub service_name: String,
    pub current_shared_directory: Option<String>,
    pub next_shared_directory: String,
    pub mount_changed: bool,
    pub container_will_recreate: bool,
    pub compose_revision: String,
}

/// The preview of saving settings: none where the application runs natively on Windows (no
/// plan is made), the Compose failure where planning failed, and otherwise the plan, with
/// the container recreated exactly when the mount changes and that is asked for.
pub fn preview_settings_save(plan: Option<Result<SharedMountPlan, ComposeError>>, apply_mount: bool) -> (r: Result<Option<SettingsSavePreview>, CommandError>)
    ensures
        match plan {
            None => r == Ok::<Option<SettingsSavePreview>, CommandError>(None),
            Some(Err(e)) => r matches Err(c) && c.code == compose_code(e.kind) && c.message == e.message,
            Some(Ok(p)) => r == Ok::<Option<SettingsSavePreview>, CommandError>(Some(SettingsSavePreview {
                service_name: p.service_name,
                current_shared_directory: p.current_source,
                next_shared_directory: p.next_source,
                mount_changed: p.mount_changed,
                container_will_recreate: p.mount_changed && apply_mount,
                compose_revision: p.revision,
            })),
        },
{
    match plan {
        None => Ok(None),
        Some(Err(e)) => Err(compose_command_error(e)),
        Some(Ok(p)) => {
            let container_will_recreate = p.mount_changed && apply_mount;
            Ok(Some(SettingsSavePreview {
                service_name: p.service_name,
                current_shared_directory: p.current_source,
                next_shared_directory: p.next_source,
                mount_changed: p.mount_changed,
                container_will_recreate,
                compose_revision: p.revision,
            }))
        },
    }
}

/// A save needs the Compose revision that its preview showed.
pub fn expected_revision(expected: Option<&str>) -> (r: Result<&str, CommandError>)
    ensures
        match expected {
            Some(v) => r == Ok::<&str, CommandError>(v),
            None => r matches Err(c) && c.code == CommandErrorCode::ComposeRevisionConflict
                && c.message@ == "error-compose-revision-conflict"@,
        },
{
    match expected {
        Some(v) => Ok(v),
        None => Err(CommandError {
            code: CommandErrorCode::ComposeRevisionConflict,
            message: crate::text::string_of("error-compose-revision-conflict"),
        }),
    }
}

/// The outcome of rolling a failed save back: the message the save fails with (the
/// original error, and the rollback failures when there were any), and whether the Compose
/// file is as it was.
#[derive(Debug, Clone, PartialEq, Eq)]
pub struct SettingsRollback {
    pub error: String,
    /// The rollback failures, joined with `; `, when there were any.
    pub rollback_errors: Option<String>,
    pub compose_restored: bool,
}

/// Texts joined with `; `.
pub open spec fn joined(parts: Seq<Seq<char>>) -> Seq<char>
    decreases parts.len(),
{
    if parts.len() == 0 {
        Seq::empty()
    } else if parts.len() == 1 {
        parts[0]
    } else {
        joined(parts.drop_last()) + "; "@ + parts.last()
    }
}

/// The failures of restoring the configuration and, when the Compose file had changed,
/// of restoring it, in that order.
pub open spec fn rollback_failures(config_restore: Result<(), String>, compose_restore: Option<Result<(), String>>) -> Seq<Seq<char>> {
    let first: Seq<Seq<char>> = match config_restore {
        Err(e) => seq![e@],
        Ok(()) => Seq::empty(),
    };
    match compose_restore {
        Some(Err(e)) => first.push(e@),
        _ => first,
    }
}

/// The outcome of rolling back a failed save: `compose_restore` is `None` when the Compose
/// file had not changed, which leaves it restored.
pub fn rollback_outcome(original_error: String, config_restore: Result<(), String>, compose_restore: Option<Result<(), String>>) -> (r: SettingsRollback)
    ensures
        r.error == original_error,
        r.compose_restored == !(compose_restore matches Some(Err(_))),
        rollback_failures(config_restore, compose_restore).len() == 0 ==> r.rollback_errors is None,
        rollback_failures(config_restore, compose_restore).len() > 0 ==> (r.rollback_errors matches Some(m)
            && m@ == joined(rollback_failures(config_restore, compose_restore))),
{
    let mut parts: Vec<char> = Vec::new();
    let mut count: usize = 0;
    match &config_restore {
        Err(e) => {
            push_str(&mut parts, e.as_str());
            count = 1;
        },
        Ok(()) => {},
    }
    proof {
        reveal_with_fuel(joined, 3);
        assert(count == rollback_failures(config_restore, None).len());
        assert(parts@ == joined(rollback_failures(config_restore, None)));
    }
    let compose_restored = match &compose_restore {
        Some(Err(e)) => {
            if count > 0 {
                push_str(&mut parts, "; ");
            }
            push_str(&mut parts, e.as_str());
            count = count + 1;
            proof {
                let f = rollback_failures(config_restore, compose_restore);
                assert(f.drop_last() =~= rollback_failures(config_restore, None));
            }
            false
        },
        _ => true,
    };
    let rollback_errors = if count == 0 {
        None
    } else {
        Some(string_from(&parts))
    };
    SettingsRollback { error: original_error, rollback_errors, compose_restored }
}

/// What saving settings does next.
#[derive(Debug, Clone, PartialEq, Eq)]
pub enum SaveStep {
    /// Recreate the container with the new mount.
    Recreate,
    /// Roll the configuration and Compose file back, then fail with this error.
    Rollback { error: String },
    /// The save succeeded.
    Finish { mount_changed: bool, container_recreated: bool },
}

/// The step after the configuration was persisted: a failure rolls back; a changed mount is
/// applied by recreating the container when that was asked for.
pub fn after_persist(persisted: Result<(), String>, mount_changed: bool, apply_mount: bool) -> (r: SaveStep)
    ensures
        match persisted {
            Err(e) => r == SaveStep::Rollback { error: e },
            Ok(()) => if mount_changed && apply_mount {
                r == SaveStep::Recreate
            } else {
                r == (SaveStep::Finish { mount_changed, container_recreated: false })
            },
        },
{
    match persisted {
        Err(e) => SaveStep::Rollback { error: e },
        Ok(()) => if mount_changed && apply_mount {
            SaveStep::Recreate
        } else {
            SaveStep::Finish { mount_changed, container_recreated: false }
        },
    }
}

/// The step after the container was recreated: a failure rolls back.
pub fn after_recreate(recreated: Result<(), String>, mount_changed: bool) -> (r: SaveStep)
    ensures
        match recreated {
            Err(e) => r == SaveStep::Rollback { error: e },
            Ok(()) => r == (SaveStep::Finish { mount_changed, container_recreated: true }),
        },
{
    match recreated {
        Err(e) => SaveStep::Rollback { error: e },
        Ok(()) => SaveStep::Finish { mount_changed, container_recreated: true },
    }
}

/// After a failed recreation was rolled back, the previous container is recreated when the
/// Compose file was restored and a previous configuration is known.
pub fn recreate_previous(rollback: &SettingsRollback, has_previous_config: bool) -> (r: bool)
    ensures
        r == (rollback.compose_restored && has_previous_config),
{
    rollback.compose_restored && has_previous_config
}

} // verus!
