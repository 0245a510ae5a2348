//! The fixed reasons that guest scripts fail with, turned into message keys and their
//! arguments for the user's language. Unknown reasons are shown as they are.
use vstd::prelude::*;
use crate::text::{
    equals_str, has_prefix, parse_u64, parse_u64_spec, slice, starts_with_str, string_from,
    string_of, to_chars,
};

verus! {

pub const PREFIX_RULES: usize = 19;

pub const EXACT_RULES: usize = 14;

/// The reasons that carry a value after their code: the code with its colon, the message
/// key, the name of the argument, and whether the argument is a number.
pub open spec fn prefix_rule_spec(i: int) -> (Seq<char>, Seq<char>, Seq<char>, bool) {
    if i == 0 {
        ("MENDIMARU_STUDIO_EXECUTABLE_NOT_FOUND:"@, "error-script-studio-executable-not-found"@, "path"@, false)
    } else if i == 1 {
        ("MENDIMARU_STUDIO_EXITED_BEFORE_WINDOW:"@, "error-script-studio-exited-before-window"@, "code"@, true)
    } else if i == 2 {
        ("MENDIMARU_INSTALLER_NOT_FOUND:"@, "error-script-installer-not-found"@, "path"@, false)
    } else if i == 3 {
        ("MENDIMARU_INSTALLER_EXIT_CODE:"@, "error-script-installer-exit-code"@, "code"@, true)
    } else if i == 4 {
        ("MENDIMARU_STUDIO_NOT_CREATED:"@, "error-script-studio-not-created"@, "version"@, false)
    } else if i == 5 {
        ("MENDIMARU_PARTIAL_CLEANUP_FAILED:"@, "error-script-partial-cleanup-failed"@, "path"@, false)
    } else if i == 6 {
        ("MENDIMARU_UNINSTALLER_NOT_FOUND:"@, "error-script-uninstaller-not-found"@, "path"@, false)
    } else if i == 7 {
        ("MENDIMARU_UNINSTALLER_EXIT_CODE:"@, "error-script-uninstaller-exit-code"@, "code"@, true)
    } else if i == 8 {
        ("MENDIMARU_UNINSTALL_STILL_EXISTS:"@, "error-script-uninstall-still-exists"@, "path"@, false)
    } else if i == 9 {
        ("MENDIMARU_UNINSTALL_METADATA_MISSING:"@, "error-script-uninstall-metadata-missing"@, "version"@, false)
    } else if i == 10 {
        ("MENDIMARU_EXECUTABLE_NOT_FOUND:"@, "error-script-executable-not-found"@, "path"@, false)
    } else if i == 11 {
        ("MENDIMARU_DIRECTORY_NOT_FOUND:"@, "error-script-directory-not-found"@, "path"@, false)
    } else if i == 12 {
        ("MENDIMARU_PATH_OUTSIDE_TRUST_ROOT:"@, "error-script-path-outside-root"@, "path"@, false)
    } else if i == 13 {
        ("MENDIMARU_REPARSE_POINT:"@, "error-script-reparse-point"@, "path"@, false)
    } else if i == 14 {
        ("MENDIMARU_EXECUTABLE_INVALID:"@, "error-script-executable-invalid"@, "path"@, false)
    } else if i == 15 {
        ("MENDIMARU_HASH_MISMATCH:"@, "error-script-hash-mismatch"@, "path"@, false)
    } else if i == 16 {
        ("MENDIMARU_SIGNATURE_INVALID:"@, "error-script-signature-invalid"@, "reason"@, false)
    } else if i == 17 {
        ("MENDIMARU_PUBLISHER_INVALID:"@, "error-script-publisher-invalid"@, "publisher"@, false)
    } else if i == 18 {
        ("MENDIMARU_EXECUTABLE_CHANGED:"@, "error-script-executable-changed"@, "path"@, false)
    } else {
        (Seq::empty(), Seq::empty(), Seq::empty(), false)
    }
}

fn prefix_rule(i: usize) -> (r: (&'static str, &'static str, &'static str, bool))
    requires
        i < PREFIX_RULES,
    ensures
        (r.0@, r.1@, r.2@, r.3) == prefix_rule_spec(i as int),
{
    match i {
        0 => ("MENDIMARU_STUDIO_EXECUTABLE_NOT_FOUND:", "error-script-studio-executable-not-found", "path", false),
        1 => ("MENDIMARU_STUDIO_EXITED_BEFORE_WINDOW:", "error-script-studio-exited-before-window", "code", true),
        2 => ("MENDIMARU_INSTALLER_NOT_FOUND:", "error-script-installer-not-found", "path", false),
        3 => ("MENDIMARU_INSTALLER_EXIT_CODE:", "error-script-installer-exit-code", "code", true),
        4 => ("MENDIMARU_STUDIO_NOT_CREATED:", "error-script-studio-not-created", "version", false),
        5 => ("MENDIMARU_PARTIAL_CLEANUP_FAILED:", "error-script-partial-cleanup-failed", "path", false),
        6 => ("MENDIMARU_UNINSTALLER_NOT_FOUND:", "error-script-uninstaller-not-found", "path", false),
        7 => ("MENDIMARU_UNINSTALLER_EXIT_CODE:", "error-script-uninstaller-exit-code", "code", true),
        8 => ("MENDIMARU_UNINSTALL_STILL_EXISTS:", "error-script-uninstall-still-exists", "path", false),
        9 => ("MENDIMARU_UNINSTALL_METADATA_MISSING:", "error-script-uninstall-metadata-missing", "version", false),
        10 => ("MENDIMARU_EXECUTABLE_NOT_FOUND:", "error-script-executable-not-found", "path", false),
        11 => ("MENDIMARU_DIRECTORY_NOT_FOUND:", "error-script-directory-not-found", "path", false),
        12 => ("MENDIMARU_PATH_OUTSIDE_TRUST_ROOT:", "error-script-path-outside-root", "path", false),
        13 => ("MENDIMARU_REPARSE_POINT:", "error-script-reparse-point", "path", false),
        14 => ("MENDIMARU_EXECUTABLE_INVALID:", "error-script-executable-invalid", "path", false),
        15 => ("MENDIMARU_HASH_MISMATCH:", "error-script-hash-mismatch", "path", false),
        16 => ("MENDIMARU_SIGNATURE_INVALID:", "error-script-signature-invalid", "reason", false),
        17 => ("MENDIMARU_PUBLISHER_INVALID:", "error-script-publisher-invalid", "publisher", false),
        18 => ("MENDIMARU_EXECUTABLE_CHANGED:", "error-script-executable-changed", "path", false),
        _ => ("MENDIMARU_EXECUTABLE_CHANGED:", "error-script-executable-changed", "path", false),
    }
}

/// The reasons that are a bare code, and their message keys.
pub open spec fn exact_rule_spec(i: int) -> (Seq<char>, Seq<char>) {
    if i == 0 {
        ("MENDIMARU_ADMIN_REQUIRED"@, "error-script-admin-required"@)
    } else if i == 1 {
        ("MENDIMARU_PROJECT_STILL_OPEN"@, "error-script-project-still-open"@)
    } else if i == 2 {
        ("MENDIMARU_STUDIO_STILL_RUNNING"@, "error-script-studio-still-running"@)
    } else if i == 3 {
        ("MENDIMARU_STUDIO_RUNNING"@, "error-script-studio-still-running"@)
    } else if i == 4 {
        ("MENDIMARU_STUDIO_SESSION_ENDED"@, "error-script-studio-session-ended"@)
    } else if i == 5 {
        ("MENDIMARU_STUDIO_SESSION_WINDOW_UNAVAILABLE"@, "error-script-studio-session-window-unavailable"@)
    } else if i == 6 {
        ("MENDIMARU_STUDIO_SESSION_CLOSE_PENDING"@, "error-script-studio-session-close-pending"@)
    } else if i == 7 {
        ("MENDIMARU_STUDIO_SESSION_CLOSE_REJECTED"@, "error-script-studio-session-close-rejected"@)
    } else if i == 8 {
        ("MENDIMARU_STUDIO_SESSION_QUERY_FAILED"@, "error-script-studio-session-query-failed"@)
    } else if i == 9 {
        ("MENDIMARU_STUDIO_SESSION_ENUMERATION_FAILED"@, "error-script-studio-session-enumeration-failed"@)
    } else if i == 10 {
        ("MENDIMARU_STUDIO_SESSION_REPORT_FAILED"@, "error-script-studio-session-report-failed"@)
    } else if i == 11 {
        ("MENDIMARU_PROJECT_NOT_READY"@, "error-script-project-not-ready"@)
    } else if i == 12 {
        ("MENDIMARU_PROJECT_INVALID"@, "error-script-project-invalid"@)
    } else if i == 13 {
        ("MENDIMARU_PATH_INVALID"@, "error-script-path-invalid"@)
    } else {
        (Seq::empty(), Seq::empty())
    }
}

fn exact_rule(i: usize) -> (r: (&'static str, &'static str))
    requires
        i < EXACT_RULES,
    ensures
        (r.0@, r.1@) == exact_rule_spec(i as int),
{
    match i {
        0 => ("MENDIMARU_ADMIN_REQUIRED", "error-script-admin-required"),
        1 => ("MENDIMARU_PROJECT_STILL_OPEN", "error-script-project-still-open"),
        2 => ("MENDIMARU_STUDIO_STILL_RUNNING", "error-script-studio-still-running"),
        3 => ("MENDIMARU_STUDIO_RUNNING", "error-script-studio-still-running"),
        4 => ("MENDIMARU_STUDIO_SESSION_ENDED", "error-script-studio-session-ended"),
        5 => ("MENDIMARU_STUDIO_SESSION_WINDOW_UNAVAILABLE", "error-script-studio-session-window-unavailable"),
        6 => ("MENDIMARU_STUDIO_SESSION_CLOSE_PENDING", "error-script-studio-session-close-pending"),
        7 => ("MENDIMARU_STUDIO_SESSION_CLOSE_REJECTED", "error-script-studio-session-close-rejected"),
        8 => ("MENDIMARU_STUDIO_SESSION_QUERY_FAILED", "error-script-studio-session-query-failed"),
        9 => ("MENDIMARU_STUDIO_SESSION_ENUMERATION_FAILED", "error-script-studio-session-enumeration-failed"),
        10 => ("MENDIMARU_STUDIO_SESSION_REPORT_FAILED", "error-script-studio-session-report-failed"),
        11 => ("MENDIMARU_PROJECT_NOT_READY", "error-script-project-not-ready"),
        12 => ("MENDIMARU_PROJECT_INVALID", "error-script-project-invalid"),
        13 => ("MENDIMARU_PATH_INVALID", "error-script-path-invalid"),
        _ => ("MENDIMARU_PATH_INVALID", "error-script-path-invalid"),
    }
}

/// A message to show in the user's language: its key, the named argument it takes, and
/// the argument's value as a number when the value is a decimal number to format.
#[derive(Debug, Clone, PartialEq, Eq)]
pub struct ReasonMessage {
    pub key: &'static str,
    pub argument: Option<(&'static str, String)>,
    pub number: Option<u64>,
}

/// What a message is made of, as characters.
pub struct ReasonView {
    pub key: Seq<char>,
    pub argument: Option<(Seq<char>, Seq<char>)>,
    pub number: Option<u64>,
}

pub open spec fn reason_view(m: ReasonMessage) -> ReasonView {
    ReasonView {
        key: m.key@,
        argument: match m.argument { Some((n, v)) => Some((n@, v@)), None => None },
        number: m.number,
    }
}

/// The message for the first prefix rule from `i` on that `reason` starts with.
pub open spec fn prefix_match(reason: Seq<char>, i: int) -> Option<ReasonView>
    decreases PREFIX_RULES - i,
{
    if i < 0 || i >= PREFIX_RULES {
        None
    } else {
        let (code, key, name, numeric) = prefix_rule_spec(i);
        if has_prefix(reason, code) {
            let value = reason.skip(code.len() as int);
            Some(ReasonView {
                key,
                argument: Some((name, value)),
                number: if numeric { parse_u64_spec(value) } else { None },
            })
        } else {
            prefix_match(reason, i + 1)
        }
    }
}

/// The message for the first exact rule from `i` on that is `reason`.
pub open spec fn exact_match(reason: Seq<char>, i: int) -> Option<ReasonView>
    decreases EXACT_RULES - i,
{
    if i < 0 || i >= EXACT_RULES {
        None
    } else if reason == exact_rule_spec(i).0 {
        Some(ReasonView { key: exact_rule_spec(i).1, argument: None, number: None })
    } else {
        exact_match(reason, i + 1)
    }
}

/// The message for a script's failure reason; `None` when the reason is shown as it is.
pub open spec fn reason_spec(reason: Seq<char>) -> Option<ReasonView> {
    match prefix_match(reason, 0) {
        Some(m) => Some(m),
        None => if reason == "MENDIMARU_STUDIO_WINDOW_TIMEOUT"@ {
            Some(ReasonView { key: "error-script-studio-window-timeout"@, argument: Some(("minutes"@, seq!['4'])), number: Some(4) })
        } else {
            exact_match(reason, 0)
        },
    }
}

/// Turns a script's failure reason into a message key and its argument.
pub fn localize_windows_reason(reason: &str) -> (r: Option<ReasonMessage>)
    ensures
        match reason_spec(reason@) {
            Some(v) => r matches Some(m) && reason_view(m) == v,
            None => r is None,
        },
{
    let chars = to_chars(reason);
    let mut i: usize = 0;
    while i < PREFIX_RULES
        invariant
            i <= PREFIX_RULES,
            chars@ == reason@,
            prefix_match(reason@, 0) == prefix_match(reason@, i as int),
        decreases PREFIX_RULES - i,
    {
        let (code, key, name, numeric) = prefix_rule(i);
        if starts_with_str(&chars, code) {
            let code_chars = to_chars(code);
            let value = slice(&chars, code_chars.len(), chars.len());
            let number = if numeric { parse_u64(&value) } else { None };
            let m = ReasonMessage { key, argument: Some((name, string_from(&value))), number };
            assert(value@ =~= reason@.skip(code@.len() as int));
            return Some(m);
        }
        i = i + 1;
    }
    if equals_str(&chars, "MENDIMARU_STUDIO_WINDOW_TIMEOUT") {
        let mut four: Vec<char> = Vec::new();
        four.push('4');
        return Some(ReasonMessage {
            key: "error-script-studio-window-timeout",
            argument: Some(("minutes", string_from(&four))),
            number: Some(4),
        });
    }
    let mut k: usize = 0;
    while k < EXACT_RULES
        invariant
            k <= EXACT_RULES,
            chars@ == reason@,
            exact_match(reason@, 0) == exact_match(reason@, k as int),
            prefix_match(reason@, 0) is None,
            reason@ != "MENDIMARU_STUDIO_WINDOW_TIMEOUT"@,
        decreases EXACT_RULES - k,
    {
        let (code, key) = exact_rule(k);
        if equals_str(&chars, code) {
            return Some(ReasonMessage { key, argument: None, number: None });
        }
        k = k + 1;
    }
    None
}

/// The state of a guest operation as its report names it.
#[derive(Debug, Clone, Copy, PartialEq, Eq, Structural)]
pub enum WindowsOperationState {
    Starting,
    Running,
    Staging,
    Installing,
    Finalizing,
    Verifying,
    Succeeded,
    Failed,
    Unknown,
}

impl WindowsOperationState {
    pub open spec fn name_spec(self) -> Seq<char> {
        match self {
            WindowsOperationState::Starting => "starting"@,
            WindowsOperationState::Running => "running"@,
            WindowsOperationState::Staging => "staging"@,
            WindowsOperationState::Installing => "installing"@,
            WindowsOperationState::Finalizing => "finalizing"@,
            WindowsOperationState::Verifying => "verifying"@,
            WindowsOperationState::Succeeded => "succeeded"@,
            WindowsOperationState::Failed => "failed"@,
            WindowsOperationState::Unknown => "unknown"@,
        }
    }

    pub fn as_str(self) -> (r: &'static str)
        ensures
            r@ == self.name_spec(),
    {
        match self {
            WindowsOperationState::Starting => "starting",
            WindowsOperationState::Running => "running",
            WindowsOperationState::Staging => "staging",
            WindowsOperationState::Installing => "installing",
            WindowsOperationState::Finalizing => "finalizing",
            WindowsOperationState::Verifying => "verifying",
            WindowsOperationState::Succeeded => "succeeded",
            WindowsOperationState::Failed => "failed",
            WindowsOperationState::Unknown => "unknown",
        }
    }

    /// The state for a report's `state` text; anything else is `Unknown`.
    /// The state a report's state text names: the one whose name it is, and `Unknown` for a
    /// text that names no other state.
    pub open spec fn from_name_spec(text: Seq<char>) -> WindowsOperationState {
        if text == "starting"@ {
            WindowsOperationState::Starting
        } else if text == "running"@ {
            WindowsOperationState::Running
        } else if text == "staging"@ {
            WindowsOperationState::Staging
        } else if text == "installing"@ {
            WindowsOperationState::Installing
        } else if text == "finalizing"@ {
            WindowsOperationState::Finalizing
        } else if text == "verifying"@ {
            WindowsOperationState::Verifying
        } else if text == "succeeded"@ {
            WindowsOperationState::Succeeded
        } else if text == "failed"@ {
            WindowsOperationState::Failed
        } else {
            WindowsOperationState::Unknown
        }
    }

    pub fn from_report(state: &str) -> (s: WindowsOperationState)
        ensures
            s != WindowsOperationState::Unknown ==> s.name_spec() == state@,
            s == WindowsOperationState::from_name_spec(state@),
            forall|t: WindowsOperationState| t != WindowsOperationState::Unknown && #[trigger] t.name_spec() == state@
                ==> s == t,
    {
        proof {
            lemma_state_names_differ();
        }
        let c = to_chars(state);
        if equals_str(&c, "starting") {
            WindowsOperationState::Starting
        } else if equals_str(&c, "running") {
            WindowsOperationState::Running
        } else if equals_str(&c, "staging") {
            WindowsOperationState::Staging
        } else if equals_str(&c, "installing") {
            WindowsOperationState::Installing
        } else if equals_str(&c, "finalizing") {
            WindowsOperationState::Finalizing
        } else if equals_str(&c, "verifying") {
            WindowsOperationState::Verifying
        } else if equals_str(&c, "succeeded") {
            WindowsOperationState::Succeeded
        } else if equals_str(&c, "failed") {
            WindowsOperationState::Failed
        } else {
            WindowsOperationState::Unknown
        }
    }
}

/// The message key for a state the user sees named; other states are shown by name.
pub fn operation_state_key(state: WindowsOperationState) -> (r: Option<&'static str>)
    ensures
        r == (match state {
            WindowsOperationState::Starting => Some("operation-state-starting"),
            WindowsOperationState::Running => Some("operation-state-running"),
            WindowsOperationState::Succeeded => Some("operation-state-succeeded"),
            WindowsOperationState::Failed => Some("operation-state-failed"),
            _ => None::<&'static str>,
        }),
{
    match state {
        WindowsOperationState::Starting => Some("operation-state-starting"),
        WindowsOperationState::Running => Some("operation-state-running"),
        WindowsOperationState::Succeeded => Some("operation-state-succeeded"),
        WindowsOperationState::Failed => Some("operation-state-failed"),
        _ => None,
    }
}

/// The state names' lengths and first characters, which tell every two of them apart.
proof fn lemma_state_names_differ()
    ensures
        "starting"@.len() == 8 && "starting"@[0] == 's',
        "running"@.len() == 7 && "running"@[0] == 'r',
        "staging"@.len() == 7 && "staging"@[0] == 's',
        "installing"@.len() == 10 && "installing"@[0] == 'i',
        "finalizing"@.len() == 10 && "finalizing"@[0] == 'f',
        "verifying"@.len() == 9 && "verifying"@[0] == 'v',
        "succeeded"@.len() == 9 && "succeeded"@[0] == 's',
        "failed"@.len() == 6 && "failed"@[0] == 'f',
        "unknown"@.len() == 7 && "unknown"@[0] == 'u',
{
    reveal_strlit("starting");
    reveal_strlit("running");
    reveal_strlit("staging");
    reveal_strlit("installing");
    reveal_strlit("finalizing");
    reveal_strlit("verifying");
    reveal_strlit("succeeded");
    reveal_strlit("failed");
    reveal_strlit("unknown");
}

/// Reading a report's state inverts the state names: every state but `Unknown` is read back
/// from its own name, and only a text that names no such state reads as `Unknown`.
pub proof fn lemma_report_states_read_back_from_their_names(s: WindowsOperationState, text: Seq<char>)
    ensures
        s != WindowsOperationState::Unknown ==> WindowsOperationState::from_name_spec(s.name_spec()) == s,
        WindowsOperationState::from_name_spec(text) == WindowsOperationState::Unknown
            <==> (forall|t: WindowsOperationState| t != WindowsOperationState::Unknown ==> #[trigger] t.name_spec() != text),
        WindowsOperationState::from_name_spec("succeeded"@) == WindowsOperationState::Succeeded,
        WindowsOperationState::from_name_spec("failed"@) == WindowsOperationState::Failed,
{
    lemma_state_names_differ();
    if WindowsOperationState::from_name_spec(text) != WindowsOperationState::Unknown {
        let t = WindowsOperationState::from_name_spec(text);
        assert(t.name_spec() == text);
    }
}

} // verus!
