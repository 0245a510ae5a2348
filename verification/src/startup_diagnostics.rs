//! Startup failure diagnosis from container logs: only allowlisted signatures leave this
//! module; raw container output never does.
use vstd::prelude::*;
use crate::contracts::BackendErrorCode;
use crate::diagnostics::{
    opt_view, EnvironmentDiagnostic, EnvironmentDiagnosticAction, EnvironmentDiagnosticErrorCode,
    EnvironmentDiagnosticId, EnvironmentDiagnosticStatus,
};
use crate::outside::{spec_utf8_lossy, utf8_lossy};
use crate::startup::{StartupAttempt, StartupPhase};
use crate::text::{
    equals_str, lines, lines_spec, strip_prefix_or_keep, strip_prefix_or_same, strip_suffix_or_keep,
    strip_suffix_or_same, to_chars, trim, trim_spec,
};

verus! {

/// How much of the log is read.
pub const LOG_BYTES: usize = 16384;

/// How many lines of the log are read.
pub const LOG_LINES: usize = 100;

/// The line the guest image logs when QEMU does not boot the machine in time.
pub const QEMU_TIMEOUT: &'static str = "ERROR: Timeout while waiting for QEMU to boot the machine!";

pub const SGR_RED: &'static str = "\u{1b}[1;31m";

pub const SGR_RESET: &'static str = "\u{1b}[0m";

pub const PROMPT: &'static str = "❯ ";

/// Whether a log line is the QEMU boot timeout, possibly wrapped in red and reset SGR codes
/// and behind the logger's prompt.
pub open spec fn qemu_timeout_line(line: Seq<char>) -> bool {
    let a = trim_spec(line);
    let b = strip_prefix_or_same(a, SGR_RED@);
    let c = trim_spec(strip_suffix_or_same(b, SGR_RESET@));
    strip_prefix_or_same(c, PROMPT@) == QEMU_TIMEOUT@
}

/// The code for a container log: the QEMU boot timeout when one of the first `LOG_LINES`
/// lines of its first `LOG_BYTES` bytes is that signature, else nothing.
pub open spec fn has_qemu_line(ls: Seq<Seq<char>>) -> bool {
    exists|i: int| 0 <= i < ls.len() && i < LOG_LINES && qemu_timeout_line(#[trigger] ls[i])
}

pub open spec fn bounded_log(bytes: Seq<u8>) -> Seq<u8> {
    if bytes.len() > LOG_BYTES { bytes.take(LOG_BYTES as int) } else { bytes }
}

/// The code for a container log's bytes: that of the lossy UTF-8 text of its first
/// `LOG_BYTES` bytes.
pub open spec fn classify_spec(bytes: Seq<u8>) -> Option<BackendErrorCode> {
    classify_text_spec(spec_utf8_lossy(bounded_log(bytes)))
}

fn qemu_timeout_line_exec(line: &[char]) -> (b: bool)
    ensures
        b == qemu_timeout_line(line@),
{
    let a = trim(line);
    let b = strip_prefix_or_keep(&a, SGR_RED);
    let c0 = strip_suffix_or_keep(&b, SGR_RESET);
    let c = trim(&c0);
    let d = strip_prefix_or_keep(&c, PROMPT);
    equals_str(&d, QEMU_TIMEOUT)
}

/// Classifies a container log by its allowlisted signatures.
pub fn classify(bytes: &[u8]) -> (r: Option<BackendErrorCode>)
    ensures
        r == classify_spec(bytes@),
        vstd::utf8::valid_utf8(bounded_log(bytes@))
            ==> r == classify_text_spec(vstd::utf8::decode_utf8(bounded_log(bytes@))),
{
    let limit = if bytes.len() > LOG_BYTES { LOG_BYTES } else { bytes.len() };
    let mut bounded: Vec<u8> = Vec::new();
    let mut k: usize = 0;
    while k < limit
        invariant
            k <= limit <= bytes.len(),
            bounded@ == bytes@.take(k as int),
        decreases limit - k,
    {
        bounded.push(bytes[k]);
        assert(bytes@.take(k as int).push(bytes@[k as int]) =~= bytes@.take(k as int + 1));
        k = k + 1;
    }
    proof {
        if bytes.len() <= LOG_BYTES {
            assert(bytes@.take(bytes.len() as int) =~= bytes@);
        }
    }
    let text = utf8_lossy(&bounded);
    classify_text(text.as_str())
}

/// The code for a container log's text: the QEMU boot timeout when one of its first
/// `LOG_LINES` lines is that signature, else nothing.
pub open spec fn classify_text_spec(text: Seq<char>) -> Option<BackendErrorCode> {
    if has_qemu_line(lines_spec(text)) {
        Some(BackendErrorCode::QemuBootTimeout)
    } else {
        None
    }
}

/// Classifies a container log's decoded text by its allowlisted signatures.
pub fn classify_text(text: &str) -> (r: Option<BackendErrorCode>)
    ensures
        r == classify_text_spec(text@),
{
    let chars = to_chars(text);
    let ls = lines(&chars);
    let mut i: usize = 0;
    while i < ls.len() && i < LOG_LINES
        invariant
            i <= ls.len(),
            chars@ == text@,
            ls@.len() == lines_spec(chars@).len(),
            forall|j: int| 0 <= j < ls@.len() ==> (#[trigger] ls@[j])@ == lines_spec(chars@)[j],
            forall|j: int| 0 <= j < i ==> !qemu_timeout_line(#[trigger] lines_spec(chars@)[j]),
        decreases ls.len() - i,
    {
        if qemu_timeout_line_exec(&ls[i]) {
            proof {
                let lsp = lines_spec(text@);
                assert(qemu_timeout_line(lsp[i as int]));
            }
            return Some(BackendErrorCode::QemuBootTimeout);
        }
        i = i + 1;
    }
    None
}

/// The diagnostic error code a failed startup is shown with, for the codes it has one.
pub open spec fn startup_diagnostic_code(code: Option<BackendErrorCode>) -> Option<EnvironmentDiagnosticErrorCode> {
    match code {
        Some(BackendErrorCode::QemuBootTimeout) => Some(EnvironmentDiagnosticErrorCode::QemuBootTimeout),
        Some(BackendErrorCode::ContainerExitedDuringStartup) => Some(EnvironmentDiagnosticErrorCode::ContainerExitedDuringStartup),
        Some(BackendErrorCode::GuestStartupTimeout) => Some(EnvironmentDiagnosticErrorCode::GuestStartupTimeout),
        Some(BackendErrorCode::ExternalProcessTimeout) => Some(EnvironmentDiagnosticErrorCode::ExternalProcessTimeout),
        _ => None,
    }
}

/// Whether `after` is `before` with its first container check, at `k`, marked failed with
/// `code` and the action to open WinBoat, and its observation dropped.
pub open spec fn marked_at(
    before: Seq<EnvironmentDiagnostic>,
    after: Seq<EnvironmentDiagnostic>,
    k: int,
    code: EnvironmentDiagnosticErrorCode,
) -> bool {
    &&& 0 <= k < before.len()
    &&& before[k].id == EnvironmentDiagnosticId::Container
    &&& forall|j: int| 0 <= j < k ==> (#[trigger] before[j]).id != EnvironmentDiagnosticId::Container
    &&& forall|j: int| 0 <= j < before.len() && j != k ==> #[trigger] after[j] == before[j]
    &&& after[k].id == EnvironmentDiagnosticId::Container
    &&& after[k].status == EnvironmentDiagnosticStatus::Failure
    &&& after[k].error_code == Some(code)
    &&& after[k].action == Some(EnvironmentDiagnosticAction::OpenWinboat)
    &&& after[k].observed is None
}

/// The diagnostic code of a failed attempt, for the codes it has one.
pub open spec fn attempt_code(attempt: Option<&StartupAttempt>) -> Option<EnvironmentDiagnosticErrorCode> {
    match attempt {
        Some(a) => if a.phase == StartupPhase::StartupFailed { startup_diagnostic_code(a.error_code) } else { None },
        None => None,
    }
}

/// Whether `after` is what applying `code` to `before` gives.
pub open spec fn applied(
    code: Option<EnvironmentDiagnosticErrorCode>,
    before: Seq<EnvironmentDiagnostic>,
    after: Seq<EnvironmentDiagnostic>,
) -> bool {
    match code {
        None => after == before,
        Some(c) => {
            ||| (forall|i: int| 0 <= i < before.len() ==> (#[trigger] before[i]).id != EnvironmentDiagnosticId::Container)
                && after == before
            ||| exists|k: int| #[trigger] marked_at(before, after, k, c)
        },
    }
}

/// Marks the container check failed, with the startup's code and the action to open
/// WinBoat, when the attempt failed with a code that has a diagnostic. Nothing of the
/// previous observation stays.
pub fn apply(attempt: Option<&StartupAttempt>, diagnostics: &mut Vec<EnvironmentDiagnostic>)
    ensures
        final(diagnostics)@.len() == old(diagnostics)@.len(),
        applied(attempt_code(attempt), old(diagnostics)@, final(diagnostics)@),
{
    let failed = match attempt {
        Some(a) => a,
        None => {
            return;
        },
    };
    if failed.phase != StartupPhase::StartupFailed {
        return;
    }
    let code = match failed.error_code {
        Some(BackendErrorCode::QemuBootTimeout) => EnvironmentDiagnosticErrorCode::QemuBootTimeout,
        Some(BackendErrorCode::ContainerExitedDuringStartup) => EnvironmentDiagnosticErrorCode::ContainerExitedDuringStartup,
        Some(BackendErrorCode::GuestStartupTimeout) => EnvironmentDiagnosticErrorCode::GuestStartupTimeout,
        Some(BackendErrorCode::ExternalProcessTimeout) => EnvironmentDiagnosticErrorCode::ExternalProcessTimeout,
        _ => {
            return;
        },
    };
    let mut i: usize = 0;
    while i < diagnostics.len()
        invariant
            i <= diagnostics@.len(),
            diagnostics@ == old(diagnostics)@,
            attempt == Some(failed),
            failed.phase == StartupPhase::StartupFailed,
            startup_diagnostic_code(failed.error_code) == Some(code),
            forall|j: int| 0 <= j < i ==> (#[trigger] diagnostics@[j]).id != EnvironmentDiagnosticId::Container,
        decreases diagnostics.len() - i,
    {
        if diagnostics[i].id == EnvironmentDiagnosticId::Container {
            let updated = EnvironmentDiagnostic {
                id: EnvironmentDiagnosticId::Container,
                status: EnvironmentDiagnosticStatus::Failure,
                observed: None,
                action: Some(EnvironmentDiagnosticAction::OpenWinboat),
                error_code: Some(code),
            };
            diagnostics.set(i, updated);
            proof {
                let k = i as int;
                assert(old(diagnostics)@[k].id == EnvironmentDiagnosticId::Container);
                assert(forall|j: int| 0 <= j < old(diagnostics)@.len() && j != k ==> #[trigger] diagnostics@[j] == old(diagnostics)@[j]);
                assert(diagnostics@[k].observed is None);
                assert(forall|j: int| 0 <= j < k ==> (#[trigger] old(diagnostics)@[j]).id != EnvironmentDiagnosticId::Container);
                assert(marked_at(old(diagnostics)@, diagnostics@, k, code));
            }
            return;
        }
        i = i + 1;
    }
}

} // verus!
