//! Watching a guest operation run through RemoteApp: each second the caller reads the
//! operation's report and checks the RemoteApp process; this decides when a report is
//! passed on, and when and how the operation ends.
use vstd::prelude::*;
use crate::windows_reason::WindowsOperationState;
use crate::diagnostics::CommandFailureKind;
use crate::bounded_command::{failure_reason as command_failure_reason, CommandFailure};

verus! {

/// How long RemoteApp may be gone before the operation is judged by its report.
pub const REMOTE_APP_START_GRACE_MS: u64 = 20000;
/// How long a report with a percentage counts as live after it last changed.
pub const INSTALL_REPORT_STALE_MS: u64 = 30000;
/// How long the caller waits between two looks.
pub const POLL_INTERVAL_MS: u64 = 1000;

/// What one read of the operation's report gave, when it parsed.
#[derive(Debug)]
pub struct ReportObservation {
    pub state: WindowsOperationState,
    /// The percentage in tenths of a percent, rounded, if the report carries one.
    pub percentage_tenths: Option<i32>,
    pub estimated: bool,
    pub timestamp: String,
}

/// What checking the RemoteApp process gave.
pub enum RemoteAppCheck {
    Running,
    /// It exited; the exit status as text.
    Exited(String),
    /// Its state could not be read; the error's text.
    Unreadable(String),
}

/// How a watched operation ended.
#[derive(Debug)]
pub enum WatchEnd {
    /// The report says it succeeded.
    Succeeded,
    /// The report says it failed.
    Failed,
    /// RemoteApp's state could not be read; the error's text.
    RemoteAppUnreadable(String),
    /// The operation's deadline passed.
    TimedOut,
    /// RemoteApp ended and stayed gone while the report stood still in `state`; its exit
    /// status.
    RemoteAppEnded { state: WindowsOperationState, status: String },
    /// RemoteApp ended before the operation reported anything; its exit status. A retry may
    /// succeed.
    NotStarted { status: String },
}

/// The watch of one operation.
#[derive(Debug)]
pub struct OperationWatch {
    pub timeout_ms: u64,
    pub last_state: Option<WindowsOperationState>,
    /// The state, percentage and estimate of the last report passed on.
    pub last_signature: Option<(WindowsOperationState, Option<i32>, bool)>,
    pub last_timestamp: Option<String>,
    /// When the report's timestamp last changed.
    pub last_changed_ms: Option<u64>,
    pub last_had_percentage: bool,
    /// When RemoteApp was seen gone, and its exit status.
    pub remote_exited: Option<(u64, String)>,
}

impl OperationWatch {
    pub fn new(timeout_seconds: u64) -> (watch: OperationWatch)
        requires
            timeout_seconds <= u64::MAX / 1000,
        ensures
            watch.timeout_ms == timeout_seconds * 1000,
            watch.last_state is None,
            watch.last_signature is None,
            watch.last_timestamp is None,
            watch.last_changed_ms is None,
            !watch.last_had_percentage,
            watch.remote_exited is None,
    {
        OperationWatch {
            timeout_ms: timeout_seconds * 1000,
            last_state: None,
            last_signature: None,
            last_timestamp: None,
            last_changed_ms: None,
            last_had_percentage: false,
            remote_exited: None,
        }
    }

    /// Takes a report read at `now_ms`: remembers its state, whether it has a percentage and
    /// when its timestamp last changed; passes it on when its state, percentage or estimate
    /// changed; and ends the operation when it succeeded or failed.
    pub fn observe_report(&mut self, now_ms: u64, report: &ReportObservation) -> (verdict: (bool, Option<WatchEnd>))
        ensures
            final(self).timeout_ms == old(self).timeout_ms,
            final(self).remote_exited == old(self).remote_exited,
            final(self).last_state == Some(report.state),
            final(self).last_had_percentage == (report.percentage_tenths is Some),
            (old(self).last_timestamp matches Some(t) && t@ == report.timestamp@) ==> (
                final(self).last_changed_ms == old(self).last_changed_ms
                && final(self).last_timestamp == old(self).last_timestamp),
            !(old(self).last_timestamp matches Some(t) && t@ == report.timestamp@) ==> (
                final(self).last_changed_ms == Some(now_ms)
                && (final(self).last_timestamp matches Some(t) && t@ == report.timestamp@)),
            verdict.0 == (old(self).last_signature != Some((report.state, report.percentage_tenths, report.estimated))),
            final(self).last_signature == Some((report.state, report.percentage_tenths, report.estimated)),
            verdict.1 is Some <==> (report.state == WindowsOperationState::Succeeded || report.state == WindowsOperationState::Failed),
            report.state == WindowsOperationState::Succeeded ==> verdict.1 matches Some(WatchEnd::Succeeded),
            report.state == WindowsOperationState::Failed ==> verdict.1 matches Some(WatchEnd::Failed),
    {
        self.last_state = Some(report.state);
        self.last_had_percentage = report.percentage_tenths.is_some();
        let same_timestamp = match &self.last_timestamp {
            Some(t) => *t == report.timestamp,
            None => false,
        };
        if !same_timestamp {
            self.last_timestamp = Some(report.timestamp.clone());
            self.last_changed_ms = Some(now_ms);
        }
        let signature = (report.state, report.percentage_tenths, report.estimated);
        let pass_on = match self.last_signature {
            Some(last) => !(last.0 == signature.0 && last.1 == signature.1 && last.2 == signature.2),
            None => true,
        };
        self.last_signature = Some(signature);
        let end = match report.state {
            WindowsOperationState::Succeeded => Some(WatchEnd::Succeeded),
            WindowsOperationState::Failed => Some(WatchEnd::Failed),
            _ => None,
        };
        (pass_on, end)
    }

    /// Whether RemoteApp still has to be checked: until it is seen gone.
    pub fn checks_remote_app(&self) -> (b: bool)
        ensures
            b == (self.remote_exited is None),
    {
        self.remote_exited.is_none()
    }

    /// The report is live: it carries a percentage and changed less than
    /// `INSTALL_REPORT_STALE_MS` before `now_ms`.
    pub open spec fn report_live(&self, now_ms: u64) -> bool {
        self.last_had_percentage && (self.last_changed_ms matches Some(changed) && now_ms - changed < INSTALL_REPORT_STALE_MS)
    }

    /// After the report, at `now_ms`: takes the RemoteApp check when one was due, then ends
    /// the operation when its state could not be read, when the deadline passed, or when
    /// RemoteApp has been gone for the grace period and the report is not live. Returns the
    /// end, if any.
    pub fn observe_rest(&mut self, now_ms: u64, remote: Option<RemoteAppCheck>) -> (end: Option<WatchEnd>)
        requires
            old(self).last_changed_ms matches Some(changed) ==> changed <= now_ms,
            old(self).remote_exited matches Some(exited) ==> exited.0 <= now_ms,
        ensures
            final(self).timeout_ms == old(self).timeout_ms,
            final(self).last_state == old(self).last_state,
            final(self).last_signature == old(self).last_signature,
            final(self).last_changed_ms == old(self).last_changed_ms,
            final(self).last_had_percentage == old(self).last_had_percentage,
            final(self).remote_exited == (match (old(self).remote_exited, remote) {
                (None, Some(RemoteAppCheck::Exited(status))) => Some((now_ms, status)),
                _ => old(self).remote_exited,
            }),
            old(self).remote_exited is None ==> (remote matches Some(RemoteAppCheck::Unreadable(e))
                ==> (end matches Some(WatchEnd::RemoteAppUnreadable(x)) && x@ == e@)),
            !(old(self).remote_exited is None && remote matches Some(RemoteAppCheck::Unreadable(_))) ==> {
                if now_ms >= old(self).timeout_ms {
                    end matches Some(WatchEnd::TimedOut)
                } else {
                    match final(self).remote_exited {
                        Some((exited, status)) => if now_ms - exited >= REMOTE_APP_START_GRACE_MS && !final(self).report_live(now_ms) {
                            match old(self).last_state {
                                Some(state) => end matches Some(WatchEnd::RemoteAppEnded { state: s, status: x }) && s == state && x == status,
                                None => end matches Some(WatchEnd::NotStarted { status: x }) && x == status,
                            }
                        } else {
                            end is None
                        },
                        None => end is None,
                    }
                }
            },
    {
        if self.remote_exited.is_none() {
            match remote {
                Some(RemoteAppCheck::Exited(status)) => {
                    self.remote_exited = Some((now_ms, status));
                },
                Some(RemoteAppCheck::Unreadable(error)) => {
                    return Some(WatchEnd::RemoteAppUnreadable(error));
                },
                _ => {},
            }
        }
        if now_ms >= self.timeout_ms {
            return Some(WatchEnd::TimedOut);
        }
        match &self.remote_exited {
            Some((exited, status)) => {
                if now_ms - *exited >= REMOTE_APP_START_GRACE_MS {
                    let live = self.last_had_percentage && match self.last_changed_ms {
                        Some(changed) => now_ms - changed < INSTALL_REPORT_STALE_MS,
                        None => false,
                    };
                    if live {
                        return None;
                    }
                    return match self.last_state {
                        Some(state) => Some(WatchEnd::RemoteAppEnded { state, status: status.clone() }),
                        None => Some(WatchEnd::NotStarted { status: status.clone() }),
                    };
                }
                None
            },
            None => None,
        }
    }
}

/// The reason a failed report gives: its error when it has a non-empty one, else its
/// message.
pub open spec fn failure_reason_spec(error: Option<Seq<char>>, message: Seq<char>) -> Seq<char> {
    match error {
        Some(e) => if e.len() > 0 { e } else { message },
        None => message,
    }
}

pub fn failure_reason(error: &Option<String>, message: &str) -> (reason: String)
    ensures
        reason@ == failure_reason_spec(match error { Some(e) => Some(e@), None => None }, message@),
{
    match error {
        Some(e) => {
            if crate::text::to_chars(e).len() > 0 {
                return e.clone();
            }
            crate::text::string_of(message)
        },
        None => crate::text::string_of(message),
    }
}


pub const REMOTE_APP_START_ATTEMPTS: usize = 2;
pub const REMOTE_APP_RETRY_DELAY_SECONDS: u64 = 2;
pub const REMOTE_APP_ENDPOINT_READY_TIMEOUT_MS: u64 = 15000;
pub const REMOTE_APP_ENDPOINT_POLL_MS: u64 = 250;

/// A guest operation that did not succeed.
#[derive(Debug)]
pub struct WindowsOperationFailure {
    pub message: String,
    pub exit_code: Option<i32>,
    pub retryable: bool,
    pub failure_kind: Option<CommandFailureKind>,
}

impl WindowsOperationFailure {
    /// A failure described by `message` alone, which a retry does not clear.
    pub fn from_message(message: String) -> (f: WindowsOperationFailure)
        ensures
            f.message == message,
            f.exit_code is None,
            !f.retryable,
            f.failure_kind is None,
    {
        WindowsOperationFailure { message, exit_code: None, retryable: false, failure_kind: None }
    }

    /// A local command that could not be run to its end: a retry may clear it.
    pub fn from_command(failure: &CommandFailure) -> (f: WindowsOperationFailure)
        ensures
            f.message@ == failure.operation@ + " "@ + command_failure_reason(failure.kind) + (match failure.source {
                Some(s) => ": "@ + s@,
                None => Seq::empty(),
            }),
            f.exit_code is None,
            f.retryable,
            f.failure_kind == Some(failure.kind),
    {
        WindowsOperationFailure { message: failure.message(), exit_code: None, retryable: true, failure_kind: Some(failure.kind) }
    }
}

/// Whether a failed RemoteApp attempt is tried again: only a retryable failure, and only
/// while attempts remain.
pub fn retries_after(attempt: usize, retryable: bool) -> (again: bool)
    requires
        attempt < REMOTE_APP_START_ATTEMPTS,
    ensures
        again == (retryable && attempt + 1 < REMOTE_APP_START_ATTEMPTS),
{
    retryable && attempt + 1 < REMOTE_APP_START_ATTEMPTS
}

/// While waiting for the RemoteApp endpoint to accept connections: how long to sleep before
/// the next try, or the retryable failure once `timeout_ms` passed.
pub fn endpoint_wait(elapsed_ms: u64, timeout_ms: u64) -> (r: Result<u64, WindowsOperationFailure>)
    ensures
        elapsed_ms >= timeout_ms <==> r is Err,
        r matches Ok(sleep) ==> sleep == (if timeout_ms - elapsed_ms < REMOTE_APP_ENDPOINT_POLL_MS { (timeout_ms - elapsed_ms) as u64 } else { REMOTE_APP_ENDPOINT_POLL_MS }),
        r matches Err(f) ==> f.retryable && f.failure_kind == Some(CommandFailureKind::Wait) && f.exit_code is None
            && f.message@ == "the WinBoat RemoteApp endpoint was not ready before the deadline"@,
{
    if elapsed_ms >= timeout_ms {
        return Err(WindowsOperationFailure {
            message: crate::text::string_of("the WinBoat RemoteApp endpoint was not ready before the deadline"),
            exit_code: None,
            retryable: true,
            failure_kind: Some(CommandFailureKind::Wait),
        });
    }
    let remaining = timeout_ms - elapsed_ms;
    Ok(if remaining < REMOTE_APP_ENDPOINT_POLL_MS { remaining } else { REMOTE_APP_ENDPOINT_POLL_MS })
}

} // verus!
