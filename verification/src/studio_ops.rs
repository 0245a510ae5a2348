//! Host-side rules for Studio Pro operations: operation identifiers, installer digests,
//! install progress, incomplete-launch identities and post-launch cleanup.
use vstd::prelude::*;
use crate::outside::{parse_rfc3339, spec_rfc3339_instant};
use crate::text::{
    ascii_alphanumeric, equals_str, has_prefix, is_ascii_alphanumeric, is_lower_hex_digit,
    lower_hex_digit, parse_i64, parse_i64_spec, parse_u32, parse_u32_spec, split_once,
    split_once_spec, string_from, string_of, strip_prefix_str, to_chars, utf8_len,
    utf8_length_within,
};

verus! {

pub open spec fn operation_name_char(c: char) -> bool {
    is_ascii_alphanumeric(c) || c == '-' || c == '.'
}

/// The text with every character but ASCII letters, digits, `-` and `.` removed.
pub open spec fn safe_operation_name_spec(s: Seq<char>) -> Seq<char>
    decreases s.len(),
{
    if s.len() == 0 {
        s
    } else {
        let init = safe_operation_name_spec(s.drop_last());
        if operation_name_char(s.last()) { init.push(s.last()) } else { init }
    }
}

/// Keeps only the characters that are safe in a host file name.
pub fn safe_operation_name(value: &str) -> (r: String)
    ensures
        r@ == safe_operation_name_spec(value@),
{
    let chars = to_chars(value);
    let mut out: Vec<char> = Vec::new();
    let mut i: usize = 0;
    while i < chars.len()
        invariant
            i <= chars.len(),
            out@ == safe_operation_name_spec(chars@.take(i as int)),
        decreases chars.len() - i,
    {
        assert(chars@.take(i as int + 1).drop_last() =~= chars@.take(i as int));
        let c = chars[i];
        if ascii_alphanumeric(c) || c == '-' || c == '.' {
            out.push(c);
        }
        i = i + 1;
    }
    assert(chars@.take(chars.len() as int) =~= chars@);
    string_from(&out)
}

/// An operation identifier: 1 to 160 bytes, all of them safe in a file name.
pub open spec fn operation_id_valid(s: Seq<char>) -> bool {
    s.len() > 0 && utf8_len(s) <= 160 && safe_operation_name_spec(s) == s
}

/// Accepts an operation identifier that can name files on the host as it is.
pub fn validate_operation_id(value: &str) -> (r: Result<(), String>)
    ensures
        r is Ok <==> operation_id_valid(value@),
        r matches Err(e) ==> e@ == "error-operation-id-invalid"@,
{
    let chars = to_chars(value);
    let within = utf8_length_within(&chars, 160);
    let safe = safe_operation_name(value);
    let safe_chars = to_chars(safe.as_str());
    if chars.len() > 0 && within.is_some() && crate::text::chars_equal(&safe_chars, &chars) {
        Ok(())
    } else {
        Err(string_of("error-operation-id-invalid"))
    }
}

/// Accepts a SHA-256 digest in 64 lower-case hexadecimal digits.
pub fn validate_sha256(value: &str) -> (r: Result<(), String>)
    ensures
        r is Ok <==> crate::security::lower_hex_spec(value@, 64),
        r matches Err(e) ==> e@ == "error-installer-sha256-invalid"@,
{
    let chars = to_chars(value);
    if crate::security::is_lower_hex(&chars, 64) {
        Ok(())
    } else {
        Err(string_of("error-installer-sha256-invalid"))
    }
}

#[derive(Debug, Clone, Copy, PartialEq, Eq, Structural)]
pub enum StudioInstallPhase {
    Staging,
    Installing,
    Finalizing,
    Verifying,
}

/// Percentages are carried in hundredths of a percent.
pub const FULL_PERCENT: u32 = 10000;

/// One progress update of an installation.
#[derive(Debug, Clone, Copy, PartialEq, Eq, Structural)]
pub struct StudioInstallProgress {
    pub phase: StudioInstallPhase,
    /// In hundredths of a percent, from 0 to `FULL_PERCENT`.
    pub percentage: Option<u32>,
    pub estimated: bool,
}

/// Which install phases were shown, so that phases the polls missed are shown too.
#[derive(Debug, Clone, Copy, PartialEq, Eq, Structural)]
pub struct InstallProgressState {
    pub installing: bool,
    pub finalizing: bool,
    pub verifying: bool,
    pub verification_complete: bool,
}

pub open spec fn synthesized(phase: StudioInstallPhase) -> StudioInstallProgress {
    StudioInstallProgress { phase, percentage: Some(FULL_PERCENT), estimated: true }
}

/// The updates that showing `phase` first needs: the earlier phases not shown yet.
pub open spec fn catch_up(s: InstallProgressState, phase: StudioInstallPhase) -> Seq<StudioInstallProgress> {
    let installing = if !s.installing { seq![synthesized(StudioInstallPhase::Installing)] } else { Seq::empty() };
    let finalizing = if !s.finalizing { seq![synthesized(StudioInstallPhase::Finalizing)] } else { Seq::empty() };
    match phase {
        StudioInstallPhase::Finalizing => installing,
        StudioInstallPhase::Verifying => installing + finalizing,
        _ => Seq::empty(),
    }
}

impl InstallProgressState {
    pub fn new() -> (s: Self)
        ensures
            !s.installing && !s.finalizing && !s.verifying && !s.verification_complete,
    {
        InstallProgressState { installing: false, finalizing: false, verifying: false, verification_complete: false }
    }

    /// The updates for a report of `phase` at `percentage` (hundredths of a percent): the
    /// phases it skipped, shown as complete estimates, then the report itself with its
    /// percentage clamped to 100 %. A report without a percentage shows nothing.
    pub fn observe(&mut self, phase: StudioInstallPhase, percentage: Option<u32>, estimated: bool) -> (updates: Vec<StudioInstallProgress>)
        ensures
            percentage is None ==> updates@.len() == 0 && *final(self) == *old(self),
            percentage matches Some(p) ==> {
                &&& updates@ == catch_up(*old(self), phase).push(StudioInstallProgress {
                    phase,
                    percentage: Some(if p > FULL_PERCENT { FULL_PERCENT } else { p }),
                    estimated,
                })
                &&& final(self).installing == (old(self).installing || phase != StudioInstallPhase::Staging)
                &&& final(self).finalizing == (old(self).finalizing || phase == StudioInstallPhase::Finalizing || phase == StudioInstallPhase::Verifying)
                &&& final(self).verifying == (old(self).verifying || phase == StudioInstallPhase::Verifying)
                &&& final(self).verification_complete == (if phase == StudioInstallPhase::Verifying { p >= FULL_PERCENT } else { old(self).verification_complete })
            },
    {
        let mut updates: Vec<StudioInstallProgress> = Vec::new();
        let p = match percentage {
            Some(p) => p,
            None => {
                return updates;
            },
        };
        match phase {
            StudioInstallPhase::Staging => {},
            StudioInstallPhase::Installing => {
                self.installing = true;
            },
            StudioInstallPhase::Finalizing => {
                self.ensure_installing(&mut updates);
                self.finalizing = true;
            },
            StudioInstallPhase::Verifying => {
                self.ensure_installing(&mut updates);
                self.ensure_finalizing(&mut updates);
                self.verifying = true;
                self.verification_complete = p >= FULL_PERCENT;
            },
        }
        let clamped = if p > FULL_PERCENT { FULL_PERCENT } else { p };
        updates.push(StudioInstallProgress { phase, percentage: Some(clamped), estimated });
        proof {
            assert(updates@ =~= catch_up(*old(self), phase).push(StudioInstallProgress { phase, percentage: Some(clamped), estimated }));
        }
        updates
    }

    /// The updates when the installation succeeded: every phase not shown yet, and a final
    /// exact verification at 100 % unless a complete verification was already shown.
    pub fn complete(&mut self) -> (updates: Vec<StudioInstallProgress>)
        ensures
            updates@ == catch_up(*old(self), StudioInstallPhase::Verifying) + (if !old(self).verifying || !old(self).verification_complete {
                seq![StudioInstallProgress { phase: StudioInstallPhase::Verifying, percentage: Some(FULL_PERCENT), estimated: false }]
            } else {
                Seq::empty()
            }),
            final(self).installing && final(self).finalizing && final(self).verifying && final(self).verification_complete,
    {
        let mut updates: Vec<StudioInstallProgress> = Vec::new();
        self.ensure_installing(&mut updates);
        self.ensure_finalizing(&mut updates);
        if !self.verifying || !self.verification_complete {
            updates.push(StudioInstallProgress { phase: StudioInstallPhase::Verifying, percentage: Some(FULL_PERCENT), estimated: false });
            self.verifying = true;
            self.verification_complete = true;
        }
        proof {
            let tail = if !old(self).verifying || !old(self).verification_complete {
                seq![StudioInstallProgress { phase: StudioInstallPhase::Verifying, percentage: Some(FULL_PERCENT), estimated: false }]
            } else {
                Seq::empty()
            };
            assert(updates@ =~= catch_up(*old(self), StudioInstallPhase::Verifying) + tail);
        }
        updates
    }

    fn ensure_installing(&mut self, updates: &mut Vec<StudioInstallProgress>)
        ensures
            final(self).installing,
            final(self).finalizing == old(self).finalizing,
            final(self).verifying == old(self).verifying,
            final(self).verification_complete == old(self).verification_complete,
            final(updates)@ == old(updates)@ + (if !old(self).installing { seq![synthesized(StudioInstallPhase::Installing)] } else { Seq::empty() }),
    {
        if !self.installing {
            updates.push(StudioInstallProgress { phase: StudioInstallPhase::Installing, percentage: Some(FULL_PERCENT), estimated: true });
            self.installing = true;
        }
        assert(updates@ =~= old(updates)@ + (if !old(self).installing { seq![synthesized(StudioInstallPhase::Installing)] } else { Seq::empty() }));
    }

    fn ensure_finalizing(&mut self, updates: &mut Vec<StudioInstallProgress>)
        ensures
            final(self).finalizing,
            final(self).installing == old(self).installing,
            final(self).verifying == old(self).verifying,
            final(self).verification_complete == old(self).verification_complete,
            final(updates)@ == old(updates)@ + (if !old(self).finalizing { seq![synthesized(StudioInstallPhase::Finalizing)] } else { Seq::empty() }),
    {
        if !self.finalizing {
            updates.push(StudioInstallProgress { phase: StudioInstallPhase::Finalizing, percentage: Some(FULL_PERCENT), estimated: true });
            self.finalizing = true;
        }
        assert(updates@ =~= old(updates)@ + (if !old(self).finalizing { seq![synthesized(StudioInstallPhase::Finalizing)] } else { Seq::empty() }));
    }
}

/// A successful installation always ends having shown every phase, and a second completion
/// shows nothing more.
pub proof fn lemma_complete_is_final(s: InstallProgressState)
    requires
        s.installing && s.finalizing && s.verifying && s.verification_complete,
    ensures
        catch_up(s, StudioInstallPhase::Verifying).len() == 0,
{
}


/// The .NET ticks of the Unix epoch.
pub const WINDOWS_EPOCH_TICKS: i64 = 621355968000000000;

pub const TICKS_PER_SECOND: i64 = 10000000;

/// An installed Studio Pro version.
#[derive(Debug, Clone, PartialEq, Eq)]
pub struct StudioVersion {
    pub version: String,
    pub display_name: String,
    pub executable_path: String,
    pub install_root: String,
    pub source: String,
    pub removable: bool,
}

/// A Studio session as the guest reports it.
#[derive(Debug, Clone, PartialEq, Eq)]
pub struct WindowsStudioSessionReport {
    pub session_id: String,
    pub version: String,
    pub process_id: u32,
    pub started_at: String,
    pub project_name: Option<String>,
    pub has_window: bool,
}

/// The process ID a Studio session ID starts with: `studio-<pid>-...`.
pub open spec fn studio_process_id_spec(session_id: Seq<char>) -> Option<u32> {
    if has_prefix(session_id, "studio-"@) {
        match split_once_spec(session_id.skip("studio-"@.len() as int), '-') {
            Some((pid, _)) => parse_u32_spec(pid),
            None => None,
        }
    } else {
        None
    }
}

pub fn studio_process_id(session_id: &str) -> (r: Option<u32>)
    ensures
        r == studio_process_id_spec(session_id@),
{
    let chars = to_chars(session_id);
    let rest = match strip_prefix_str(&chars, "studio-") {
        Some(rest) => rest,
        None => {
            return None;
        },
    };
    match split_once(&rest, '-') {
        Some((pid, _)) => parse_u32(&pid),
        None => None,
    }
}

/// The .NET ticks of an instant given as Unix seconds and nanoseconds, when they fit.
pub open spec fn instant_ticks(seconds: i64, nanos: u32) -> Option<i64> {
    let total = WINDOWS_EPOCH_TICKS + seconds * TICKS_PER_SECOND + nanos / 100;
    if i64::MIN <= seconds * TICKS_PER_SECOND <= i64::MAX
        && i64::MIN <= WINDOWS_EPOCH_TICKS + seconds * TICKS_PER_SECOND <= i64::MAX
        && i64::MIN <= total <= i64::MAX {
        Some(total as i64)
    } else {
        None
    }
}

/// The ticks, computed with the checked arithmetic that refuses an overflow.
pub fn ticks_of(seconds: i64, nanos: u32) -> (r: Option<i64>)
    ensures
        r == instant_ticks(seconds, nanos),
{
    let scaled = match seconds.checked_mul(TICKS_PER_SECOND) {
        Some(v) => v,
        None => {
            return None;
        },
    };
    let shifted = match WINDOWS_EPOCH_TICKS.checked_add(scaled) {
        Some(v) => v,
        None => {
            return None;
        },
    };
    shifted.checked_add((nanos / 100) as i64)
}

/// Why an incomplete launch's identity is refused.
#[derive(Debug, Clone, Copy, PartialEq, Eq, Structural)]
pub enum LaunchIdentityError {
    InvalidIdentity,
    InvalidStartTime,
    Inconsistent,
}

/// The process ID and start ticks of an incomplete launch: the report must name the
/// selected version, carry the process and start time its session ID encodes, and have no
/// window yet.
pub open spec fn launch_identity_spec(selected_version: Seq<char>, report: WindowsStudioSessionReport) -> Result<(u32, i64), LaunchIdentityError> {
    let id = report.session_id@;
    if !has_prefix(id, "studio-"@) {
        Err(LaunchIdentityError::InvalidIdentity)
    } else {
        match split_once_spec(id.skip("studio-"@.len() as int), '-') {
            None => Err(LaunchIdentityError::InvalidIdentity),
            Some((pid_text, ticks_text)) => match parse_u32_spec(pid_text) {
                Some(pid) if pid > 0 => match parse_i64_spec(ticks_text) {
                    Some(ticks) if ticks > WINDOWS_EPOCH_TICKS => match spec_rfc3339_instant(report.started_at@) {
                        None => Err(LaunchIdentityError::InvalidStartTime),
                        Some((seconds, nanos)) => match instant_ticks(seconds, nanos) {
                            None => Err(LaunchIdentityError::InvalidStartTime),
                            Some(reported) => if report.version@ != selected_version || report.process_id != pid
                                || reported != ticks || report.has_window {
                                Err(LaunchIdentityError::Inconsistent)
                            } else {
                                Ok((pid, ticks))
                            },
                        },
                    },
                    _ => Err(LaunchIdentityError::InvalidIdentity),
                },
                _ => Err(LaunchIdentityError::InvalidIdentity),
            },
        }
    }
}

/// Checks that an incomplete launch is exactly the selected version's windowless process.
pub fn validate_incomplete_launch_identity(selected: &StudioVersion, session: &WindowsStudioSessionReport) -> (r: Result<(u32, i64), LaunchIdentityError>)
    ensures
        r == launch_identity_spec(selected.version@, *session),
{
    let chars = to_chars(session.session_id.as_str());
    let rest = match strip_prefix_str(&chars, "studio-") {
        Some(rest) => rest,
        None => {
            return Err(LaunchIdentityError::InvalidIdentity);
        },
    };
    let (pid_text, ticks_text) = match split_once(&rest, '-') {
        Some(parts) => parts,
        None => {
            return Err(LaunchIdentityError::InvalidIdentity);
        },
    };
    let pid = match parse_u32(&pid_text) {
        Some(pid) if pid > 0 => pid,
        _ => {
            return Err(LaunchIdentityError::InvalidIdentity);
        },
    };
    let ticks = match parse_i64(&ticks_text) {
        Some(ticks) if ticks > WINDOWS_EPOCH_TICKS => ticks,
        _ => {
            return Err(LaunchIdentityError::InvalidIdentity);
        },
    };
    let (seconds, nanos) = match parse_rfc3339(session.started_at.as_str()) {
        Some(instant) => instant,
        None => {
            return Err(LaunchIdentityError::InvalidStartTime);
        },
    };
    let reported = match ticks_of(seconds, nanos) {
        Some(reported) => reported,
        None => {
            return Err(LaunchIdentityError::InvalidStartTime);
        },
    };
    let version = to_chars(session.version.as_str());
    if !equals_str(&version, selected.version.as_str()) || session.process_id != pid || reported != ticks
        || session.has_window {
        return Err(LaunchIdentityError::Inconsistent);
    }
    Ok((pid, ticks))
}

impl LaunchIdentityError {
    pub fn message(self) -> (r: &'static str)
        ensures
            r@ == (match self {
                LaunchIdentityError::InvalidIdentity => "Windows returned an invalid incomplete launch identity"@,
                LaunchIdentityError::InvalidStartTime => "Windows returned an invalid incomplete launch start time"@,
                LaunchIdentityError::Inconsistent => "Windows returned an inconsistent incomplete launch identity"@,
            }),
    {
        match self {
            LaunchIdentityError::InvalidIdentity => "Windows returned an invalid incomplete launch identity",
            LaunchIdentityError::InvalidStartTime => "Windows returned an invalid incomplete launch start time",
            LaunchIdentityError::Inconsistent => "Windows returned an inconsistent incomplete launch identity",
        }
    }
}

/// Whether the guest's session list shows the Studio session.
#[derive(Debug, Clone, Copy, PartialEq, Eq, Structural)]
pub enum SessionObservation {
    Absent,
    Present,
    Unverified,
}

/// What cleaning a dead launch's project lock may do.
#[derive(Debug, Clone, Copy, PartialEq, Eq, Structural)]
pub enum LockCleanupPlan {
    /// No Studio session was registered.
    NotAvailable,
    /// The session ID names no process.
    RetainedInvalidIdentity,
    /// The session is gone: remove the lock this process left.
    RemoveDeadLock { process_id: u32 },
    RetainedLiveSession,
    RetainedUnverifiedSession,
}

/// Locks are removed only after the guest authoritatively reported the session absent,
/// and only the lock of the session's own process.
pub fn lock_cleanup_plan(studio_session_id: Option<&str>, observation: SessionObservation) -> (r: LockCleanupPlan)
    ensures
        r == (match studio_session_id {
            None => LockCleanupPlan::NotAvailable,
            Some(id) => match studio_process_id_spec(id@) {
                None => LockCleanupPlan::RetainedInvalidIdentity,
                Some(pid) => match observation {
                    SessionObservation::Absent => LockCleanupPlan::RemoveDeadLock { process_id: pid },
                    SessionObservation::Present => LockCleanupPlan::RetainedLiveSession,
                    SessionObservation::Unverified => LockCleanupPlan::RetainedUnverifiedSession,
                },
            },
        }),
{
    let id = match studio_session_id {
        Some(id) => id,
        None => {
            return LockCleanupPlan::NotAvailable;
        },
    };
    let process_id = match studio_process_id(id) {
        Some(pid) => pid,
        None => {
            return LockCleanupPlan::RetainedInvalidIdentity;
        },
    };
    match observation {
        SessionObservation::Absent => LockCleanupPlan::RemoveDeadLock { process_id },
        SessionObservation::Present => LockCleanupPlan::RetainedLiveSession,
        SessionObservation::Unverified => LockCleanupPlan::RetainedUnverifiedSession,
    }
}

/// What the cleanup after a failed post-launch step achieved.
#[derive(Debug, Clone)]
pub struct PostSuccessCleanup {
    pub remote_app_cleanup: &'static str,
    pub studio_stop: &'static str,
    pub runtime_stop: &'static str,
    pub runtime_stop_code: Option<crate::contracts::BackendErrorCode>,
    pub session_observation: SessionObservation,
    pub lock_cleanup: &'static str,
    pub locks_removed: usize,
    pub report_written: bool,
}

impl PostSuccessCleanup {
    pub open spec fn retryable_spec(&self) -> bool {
        &&& (self.remote_app_cleanup@ == "succeeded"@ || self.remote_app_cleanup@ == "not_owned"@)
        &&& self.studio_stop@ != "failed"@
        &&& self.runtime_stop@ == "succeeded"@
        &&& self.session_observation == SessionObservation::Absent
        &&& self.lock_cleanup@ != "failed"@
        &&& self.report_written
    }

    /// A retry is offered only when everything the launch left behind was cleaned up and
    /// recorded.
    pub fn retryable(&self) -> (b: bool)
        ensures
            b == self.retryable_spec(),
    {
        let remote = to_chars(self.remote_app_cleanup);
        let studio = to_chars(self.studio_stop);
        let runtime = to_chars(self.runtime_stop);
        let locks = to_chars(self.lock_cleanup);
        (equals_str(&remote, "succeeded") || equals_str(&remote, "not_owned")) && !equals_str(&studio, "failed")
            && equals_str(&runtime, "succeeded") && self.session_observation == SessionObservation::Absent
            && !equals_str(&locks, "failed") && self.report_written
    }
}

} // verus!
