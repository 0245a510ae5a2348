//! Studio Pro sessions the guest reports: their identities, which reports are trusted, and
//! the session list the application shows.
use vstd::prelude::*;
use crate::operation_watch::WindowsOperationFailure;
use crate::outside::{parse_rfc3339, spec_rfc3339_instant};
use crate::runtime_session::StudioProcessState;
use crate::studio_ops::{instant_ticks, ticks_of, StudioVersion, WindowsStudioSessionReport, WINDOWS_EPOCH_TICKS};
use crate::text::{
    ascii_alphanumeric, ascii_digit, contains_char, has_prefix, is_ascii_alphanumeric,
    is_ascii_digit, is_control, parse_i64, parse_i64_spec, parse_u32, parse_u32_spec, split_once,
    split_once_spec, string_from, string_of, strip_prefix_str, to_chars, trim, trim_spec, utf8_len,
    utf8_length_within,
};

verus! {

pub const MAX_SESSIONS: usize = 64;
pub const MAX_PROJECT_NAME_BYTES: usize = 160;
pub const MAX_VERSION_BYTES: usize = 64;

/// A Studio Pro version this application passes on: a digit first, then ASCII letters,
/// digits, `.` and `-`, at most 64 bytes.
pub open spec fn version_text_valid(version: Seq<char>) -> bool {
    &&& 0 < version.len() <= MAX_VERSION_BYTES
    &&& is_ascii_digit(version[0])
    &&& forall|i: int| 0 <= i < version.len() ==> (is_ascii_alphanumeric(#[trigger] version[i]) || version[i] == '.' || version[i] == '-')
}

/// Accepts a Studio Pro version, or refuses it with a message.
pub fn validate_version(version: &str) -> (r: Result<(), String>)
    ensures
        r is Ok <==> version_text_valid(version@),
{
    let chars = to_chars(version);
    if chars.len() == 0 || chars.len() > MAX_VERSION_BYTES || !ascii_digit(chars[0]) {
        return Err(string_of("the Studio Pro version is invalid"));
    }
    let mut i: usize = 0;
    while i < chars.len()
        invariant
            i <= chars@.len(),
            chars@ == version@,
            forall|j: int| 0 <= j < i ==> (is_ascii_alphanumeric(#[trigger] chars@[j]) || chars@[j] == '.' || chars@[j] == '-'),
        decreases chars@.len() - i,
    {
        let c = chars[i];
        if !(ascii_alphanumeric(c) || c == '.' || c == '-') {
            return Err(string_of("the Studio Pro version is invalid"));
        }
        i = i + 1;
    }
    Ok(())
}

/// The process and its start, in .NET ticks, that a session ID names.
#[derive(Debug, Clone, Copy, PartialEq, Eq, Structural)]
pub struct SessionIdentity {
    pub process_id: u32,
    pub started_ticks: i64,
}

/// `studio-<pid>-<ticks>` with a positive process ID and ticks after the Unix epoch.
pub open spec fn session_identity_spec(value: Seq<char>) -> Option<SessionIdentity> {
    if has_prefix(value, "studio-"@) {
        match split_once_spec(value.skip(7), '-') {
            Some((pid, ticks)) => match (parse_u32_spec(pid), parse_i64_spec(ticks)) {
                (Some(p), Some(t)) => if p > 0 && t > WINDOWS_EPOCH_TICKS {
                    Some(SessionIdentity { process_id: p, started_ticks: t })
                } else {
                    None
                },
                _ => None,
            },
            None => None,
        }
    } else {
        None
    }
}

pub fn session_identity(value: &str) -> (r: Option<SessionIdentity>)
    ensures
        r == session_identity_spec(value@),
{
    let chars = to_chars(value);
    let rest = match strip_prefix_str(&chars, "studio-") {
        Some(rest) => rest,
        None => {
            return None;
        },
    };
    proof {
        reveal_strlit("studio-");
        assert(rest@ == value@.skip(7));
    }
    let (pid, ticks) = match split_once(&rest, '-') {
        Some(parts) => parts,
        None => {
            return None;
        },
    };
    match (parse_u32(&pid), parse_i64(&ticks)) {
        (Some(p), Some(t)) => if p > 0 && t > WINDOWS_EPOCH_TICKS {
            Some(SessionIdentity { process_id: p, started_ticks: t })
        } else {
            None
        },
        _ => None,
    }
}

/// Parses a session ID, refusing anything else as an invalid identifier.
pub fn parse_session_id(value: &str) -> (r: Result<SessionIdentity, WindowsOperationFailure>)
    ensures
        match session_identity_spec(value@) {
            Some(identity) => r matches Ok(i) && i == identity,
            None => r matches Err(f) && f.message@ == "the Studio Pro session identifier is invalid"@ && !f.retryable,
        },
{
    match session_identity(value) {
        Some(identity) => Ok(identity),
        None => Err(WindowsOperationFailure::from_message(string_of("the Studio Pro session identifier is invalid"))),
    }
}

/// A project name shown for a session: non-empty after trimming, at most 160 bytes, and
/// free of control characters and path separators.
pub open spec fn safe_project_name_spec(value: Seq<char>) -> bool {
    let t = trim_spec(value);
    &&& t.len() > 0
    &&& utf8_len(t) <= MAX_PROJECT_NAME_BYTES
    &&& forall|i: int| 0 <= i < t.len() ==> !(is_control(#[trigger] t[i]) || t[i] == '/' || t[i] == '\\' || t[i] == ':')
}

pub fn safe_project_name(value: &str) -> (b: bool)
    ensures
        b == safe_project_name_spec(value@),
{
    let chars = to_chars(value);
    let t = trim(&chars);
    if t.len() == 0 || utf8_length_within(&t, MAX_PROJECT_NAME_BYTES).is_none() {
        return false;
    }
    let mut i: usize = 0;
    while i < t.len()
        invariant
            i <= t@.len(),
            t@ == trim_spec(value@),
            forall|j: int| 0 <= j < i ==> !(is_control(#[trigger] t@[j]) || t@[j] == '/' || t@[j] == '\\' || t@[j] == ':'),
        decreases t@.len() - i,
    {
        let c = t[i];
        if crate::text::control(c) || c == '/' || c == '\\' || c == ':' {
            assert(is_control(t@[i as int]) || t@[i as int] == '/' || t@[i as int] == '\\' || t@[i as int] == ':');
            return false;
        }
        i = i + 1;
    }
    true
}

/// A trimmed project name of 1 to 160 bytes is refused exactly when one of its characters is
/// a control character, `/`, `\\` or `:`; every other character, spaces and punctuation
/// included, is shown as it is.
pub proof fn lemma_project_names_refuse_only_separators_and_controls(value: Seq<char>)
    requires
        trim_spec(value).len() > 0,
        utf8_len(trim_spec(value)) <= 160,
    ensures
        !safe_project_name_spec(value) <==> exists|i: int| 0 <= i < trim_spec(value).len() && {
            let c = #[trigger] trim_spec(value)[i];
            c <= '\u{1f}' || ('\u{7f}' <= c && c <= '\u{9f}') || c == '/' || c == '\\' || c == ':'
        },
        (forall|i: int| 0 <= i < trim_spec(value).len() ==> {
            let c = #[trigger] trim_spec(value)[i];
            c == ' ' || ('a' <= c && c <= 'z') || ('A' <= c && c <= 'Z') || ('0' <= c && c <= '9')
                || c == '-' || c == '_' || c == '.'
        }) ==> safe_project_name_spec(value),
{
}

#[derive(Debug, Clone, Copy, PartialEq, Eq, Structural)]
pub enum StudioConnectionState {
    Connected,
    Disconnected,
}

#[derive(Debug, Clone, Copy, PartialEq, Eq, Structural)]
pub enum StudioReconnectUnavailable {
    AlreadyConnected,
    WindowUnavailable,
}

/// A Studio Pro session as the application lists it.
#[derive(Debug)]
pub struct StudioSessionStatus {
    pub session_id: String,
    pub version: String,
    pub state: StudioProcessState,
    pub process_id: Option<u32>,
    /// The start as Unix seconds and nanoseconds.
    pub started_at: Option<(i64, u32)>,
    pub project_name: Option<String>,
    pub connection: StudioConnectionState,
    pub reconnectable: bool,
    pub reconnect_unavailable: Option<StudioReconnectUnavailable>,
}

/// The texts of a list of strings.
pub open spec fn ids(v: Seq<String>) -> Seq<Seq<char>> {
    v.map_values(|s: String| s@)
}

/// The session IDs of reports.
pub open spec fn report_ids(reports: Seq<WindowsStudioSessionReport>) -> Seq<Seq<char>> {
    reports.map_values(|r: WindowsStudioSessionReport| r.session_id@)
}

/// The error one report is refused with, given the installed versions and the IDs of the
/// reports before it, all of which were accepted.
pub open spec fn report_error(versions: Seq<Seq<char>>, earlier: Seq<Seq<char>>, report: WindowsStudioSessionReport) -> Option<Seq<char>> {
    match session_identity_spec(report.session_id@) {
        None => Some("the Studio Pro session identifier is invalid"@),
        Some(identity) => if identity.process_id != report.process_id || !versions.contains(report.version@)
            || earlier.contains(report.session_id@) {
            Some("Windows returned an invalid Studio Pro session"@)
        } else if !version_text_valid(report.version@) {
            Some("the Studio Pro version is invalid"@)
        } else {
            match spec_rfc3339_instant(report.started_at@) {
                None => Some("Windows returned an invalid Studio Pro start time"@),
                Some((seconds, nanos)) => if instant_ticks(seconds, nanos) != Some(identity.started_ticks) {
                    Some("the Studio Pro process identity does not match its start time"@)
                } else {
                    None
                },
            }
        },
    }
}

/// The error of the first refused report among the first `n`, if any.
pub open spec fn first_report_error(versions: Seq<Seq<char>>, reports: Seq<WindowsStudioSessionReport>, n: nat) -> Option<Seq<char>>
    decreases n,
{
    if n == 0 {
        None
    } else {
        match first_report_error(versions, reports, (n - 1) as nat) {
            Some(e) => Some(e),
            None => report_error(versions, report_ids(reports.take(n - 1)), reports[n - 1]),
        }
    }
}

/// The error a list of reports is refused with, if any.
pub open spec fn sessions_error(versions: Seq<Seq<char>>, reports: Seq<WindowsStudioSessionReport>) -> Option<Seq<char>> {
    if reports.len() > MAX_SESSIONS {
        Some("Windows returned too many Studio Pro sessions"@)
    } else {
        first_report_error(versions, reports, reports.len())
    }
}

/// The versions of the installed Studio Pro releases.
pub open spec fn installed_versions(studios: Seq<StudioVersion>) -> Seq<Seq<char>> {
    studios.map_values(|s: StudioVersion| s.version@)
}

/// The status a valid report is listed with, given whether the application holds a
/// connection to it.
pub open spec fn listed_status(report: WindowsStudioSessionReport, connected: bool, status: StudioSessionStatus) -> bool {
    &&& status.session_id@ == report.session_id@
    &&& status.version@ == report.version@
    &&& status.state == StudioProcessState::Running
    &&& status.process_id == Some(report.process_id)
    &&& status.started_at == spec_rfc3339_instant(report.started_at@)
    &&& match report.project_name {
        Some(name) => if safe_project_name_spec(name@) {
            status.project_name matches Some(x) && x@ == trim_spec(name@)
        } else {
            status.project_name is None
        },
        None => status.project_name is None,
    }
    &&& if connected {
        status.connection == StudioConnectionState::Connected && !status.reconnectable
            && status.reconnect_unavailable == Some(StudioReconnectUnavailable::AlreadyConnected)
    } else if report.has_window {
        status.connection == StudioConnectionState::Disconnected && status.reconnectable && status.reconnect_unavailable is None
    } else {
        status.connection == StudioConnectionState::Disconnected && !status.reconnectable
            && status.reconnect_unavailable == Some(StudioReconnectUnavailable::WindowUnavailable)
    }
}

/// The instant is later than the other.
pub open spec fn later(a: (i64, u32), b: (i64, u32)) -> bool {
    a.0 > b.0 || (a.0 == b.0 && a.1 > b.1)
}

/// One start sorts before the other, latest first: a known start before an unknown one.
pub open spec fn start_later(a: Option<(i64, u32)>, b: Option<(i64, u32)>) -> bool {
    match (a, b) {
        (Some(x), Some(y)) => later(x, y),
        (Some(_), None) => true,
        _ => false,
    }
}

/// The session at `i` is listed before the one at `j`: started later first, and in the
/// given order when they started at the same instant.
pub open spec fn session_before(starts: Seq<Option<(i64, u32)>>, i: int, j: int) -> bool {
    start_later(starts[i], starts[j]) || (starts[i] == starts[j] && i < j)
}

pub(crate) fn report_failure(message: &str) -> (f: WindowsOperationFailure)
    ensures
        f.message@ == message@,
        !f.retryable,
        f.exit_code is None,
        f.failure_kind is None,
{
    WindowsOperationFailure::from_message(string_of(message))
}

fn contains_text(list: &Vec<String>, value: &String) -> (b: bool)
    ensures
        b == ids(list@).contains(value@),
{
    let mut i: usize = 0;
    while i < list.len()
        invariant
            i <= list@.len(),
            forall|j: int| 0 <= j < i ==> (#[trigger] list@[j])@ != value@,
        decreases list@.len() - i,
    {
        if list[i] == *value {
            proof {
                assert(ids(list@)[i as int] == value@);
            }
            return true;
        }
        i = i + 1;
    }
    proof {
        if ids(list@).contains(value@) {
            let k = choose|k: int| 0 <= k < ids(list@).len() && ids(list@)[k] == value@;
            assert(list@[k]@ == value@);
        }
    }
    false
}

/// Checks one report; on success gives its identity's start instant.
fn check_report(versions: &Vec<String>, earlier: &Vec<String>, report: &WindowsStudioSessionReport) -> (r: Result<(i64, u32), WindowsOperationFailure>)
    ensures
        match report_error(ids(versions@), ids(earlier@), *report) {
            Some(message) => r matches Err(f) && f.message@ == message && !f.retryable && f.exit_code is None && f.failure_kind is None,
            None => r matches Ok(instant) && spec_rfc3339_instant(report.started_at@) == Some(instant),
        },
{
    let identity = match session_identity(&report.session_id) {
        Some(identity) => identity,
        None => {
            return Err(report_failure("the Studio Pro session identifier is invalid"));
        },
    };
    if identity.process_id != report.process_id || !contains_text(versions, &report.version)
        || contains_text(earlier, &report.session_id) {
        return Err(report_failure("Windows returned an invalid Studio Pro session"));
    }
    if validate_version(&report.version).is_err() {
        return Err(report_failure("the Studio Pro version is invalid"));
    }
    let instant = match parse_rfc3339(&report.started_at) {
        Some(instant) => instant,
        None => {
            return Err(report_failure("Windows returned an invalid Studio Pro start time"));
        },
    };
    match ticks_of(instant.0, instant.1) {
        Some(ticks) if ticks == identity.started_ticks => Ok(instant),
        _ => Err(report_failure("the Studio Pro process identity does not match its start time")),
    }
}

pub(crate) fn status_of(report: WindowsStudioSessionReport, started: (i64, u32), connected: bool) -> (status: StudioSessionStatus)
    requires
        spec_rfc3339_instant(report.started_at@) == Some(started),
    ensures
        listed_status(report, connected, status),
{
    let project_name = match &report.project_name {
        Some(name) => if safe_project_name(name) {
            let chars = to_chars(name);
            let trimmed = trim(&chars);
            Some(string_from(&trimmed))
        } else {
            None
        },
        None => None,
    };
    let (connection, reconnectable, reconnect_unavailable) = if connected {
        (StudioConnectionState::Connected, false, Some(StudioReconnectUnavailable::AlreadyConnected))
    } else if report.has_window {
        (StudioConnectionState::Disconnected, true, None)
    } else {
        (StudioConnectionState::Disconnected, false, Some(StudioReconnectUnavailable::WindowUnavailable))
    };
    StudioSessionStatus {
        session_id: report.session_id,
        version: report.version,
        state: StudioProcessState::Running,
        process_id: Some(report.process_id),
        started_at: Some(started),
        project_name,
        connection,
        reconnectable,
        reconnect_unavailable,
    }
}


pub(crate) fn copy_report(report: &WindowsStudioSessionReport) -> (r: WindowsStudioSessionReport)
    ensures
        r == *report,
{
    WindowsStudioSessionReport {
        session_id: report.session_id.clone(),
        version: report.version.clone(),
        process_id: report.process_id,
        started_at: report.started_at.clone(),
        project_name: match &report.project_name {
            Some(name) => Some(name.clone()),
            None => None,
        },
        has_window: report.has_window,
    }
}

proof fn lemma_first_error_step(versions: Seq<Seq<char>>, reports: Seq<WindowsStudioSessionReport>, i: nat)
    requires
        i < reports.len(),
        first_report_error(versions, reports, i) is None,
        report_error(versions, report_ids(reports.take(i as int)), reports[i as int]) is None,
    ensures
        first_report_error(versions, reports, i + 1) is None,
{
}

proof fn lemma_first_error_stays(versions: Seq<Seq<char>>, reports: Seq<WindowsStudioSessionReport>, i: nat, n: nat)
    requires
        i < n,
        first_report_error(versions, reports, i) is None,
        report_error(versions, report_ids(reports.take(i as int)), reports[i as int]) is Some,
    ensures
        first_report_error(versions, reports, n) == report_error(versions, report_ids(reports.take(i as int)), reports[i as int]),
    decreases n,
{
    if n > i + 1 {
        lemma_first_error_stays(versions, reports, i, (n - 1) as nat);
    }
}

/// `order` lists every session index once, each listed before the next.
pub open spec fn is_session_order(starts: Seq<Option<(i64, u32)>>, order: Seq<usize>) -> bool {
    &&& order.len() == starts.len()
    &&& forall|k: int| 0 <= k < order.len() ==> (#[trigger] order[k]) < starts.len()
    &&& forall|k1: int, k2: int| 0 <= k1 < k2 < order.len() ==> order[k1] != order[k2]
    &&& forall|k: int| #![trigger order[k], order[k + 1]]
        0 <= k < order.len() - 1 ==> session_before(starts, order[k] as int, order[k + 1] as int)
}

pub fn session_order(starts: &Vec<Option<(i64, u32)>>) -> (order: Vec<usize>)
    ensures
        is_session_order(starts@, order@),
{
    let mut order: Vec<usize> = Vec::new();
    let mut i: usize = 0;
    while i < starts.len()
        invariant
            i <= starts@.len(),
            order@.len() == i,
            forall|k: int| 0 <= k < order@.len() ==> (#[trigger] order@[k]) < i,
            forall|k1: int, k2: int| 0 <= k1 < k2 < order@.len() ==> order@[k1] != order@[k2],
            forall|k: int| #![trigger order@[k], order@[k + 1]]
                0 <= k < order@.len() - 1 ==> session_before(starts@, order@[k] as int, order@[k + 1] as int),
        decreases starts@.len() - i,
    {
        let mut p: usize = order.len();
        let mut placed = false;
        while !placed && p > 0
            invariant
                p <= order@.len(),
                order@.len() == i,
                i < starts@.len(),
                forall|k: int| 0 <= k < order@.len() ==> (#[trigger] order@[k]) < i,
                p < order@.len() ==> session_before(starts@, i as int, order@[p as int] as int),
                placed ==> p > 0 && session_before(starts@, order@[p - 1] as int, i as int),
            decreases 2 * p + (if placed { 0int } else { 1int }),
        {
            let previous = order[p - 1];
            let a = starts[i];
            let b = starts[previous];
            let a_later = match (a, b) {
                (Some(x), Some(y)) => x.0 > y.0 || (x.0 == y.0 && x.1 > y.1),
                (Some(_), None) => true,
                _ => false,
            };
            if a_later {
                p = p - 1;
            } else {
                placed = true;
            }
        }
        let ghost before = order@;
        order.insert(p, i);
        proof {
            assert forall|k: int| 0 <= k < order@.len() implies (#[trigger] order@[k]) < i + 1 by {
                if k < p {
                    assert(order@[k] == before[k]);
                } else if k > p {
                    assert(order@[k] == before[k - 1]);
                }
            }
            assert forall|k1: int, k2: int| 0 <= k1 < k2 < order@.len() implies order@[k1] != order@[k2] by {
                if k1 < p && k2 < p {
                    assert(order@[k1] == before[k1] && order@[k2] == before[k2]);
                } else if k1 < p && k2 == p {
                    assert(before[k1] < i);
                } else if k1 < p && k2 > p {
                    assert(order@[k1] == before[k1] && order@[k2] == before[k2 - 1]);
                } else if k1 == p {
                    assert(before[k2 - 1] < i);
                } else {
                    assert(order@[k1] == before[k1 - 1] && order@[k2] == before[k2 - 1]);
                }
            }
            assert forall|k: int| #![trigger order@[k], order@[k + 1]]
                0 <= k < order@.len() - 1 implies session_before(starts@, order@[k] as int, order@[k + 1] as int) by {
                if k + 1 < p {
                    assert(order@[k] == before[k] && order@[k + 1] == before[k + 1]);
                    assert(session_before(starts@, before[k] as int, before[k + 1] as int));
                } else if k + 1 == p {
                    assert(order@[k] == before[k]);
                    assert(order@[k + 1] == i);
                } else if k == p {
                    assert(order@[k] == i);
                    assert(order@[k + 1] == before[k]);
                } else {
                    let j = k - 1;
                    assert(order@[k] == before[j] && order@[k + 1] == before[j + 1]);
                    assert(session_before(starts@, before[j] as int, before[j + 1] as int));
                }
            }
        }
        i = i + 1;
    }
    order
}

/// The start instants of reports whose start times all parse.
pub open spec fn report_starts(reports: Seq<WindowsStudioSessionReport>) -> Seq<Option<(i64, u32)>> {
    reports.map_values(|r: WindowsStudioSessionReport| spec_rfc3339_instant(r.started_at@))
}

/// Checks the sessions the guest reported against the installed versions and lists them,
/// latest start first; `connected` holds the IDs of the sessions the application is
/// connected to. One refused report refuses the whole list.
#[verifier::rlimit(40)]
pub fn normalize_sessions(studios: &Vec<StudioVersion>, sessions: Vec<WindowsStudioSessionReport>, connected: &Vec<String>) -> (r: Result<Vec<StudioSessionStatus>, WindowsOperationFailure>)
    ensures
        match sessions_error(installed_versions(studios@), sessions@) {
            Some(message) => r matches Err(f) && f.message@ == message && !f.retryable && f.exit_code is None && f.failure_kind is None,
            None => r matches Ok(list) && exists|order: Seq<usize>| #![trigger is_session_order(report_starts(sessions@), order)]
                is_session_order(report_starts(sessions@), order)
                && list@.len() == order.len()
                && forall|k: int| 0 <= k < order.len() ==> listed_status(
                    #[trigger] sessions@[order[k] as int],
                    ids(connected@).contains(sessions@[order[k] as int].session_id@),
                    list@[k],
                ),
        },
{
    if sessions.len() > MAX_SESSIONS {
        return Err(report_failure("Windows returned too many Studio Pro sessions"));
    }
    let mut versions: Vec<String> = Vec::new();
    let mut v: usize = 0;
    while v < studios.len()
        invariant
            v <= studios@.len(),
            versions@.len() == v,
            ids(versions@) == installed_versions(studios@.take(v as int)),
        decreases studios@.len() - v,
    {
        let ghost previous = versions@;
        versions.push(studios[v].version.clone());
        proof {
            let now = ids(versions@);
            let target = installed_versions(studios@.take(v + 1));
            assert(now.len() == target.len());
            assert forall|j: int| 0 <= j < now.len() implies now[j] == target[j] by {
                if j < v {
                    assert(versions@[j] == previous[j]);
                    assert(ids(previous)[j] == installed_versions(studios@.take(v as int))[j]);
                }
            }
            assert(now =~= target);
        }
        v = v + 1;
    }
    proof {
        assert(studios@.take(studios@.len() as int) =~= studios@);
    }
    let ghost vs = installed_versions(studios@);
    let mut seen: Vec<String> = Vec::new();
    let mut starts: Vec<Option<(i64, u32)>> = Vec::new();
    let mut i: usize = 0;
    while i < sessions.len()
        invariant
            i <= sessions@.len(),
            sessions@.len() <= MAX_SESSIONS,
            ids(versions@) == vs,
            vs == installed_versions(studios@),
            first_report_error(vs, sessions@, i as nat) is None,
            ids(seen@) == report_ids(sessions@.take(i as int)),
            seen@.len() == i,
            starts@.len() == i,
            forall|j: int| 0 <= j < i ==> spec_rfc3339_instant((#[trigger] sessions@[j]).started_at@) == starts@[j] && starts@[j] is Some,
        decreases sessions@.len() - i,
    {
        let checked = check_report(&versions, &seen, &sessions[i]);
        match checked {
            Ok(instant) => {
                proof {
                    lemma_first_error_step(vs, sessions@, i as nat);
                }
                let ghost previous_seen = seen@;
                let ghost previous_starts = starts@;
                starts.push(Some(instant));
                seen.push(sessions[i].session_id.clone());
                proof {
                    let now = ids(seen@);
                    let target = report_ids(sessions@.take(i + 1));
                    assert(now.len() == target.len());
                    assert forall|j: int| 0 <= j < now.len() implies now[j] == target[j] by {
                        if j < i {
                            assert(seen@[j] == previous_seen[j]);
                            assert(ids(previous_seen)[j] == report_ids(sessions@.take(i as int))[j]);
                        }
                    }
                    assert(now =~= target);
                    assert forall|j: int| 0 <= j < i + 1 implies spec_rfc3339_instant((#[trigger] sessions@[j]).started_at@) == starts@[j] && starts@[j] is Some by {
                        if j < i {
                            assert(starts@[j] == previous_starts[j]);
                        }
                    }
                }
            },
            Err(failure) => {
                proof {
                    let e = report_error(vs, report_ids(sessions@.take(i as int)), sessions@[i as int]);
                    assert(e is Some);
                    lemma_first_error_stays(vs, sessions@, i as nat, sessions@.len());
                    assert(sessions_error(installed_versions(studios@), sessions@) == e);
                    assert(failure.message@ == e->Some_0);
                }
                return Err(failure);
            },
        }
        i = i + 1;
    }
    proof {
        assert(report_starts(sessions@) =~= starts@);
    }
    let order = session_order(&starts);
    let mut list: Vec<StudioSessionStatus> = Vec::new();
    let mut k: usize = 0;
    while k < order.len()
        invariant
            is_session_order(starts@, order@),
            starts@ == report_starts(sessions@),
            k <= order@.len(),
            list@.len() == k,
            forall|j: int| 0 <= j < sessions@.len() ==> spec_rfc3339_instant((#[trigger] sessions@[j]).started_at@) == starts@[j] && starts@[j] is Some,
            forall|m: int| 0 <= m < k ==> listed_status(
                #[trigger] sessions@[order@[m] as int],
                ids(connected@).contains(sessions@[order@[m] as int].session_id@),
                list@[m],
            ),
        decreases order@.len() - k,
    {
        let index = order[k];
        let report = copy_report(&sessions[index]);
        let is_connected = contains_text(connected, &report.session_id);
        let started = starts[index].unwrap();
        list.push(status_of(report, started, is_connected));
        k = k + 1;
    }
    Ok(list)
}

} // verus!
