//! The Studio Pro sessions the application holds a RemoteApp connection to: what a launch or
//! a reconnect registers, how a stop is requested and confirmed, and which sessions are
//! listed as connected.
use vstd::prelude::*;
use crate::operation_watch::WindowsOperationFailure;
use crate::outside::{parse_rfc3339, spec_rfc3339_instant};
use crate::security::{authenticated_envelope, AuthenticatedPayload, OperationSecurity, ReportEnvelope};
use crate::studio_ops::{instant_ticks, ticks_of, WindowsStudioSessionReport};
use crate::studio_sessions::{
    is_session_order,
    copy_report, listed_status, report_failure, session_identity, session_identity_spec,
    status_of, SessionIdentity, StudioConnectionState, StudioReconnectUnavailable,
    StudioSessionStatus,
};
use crate::text::{
    decimal, decimal_chars, push_all, push_str, signed_decimal_chars, signed_decimal_text,
    string_from, to_chars,
};

verus! {

/// How long a session query, reconnect or stop operation may take.
pub const SESSION_OPERATION_TIMEOUT_SECONDS: u64 = 90;
/// How long the guest may take to confirm a stop request of a connected session.
pub const SESSION_CONTROL_TIMEOUT_SECONDS: u64 = 45;

/// Whether the single session a launch reported is the launched one: the expected
/// version, a window, and a process identity that matches its start time.
pub open spec fn launch_report_matches(
    expected_version: Seq<char>,
    report: Seq<WindowsStudioSessionReport>,
    identity: SessionIdentity,
    seconds: i64,
    nanos: u32,
) -> bool {
    &&& report.len() == 1
    &&& identity.process_id == report[0].process_id
    &&& report[0].version@ == expected_version
    &&& report[0].has_window
    &&& instant_ticks(seconds, nanos) == Some(identity.started_ticks)
}

/// The status a launched session is registered with: the one session the launch reported,
/// connected, when its identity is the launched process; otherwise why it is refused.
pub fn launch_session_status(expected_version: &str, report: &Vec<WindowsStudioSessionReport>) -> (r: Result<StudioSessionStatus, WindowsOperationFailure>)
    ensures
        report@.len() == 0 ==> (r matches Err(f)
            && f.message@ == "Windows did not return the launched Studio Pro session identity"@),
        report@.len() > 0 ==> match session_identity_spec(report@[0].session_id@) {
            None => r matches Err(f) && f.message@ == "the Studio Pro session identifier is invalid"@,
            Some(identity) => match spec_rfc3339_instant(report@[0].started_at@) {
                None => r matches Err(f) && f.message@ == "Windows returned an invalid Studio Pro start time"@,
                Some((seconds, nanos)) => if launch_report_matches(expected_version@, report@, identity, seconds, nanos) {
                    r matches Ok(status) && listed_status(report@[0], true, status)
                } else {
                    r matches Err(f) && f.message@ == "Windows returned an invalid launched Studio Pro session identity"@
                },
            },
        },
        r matches Err(f) ==> !f.retryable,
{
    if report.len() == 0 {
        return Err(report_failure("Windows did not return the launched Studio Pro session identity"));
    }
    let session = &report[0];
    let identity = match session_identity(&session.session_id) {
        Some(identity) => identity,
        None => {
            return Err(report_failure("the Studio Pro session identifier is invalid"));
        },
    };
    let started = match parse_rfc3339(&session.started_at) {
        Some(instant) => instant,
        None => {
            return Err(report_failure("Windows returned an invalid Studio Pro start time"));
        },
    };
    let ticks_match = match ticks_of(started.0, started.1) {
        Some(ticks) => ticks == identity.started_ticks,
        None => false,
    };
    if report.len() != 1 || identity.process_id != session.process_id
        || !crate::text::equals_str(&to_chars(session.version.as_str()), expected_version)
        || !session.has_window || !ticks_match {
        return Err(report_failure("Windows returned an invalid launched Studio Pro session identity"));
    }
    Ok(status_of(copy_report(session), started, true))
}

/// The status a session is registered with after a reconnect: the first listed session with
/// the requested ID that could be reconnected, now connected.
pub fn reconnect_status(sessions: &Vec<StudioSessionStatus>, session_id: &str) -> (r: Option<StudioSessionStatus>)
    ensures
        match r {
            None => forall|k: int| 0 <= k < sessions@.len() ==> !((#[trigger] sessions@[k]).session_id@
                == session_id@ && sessions@[k].reconnectable),
            Some(status) => exists|k: int| 0 <= k < sessions@.len() && {
                &&& (#[trigger] sessions@[k]).session_id@ == session_id@
                &&& sessions@[k].reconnectable
                &&& forall|j: int| 0 <= j < k ==> !(sessions@[j].session_id@ == session_id@
                    && sessions@[j].reconnectable)
                &&& status.session_id == sessions@[k].session_id
                &&& status.version == sessions@[k].version
                &&& status.state == sessions@[k].state
                &&& status.process_id == sessions@[k].process_id
                &&& status.started_at == sessions@[k].started_at
                &&& status.project_name == sessions@[k].project_name
                &&& status.connection == StudioConnectionState::Connected
                &&& !status.reconnectable
                &&& status.reconnect_unavailable == Some(StudioReconnectUnavailable::AlreadyConnected)
            },
        },
{
    let wanted = to_chars(session_id);
    let mut k: usize = 0;
    while k < sessions.len()
        invariant
            k <= sessions@.len(),
            wanted@ == session_id@,
            forall|j: int| 0 <= j < k ==> !(sessions@[j].session_id@ == session_id@ && sessions@[j].reconnectable),
        decreases sessions@.len() - k,
    {
        let status = &sessions[k];
        if crate::text::equals_str(&wanted, status.session_id.as_str()) && status.reconnectable {
            let project_name = match &status.project_name {
                Some(name) => Some(name.clone()),
                None => None,
            };
            return Some(StudioSessionStatus {
                session_id: status.session_id.clone(),
                version: status.version.clone(),
                state: status.state,
                process_id: status.process_id,
                started_at: status.started_at,
                project_name,
                connection: StudioConnectionState::Connected,
                reconnectable: false,
                reconnect_unavailable: Some(StudioReconnectUnavailable::AlreadyConnected),
            });
        }
        k = k + 1;
    }
    None
}

/// The JSON of a stop request for a session, as serde writes it: the action, the session
/// ID, and its process identity.
pub open spec fn stop_control_text(session_id: Seq<char>, identity: SessionIdentity) -> Seq<char> {
    "{\"action\":\"studio.stop\",\"sessionId\":\""@ + session_id + "\",\"processId\":"@
        + decimal(identity.process_id as nat) + ",\"startedTicks\":"@ + signed_decimal_text(
        identity.started_ticks as int,
    ) + "}"@
}

/// The stop request for a session whose ID names `identity`.
pub fn stop_control_payload(session_id: &str, identity: SessionIdentity) -> (r: String)
    requires
        session_identity_spec(session_id@) == Some(identity),
    ensures
        r@ == stop_control_text(session_id@, identity),
{
    let mut out: Vec<char> = Vec::new();
    push_str(&mut out, "{\"action\":\"studio.stop\",\"sessionId\":\"");
    push_str(&mut out, session_id);
    push_str(&mut out, "\",\"processId\":");
    let pid = decimal_chars(identity.process_id as u64);
    push_all(&mut out, &pid);
    push_str(&mut out, ",\"startedTicks\":");
    let ticks = signed_decimal_chars(identity.started_ticks);
    push_all(&mut out, &ticks);
    push_str(&mut out, "}");
    string_from(&out)
}

/// What the application keeps to control a connected session: the report and control files,
/// the secrets the guest signs with, the last accepted report and the next control sequence.
pub struct RegisteredControl {
    pub report_path: String,
    pub control_path: String,
    pub security: OperationSecurity,
    pub previous_report: AuthenticatedPayload,
    pub next_sequence: u64,
    pub cleanup_report: bool,
}

impl RegisteredControl {
    /// The signed stop request for the session, at the control's next sequence.
    pub fn stop_request(&self, session_id: &str, identity: SessionIdentity) -> (r: Result<ReportEnvelope, WindowsOperationFailure>)
        requires
            session_identity_spec(session_id@) == Some(identity),
        ensures
            r is Ok <==> self.next_sequence != 0 && vstd::utf8::encode_utf8(stop_control_text(session_id@, identity)).len()
                <= crate::security::MAX_PAYLOAD_BYTES,
            r matches Ok(envelope) ==> envelope.sequence == self.next_sequence,
            r matches Ok(envelope) ==> (crate::security::authenticate_spec(envelope, self.security, crate::security::MAX_PAYLOAD_BYTES as nat)
                matches crate::security::AuthOutcome::Authenticated { sequence, payload, .. }
                && sequence == self.next_sequence
                && payload == vstd::utf8::encode_utf8(stop_control_text(session_id@, identity))),
            r matches Err(f) ==> !f.retryable,
    {
        let payload = stop_control_payload(session_id, identity);
        let bytes = payload.as_str().as_bytes();
        match authenticated_envelope(&self.security, self.next_sequence, bytes) {
            Ok(envelope) => Ok(envelope),
            Err(message) => Err(WindowsOperationFailure::from_message(message)),
        }
    }

    /// Moves to the next control sequence once a request was written.
    pub fn advance_sequence(&mut self) -> (r: Result<(), WindowsOperationFailure>)
        ensures
            r is Ok <==> old(self).next_sequence < u64::MAX,
            r is Ok ==> final(self).next_sequence == old(self).next_sequence + 1,
            r is Err ==> final(self).next_sequence == old(self).next_sequence,
            final(self).report_path == old(self).report_path,
            final(self).control_path == old(self).control_path,
            final(self).security == old(self).security,
            final(self).previous_report == old(self).previous_report,
            final(self).cleanup_report == old(self).cleanup_report,
            r matches Err(f) ==> f.message@ == "the Studio Pro control sequence was exhausted"@ && !f.retryable,
    {
        match self.next_sequence.checked_add(1) {
            Some(next) => {
                self.next_sequence = next;
                Ok(())
            },
            None => Err(report_failure("the Studio Pro control sequence was exhausted")),
        }
    }
}

/// A verdict with its error as text.
pub open spec fn result_view(r: Result<bool, String>) -> Result<bool, Seq<char>> {
    match r {
        Ok(b) => Ok(b),
        Err(m) => Err(m@),
    }
}

/// Whether a session is still open, from the sequence of the last accepted report and a
/// newly read one: an older sequence is refused, the same one changes nothing, and a new one
/// must be a successful report (`report` holds whether it succeeded and whether it lists any
/// session, or why it did not parse), which answers whether any session is left.
pub open spec fn session_active_spec(previous: u64, sequence: u64, report: Result<(bool, bool), String>) -> Result<bool, Seq<char>> {
    if sequence < previous {
        Err("the Studio Pro session report sequence regressed"@)
    } else if sequence == previous {
        Ok(true)
    } else {
        match report {
            Err(message) => Err(message@),
            Ok((succeeded, has_sessions)) => if succeeded {
                Ok(has_sessions)
            } else {
                Err("the Studio Pro session report did not succeed"@)
            },
        }
    }
}

impl RegisteredControl {
    /// Whether the session is still open, from the latest report the guest signed (see
    /// `session_active_spec`); a new successful report becomes the last accepted one.
    pub fn session_active(&mut self, authenticated: AuthenticatedPayload, report: Result<(bool, bool), String>) -> (r: Result<bool, String>)
        ensures
            result_view(r) == session_active_spec(old(self).previous_report.sequence, authenticated.sequence, report),
            (r is Ok && authenticated.sequence > old(self).previous_report.sequence)
                ==> final(self).previous_report == authenticated,
            !(r is Ok && authenticated.sequence > old(self).previous_report.sequence)
                ==> final(self).previous_report == old(self).previous_report,
            final(self).next_sequence == old(self).next_sequence,
            final(self).security == old(self).security,
            final(self).report_path == old(self).report_path,
            final(self).control_path == old(self).control_path,
            final(self).cleanup_report == old(self).cleanup_report,
    {
        if authenticated.sequence < self.previous_report.sequence {
            return Err(crate::text::string_of("the Studio Pro session report sequence regressed"));
        }
        if authenticated.sequence == self.previous_report.sequence {
            return Ok(true);
        }
        match report {
            Err(message) => Err(message),
            Ok((succeeded, has_sessions)) => {
                if !succeeded {
                    return Err(crate::text::string_of("the Studio Pro session report did not succeed"));
                }
                self.previous_report = authenticated;
                Ok(has_sessions)
            },
        }
    }
}

/// The check before a connected session is stopped: the registered status must carry the
/// process identity that the session ID names.
pub fn stop_identity(session_id: &str, status: &StudioSessionStatus) -> (r: Result<SessionIdentity, WindowsOperationFailure>)
    ensures
        match session_identity_spec(session_id@) {
            None => r matches Err(f) && f.message@ == "the Studio Pro session identifier is invalid"@,
            Some(identity) => if status.session_id@ == session_id@ && status.process_id == Some(identity.process_id)
                && (status.started_at matches Some((s, n)) && instant_ticks(s, n) == Some(identity.started_ticks)) {
                r == Ok::<SessionIdentity, WindowsOperationFailure>(identity)
            } else {
                r matches Err(f) && f.message@ == "the registered Studio Pro process identity is inconsistent"@
            },
        },
        r matches Err(f) ==> !f.retryable,
{
    let identity = match session_identity(session_id) {
        Some(identity) => identity,
        None => {
            return Err(report_failure("the Studio Pro session identifier is invalid"));
        },
    };
    let ticks = match status.started_at {
        Some((seconds, nanos)) => ticks_of(seconds, nanos),
        None => None,
    };
    let same_id = crate::text::equals_str(&to_chars(status.session_id.as_str()), session_id);
    let same_ticks = match ticks {
        Some(t) => t == identity.started_ticks,
        None => false,
    };
    if !same_id || status.process_id != Some(identity.process_id) || !same_ticks {
        return Err(report_failure("the registered Studio Pro process identity is inconsistent"));
    }
    Ok(identity)
}

/// The guest's answer to a stop request must list no session any more.
pub fn confirm_closed(remaining_sessions: usize) -> (r: Result<(), WindowsOperationFailure>)
    ensures
        r is Ok <==> remaining_sessions == 0,
        r matches Err(f) ==> f.message@ == "Windows returned sessions after confirming Studio Pro closed"@ && !f.retryable,
{
    if remaining_sessions != 0 {
        return Err(report_failure("Windows returned sessions after confirming Studio Pro closed"));
    }
    Ok(())
}

/// A connected session: its listed status and its control.
pub struct RegisteredSession {
    pub status: StudioSessionStatus,
    pub control: RegisteredControl,
}

/// How an attempt to stop a connected session ended.
#[derive(Debug, Clone, Copy, PartialEq, Eq, Structural)]
pub enum StopOutcome {
    /// The guest confirmed the session closed.
    Stopped,
    /// The stop failed and the RemoteApp client still runs.
    FailedWhileConnected,
    /// The stop failed and the RemoteApp client has exited.
    FailedAfterExit,
}

/// No text occurs twice.
pub open spec fn distinct(ids: Seq<Seq<char>>) -> bool {
    forall|i: int, j: int| 0 <= i < j < ids.len() ==> ids[i] != ids[j]
}

/// The session IDs of registered sessions.
pub open spec fn registered_ids(sessions: Seq<RegisteredSession>) -> Seq<Seq<char>> {
    sessions.map_values(|e: RegisteredSession| e.status.session_id@)
}

/// The session IDs of statuses.
pub open spec fn status_ids(statuses: Seq<StudioSessionStatus>) -> Seq<Seq<char>> {
    statuses.map_values(|s: StudioSessionStatus| s.session_id@)
}

/// The stopping statuses whose sessions are not connected, in order.
pub open spec fn extra_stopping(stopping: Seq<StudioSessionStatus>, connected: Seq<Seq<char>>) -> Seq<StudioSessionStatus>
    decreases stopping.len(),
{
    if stopping.len() == 0 {
        stopping
    } else {
        let r = extra_stopping(stopping.drop_last(), connected);
        if connected.contains(stopping.last().session_id@) {
            r
        } else {
            r.push(stopping.last())
        }
    }
}

/// The sessions listed as connected: the connected ones, then the stopping ones that are not
/// also connected.
pub open spec fn listed_candidates(sessions: Seq<RegisteredSession>, stopping: Seq<StudioSessionStatus>) -> Seq<StudioSessionStatus> {
    sessions.map_values(|e: RegisteredSession| e.status) + extra_stopping(stopping, registered_ids(sessions))
}

/// The start instants of statuses.
pub open spec fn status_starts(statuses: Seq<StudioSessionStatus>) -> Seq<Option<(i64, u32)>> {
    statuses.map_values(|s: StudioSessionStatus| s.started_at)
}


/// The connected sessions after registering `session`: it replaces the entry with its ID, or
/// is added at the end.
pub open spec fn with_session(sessions: Seq<RegisteredSession>, session: RegisteredSession) -> Seq<RegisteredSession> {
    let ids = registered_ids(sessions);
    let id = session.status.session_id@;
    if ids.contains(id) {
        sessions.update(ids.index_of(id), session)
    } else {
        sessions.push(session)
    }
}

/// The connected session with the ID, if any.
pub open spec fn session_with(sessions: Seq<RegisteredSession>, id: Seq<char>) -> Option<RegisteredSession> {
    let ids = registered_ids(sessions);
    if ids.contains(id) {
        Some(sessions[ids.index_of(id)])
    } else {
        None
    }
}

/// The connected sessions without the one with the ID.
pub open spec fn without_session(sessions: Seq<RegisteredSession>, id: Seq<char>) -> Seq<RegisteredSession> {
    let ids = registered_ids(sessions);
    if ids.contains(id) {
        sessions.remove(ids.index_of(id))
    } else {
        sessions
    }
}

/// The stopping statuses after recording `status`: it replaces the one with its ID, or is
/// added at the end.
pub open spec fn with_stopping(stopping: Seq<StudioSessionStatus>, status: StudioSessionStatus) -> Seq<StudioSessionStatus> {
    let ids = status_ids(stopping);
    if ids.contains(status.session_id@) {
        stopping.update(ids.index_of(status.session_id@), status)
    } else {
        stopping.push(status)
    }
}

/// The stopping statuses without the one with the ID.
pub open spec fn without_stopping(stopping: Seq<StudioSessionStatus>, id: Seq<char>) -> Seq<StudioSessionStatus> {
    let ids = status_ids(stopping);
    if ids.contains(id) {
        stopping.remove(ids.index_of(id))
    } else {
        stopping
    }
}

proof fn lemma_index_of_distinct(ids: Seq<Seq<char>>, k: int)
    requires
        distinct(ids),
        0 <= k < ids.len(),
    ensures
        ids.contains(ids[k]),
        ids.index_of(ids[k]) == k,
{
    assert(ids[k] == ids[k]);
    let i = ids.index_of(ids[k]);
    if i < k {
        assert(ids[i] != ids[k]);
    }
    if k < i {
        assert(ids[k] != ids[i]);
    }
}

proof fn lemma_distinct_remove(ids: Seq<Seq<char>>, k: int)
    requires
        distinct(ids),
        0 <= k < ids.len(),
    ensures
        distinct(ids.remove(k)),
{
    let r = ids.remove(k);
    assert forall|i: int, j: int| 0 <= i < j < r.len() implies r[i] != r[j] by {
        let a = if i < k { i } else { i + 1 };
        let b = if j < k { j } else { j + 1 };
        assert(r[i] == ids[a] && r[j] == ids[b]);
    }
}

proof fn lemma_distinct_push(ids: Seq<Seq<char>>, id: Seq<char>)
    requires
        distinct(ids),
        !ids.contains(id),
    ensures
        distinct(ids.push(id)),
{
    let r = ids.push(id);
    assert forall|i: int, j: int| 0 <= i < j < r.len() implies r[i] != r[j] by {
        if j == ids.len() {
            assert(r[i] == ids[i]);
        } else {
            assert(r[i] == ids[i] && r[j] == ids[j]);
        }
    }
}

/// A registered session is connected: its ID is among the connected sessions, exactly once,
/// and every other connected session stays connected.
pub proof fn lemma_register_connects(sessions: Seq<RegisteredSession>, session: RegisteredSession)
    requires
        distinct(registered_ids(sessions)),
    ensures
        registered_ids(with_session(sessions, session)).contains(session.status.session_id@),
        distinct(registered_ids(with_session(sessions, session))),
        forall|id: Seq<char>| #[trigger] registered_ids(sessions).contains(id) ==> registered_ids(with_session(sessions, session)).contains(id),
{
    let ids = registered_ids(sessions);
    let id = session.status.session_id@;
    let after = registered_ids(with_session(sessions, session));
    if ids.contains(id) {
        let k = ids.index_of(id);
        assert(after =~= ids.update(k, id));
        assert(after[k] == id);
        assert(ids.update(k, id) =~= ids);
    } else {
        assert(after =~= ids.push(id));
        assert(after[ids.len() as int] == id);
        lemma_distinct_push(ids, id);
        assert forall|x: Seq<char>| #[trigger] ids.contains(x) implies after.contains(x) by {
            let j = choose|j: int| 0 <= j < ids.len() && ids[j] == x;
            assert(after[j] == x);
        }
    }
}

/// A confirmed stop disconnects: once a connected session's stop began and the guest
/// confirmed it closed, its ID is neither connected nor stopping.
pub proof fn lemma_confirmed_stop_disconnects(sessions: Seq<RegisteredSession>, stopping: Seq<StudioSessionStatus>, id: Seq<char>)
    requires
        distinct(registered_ids(sessions)),
        distinct(status_ids(stopping)),
        session_with(sessions, id) is Some,
    ensures
        !registered_ids(without_session(sessions, id)).contains(id),
        !status_ids(without_stopping(with_stopping(stopping, session_with(sessions, id)->0.status), id)).contains(id),
{
    let ids = registered_ids(sessions);
    let k = ids.index_of(id);
    assert(ids[k] == id);
    let status = sessions[k].status;
    assert(status.session_id@ == id);
    let left = registered_ids(without_session(sessions, id));
    assert(left =~= ids.remove(k));
    if left.contains(id) {
        let j = choose|j: int| 0 <= j < left.len() && left[j] == id;
        if j < k {
            assert(ids[j] == id);
        } else {
            assert(ids[j + 1] == id);
        }
    }
    let marked = with_stopping(stopping, status);
    let mids = status_ids(marked);
    let sids = status_ids(stopping);
    if sids.contains(id) {
        let q = sids.index_of(id);
        assert(mids =~= sids.update(q, id));
        assert(sids.update(q, id) =~= sids);
    } else {
        assert(mids =~= sids.push(id));
        lemma_distinct_push(sids, id);
    }
    assert(mids.contains(id)) by {
        if sids.contains(id) {
            let q = sids.index_of(id);
            assert(mids[q] == id);
        } else {
            assert(mids[sids.len() as int] == id);
        }
    }
    let p = mids.index_of(id);
    let rest = status_ids(without_stopping(marked, id));
    assert(rest =~= mids.remove(p));
    if rest.contains(id) {
        let j = choose|j: int| 0 <= j < rest.len() && rest[j] == id;
        if j < p {
            assert(mids[j] == id);
        } else {
            assert(mids[j + 1] == id);
        }
    }
}

/// The sessions the application holds a RemoteApp connection to, and those whose stop is
/// under way. Each session ID occurs at most once in each list.
pub struct SessionRegistry {
    connected: Vec<RegisteredSession>,
    stopping: Vec<StudioSessionStatus>,
}

fn copy_status(status: &StudioSessionStatus) -> (r: StudioSessionStatus)
    ensures
        r == *status,
{
    StudioSessionStatus {
        session_id: status.session_id.clone(),
        version: status.version.clone(),
        state: status.state,
        process_id: status.process_id,
        started_at: status.started_at,
        project_name: match &status.project_name {
            Some(name) => Some(name.clone()),
            None => None,
        },
        connection: status.connection,
        reconnectable: status.reconnectable,
        reconnect_unavailable: status.reconnect_unavailable,
    }
}

fn text_is(value: &String, wanted: &Vec<char>) -> (r: bool)
    ensures
        r == (value@ == wanted@),
{
    crate::text::equals_str(wanted, value.as_str())
}

impl SessionRegistry {
    /// The connected sessions.
    pub closed spec fn sessions(&self) -> Seq<RegisteredSession> {
        self.connected@
    }

    /// The statuses of the sessions being stopped.
    pub closed spec fn stopping(&self) -> Seq<StudioSessionStatus> {
        self.stopping@
    }

    /// No session ID occurs twice in either list.
    pub open spec fn wf(&self) -> bool {
        distinct(registered_ids(self.sessions())) && distinct(status_ids(self.stopping()))
    }

    /// An empty registry.
    pub fn new() -> (r: Self)
        ensures
            r.wf(),
            r.sessions().len() == 0,
            r.stopping().len() == 0,
    {
        SessionRegistry { connected: Vec::new(), stopping: Vec::new() }
    }

    fn position(&self, wanted: &Vec<char>) -> (r: Option<usize>)
        ensures
            match r {
                Some(k) => k < self.connected@.len() && registered_ids(self.connected@)[k as int] == wanted@,
                None => !registered_ids(self.connected@).contains(wanted@),
            },
    {
        let mut k: usize = 0;
        while k < self.connected.len()
            invariant
                k <= self.connected@.len(),
                forall|j: int| 0 <= j < k ==> registered_ids(self.connected@)[j] != wanted@,
            decreases self.connected@.len() - k,
        {
            if text_is(&self.connected[k].status.session_id, wanted) {
                return Some(k);
            }
            k = k + 1;
        }
        proof {
            if registered_ids(self.connected@).contains(wanted@) {
                let j = choose|j: int| 0 <= j < registered_ids(self.connected@).len() && registered_ids(self.connected@)[j] == wanted@;
                assert(registered_ids(self.connected@)[j] != wanted@);
            }
        }
        None
    }

    fn stopping_position(&self, wanted: &Vec<char>) -> (r: Option<usize>)
        ensures
            match r {
                Some(k) => k < self.stopping@.len() && status_ids(self.stopping@)[k as int] == wanted@,
                None => !status_ids(self.stopping@).contains(wanted@),
            },
    {
        let mut k: usize = 0;
        while k < self.stopping.len()
            invariant
                k <= self.stopping@.len(),
                forall|j: int| 0 <= j < k ==> status_ids(self.stopping@)[j] != wanted@,
            decreases self.stopping@.len() - k,
        {
            if text_is(&self.stopping[k].session_id, wanted) {
                return Some(k);
            }
            k = k + 1;
        }
        proof {
            if status_ids(self.stopping@).contains(wanted@) {
                let j = choose|j: int| 0 <= j < status_ids(self.stopping@).len() && status_ids(self.stopping@)[j] == wanted@;
                assert(status_ids(self.stopping@)[j] != wanted@);
            }
        }
        None
    }

    /// Whether the application holds, or is closing, a connection to the session.
    pub fn is_connected(&self, session_id: &str) -> (r: bool)
        ensures
            r == (registered_ids(self.sessions()).contains(session_id@) || status_ids(self.stopping()).contains(session_id@)),
    {
        let wanted = to_chars(session_id);
        self.position(&wanted).is_some() || self.stopping_position(&wanted).is_some()
    }

    /// Registers a connected session; the session it replaces, which had the same ID, is
    /// handed back so that its client can be closed.
    pub fn register(&mut self, session: RegisteredSession) -> (previous: Option<RegisteredSession>)
        requires
            old(self).wf(),
        ensures
            final(self).wf(),
            final(self).sessions() == with_session(old(self).sessions(), session),
            previous == session_with(old(self).sessions(), session.status.session_id@),
            final(self).stopping() == old(self).stopping(),
    {
        let wanted = to_chars(session.status.session_id.as_str());
        let ghost before = self.connected@;
        let ghost id = session.status.session_id@;
        match self.position(&wanted) {
            Some(k) => {
                proof {
                    lemma_index_of_distinct(registered_ids(before), k as int);
                }
                let previous = self.connected.remove(k);
                self.connected.insert(k, session);
                proof {
                    assert(self.connected@ =~= before.update(k as int, session));
                    assert(registered_ids(self.connected@) =~= registered_ids(before));
                }
                Some(previous)
            },
            None => {
                self.connected.push(session);
                proof {
                    assert(registered_ids(self.connected@) =~= registered_ids(before).push(id));
                    lemma_distinct_push(registered_ids(before), id);
                }
                None
            },
        }
    }

    /// Removes the connected session with the ID and hands it back, if there is one.
    pub fn remove(&mut self, session_id: &str) -> (removed: Option<RegisteredSession>)
        requires
            old(self).wf(),
        ensures
            final(self).wf(),
            final(self).sessions() == without_session(old(self).sessions(), session_id@),
            removed == session_with(old(self).sessions(), session_id@),
            final(self).stopping() == old(self).stopping(),
    {
        let wanted = to_chars(session_id);
        let ghost before = self.connected@;
        match self.position(&wanted) {
            Some(k) => {
                proof {
                    lemma_index_of_distinct(registered_ids(before), k as int);
                }
                let removed = self.connected.remove(k);
                proof {
                    assert(registered_ids(self.connected@) =~= registered_ids(before).remove(k as int));
                    lemma_distinct_remove(registered_ids(before), k as int);
                }
                Some(removed)
            },
            None => None,
        }
    }

    fn record_stopping(&mut self, status: StudioSessionStatus)
        requires
            old(self).wf(),
        ensures
            final(self).wf(),
            final(self).stopping() == with_stopping(old(self).stopping(), status),
            final(self).sessions() == old(self).sessions(),
    {
        let wanted = to_chars(status.session_id.as_str());
        let ghost before = self.stopping@;
        let ghost id = status.session_id@;
        match self.stopping_position(&wanted) {
            Some(k) => {
                proof {
                    lemma_index_of_distinct(status_ids(before), k as int);
                }
                self.stopping.remove(k);
                self.stopping.insert(k, status);
                proof {
                    assert(self.stopping@ =~= before.update(k as int, status));
                    assert(status_ids(self.stopping@) =~= status_ids(before));
                }
            },
            None => {
                self.stopping.push(status);
                proof {
                    assert(status_ids(self.stopping@) =~= status_ids(before).push(id));
                    lemma_distinct_push(status_ids(before), id);
                }
            },
        }
    }

    fn forget_stopping(&mut self, session_id: &str)
        requires
            old(self).wf(),
        ensures
            final(self).wf(),
            final(self).stopping() == without_stopping(old(self).stopping(), session_id@),
            final(self).sessions() == old(self).sessions(),
    {
        let wanted = to_chars(session_id);
        let ghost before = self.stopping@;
        match self.stopping_position(&wanted) {
            Some(k) => {
                proof {
                    lemma_index_of_distinct(status_ids(before), k as int);
                }
                self.stopping.remove(k);
                proof {
                    assert(status_ids(self.stopping@) =~= status_ids(before).remove(k as int));
                    lemma_distinct_remove(status_ids(before), k as int);
                }
            },
            None => {},
        }
    }

    /// Starts stopping a connected session: it leaves the connected sessions and is listed as
    /// stopping, and is handed back to be stopped. A session that is already stopping is
    /// refused; one that is not connected is not this registry's to stop (`None`).
    pub fn begin_stop(&mut self, session_id: &str) -> (r: Result<Option<RegisteredSession>, WindowsOperationFailure>)
        requires
            old(self).wf(),
        ensures
            final(self).wf(),
            match session_with(old(self).sessions(), session_id@) {
                Some(session) => r == Ok::<Option<RegisteredSession>, WindowsOperationFailure>(Some(session))
                    && final(self).sessions() == without_session(old(self).sessions(), session_id@)
                    && final(self).stopping() == with_stopping(old(self).stopping(), session.status),
                None => final(self).sessions() == old(self).sessions() && final(self).stopping() == old(self).stopping()
                    && if status_ids(old(self).stopping()).contains(session_id@) {
                        r matches Err(f) && f.message@ == "the Studio Pro session is already stopping"@ && !f.retryable
                    } else {
                        r == Ok::<Option<RegisteredSession>, WindowsOperationFailure>(None)
                    },
            },
    {
        match self.remove(session_id) {
            Some(session) => {
                let status = copy_status(&session.status);
                self.record_stopping(status);
                Ok(Some(session))
            },
            None => {
                let wanted = to_chars(session_id);
                if self.stopping_position(&wanted).is_some() {
                    Err(report_failure("the Studio Pro session is already stopping"))
                } else {
                    Ok(None)
                }
            },
        }
    }


    /// The sessions listed as connected, latest start first: the connected ones and those
    /// being stopped.
    pub fn listed(&self) -> (r: Vec<StudioSessionStatus>)
        ensures
            exists|order: Seq<usize>| #![trigger is_session_order(status_starts(listed_candidates(self.sessions(), self.stopping())), order)]
                is_session_order(status_starts(listed_candidates(self.sessions(), self.stopping())), order)
                && r@.len() == order.len()
                && forall|k: int| 0 <= k < order.len() ==> r@[k] == listed_candidates(self.sessions(), self.stopping())[order[k] as int],
    {
        let ghost connected_statuses = self.connected@.map_values(|e: RegisteredSession| e.status);
        let mut all: Vec<StudioSessionStatus> = Vec::new();
        let mut i: usize = 0;
        while i < self.connected.len()
            invariant
                i <= self.connected@.len(),
                connected_statuses == self.connected@.map_values(|e: RegisteredSession| e.status),
                all@ == connected_statuses.take(i as int),
            decreases self.connected@.len() - i,
        {
            all.push(copy_status(&self.connected[i].status));
            proof {
                assert(all@ =~= connected_statuses.take(i + 1));
            }
            i = i + 1;
        }
        proof {
            assert(connected_statuses.take(self.connected@.len() as int) =~= connected_statuses);
        }
        let ghost ids = registered_ids(self.connected@);
        let mut j: usize = 0;
        while j < self.stopping.len()
            invariant
                j <= self.stopping@.len(),
                ids == registered_ids(self.connected@),
                connected_statuses == self.connected@.map_values(|e: RegisteredSession| e.status),
                all@ == connected_statuses + extra_stopping(self.stopping@.take(j as int), ids),
            decreases self.stopping@.len() - j,
        {
            let status = &self.stopping[j];
            let wanted = to_chars(status.session_id.as_str());
            proof {
                assert(self.stopping@.take(j + 1).drop_last() =~= self.stopping@.take(j as int));
                assert(self.stopping@.take(j + 1).last() == *status);
            }
            if self.position(&wanted).is_none() {
                all.push(copy_status(status));
                proof {
                    assert(all@ =~= connected_statuses + extra_stopping(self.stopping@.take(j + 1), ids));
                }
            }
            j = j + 1;
        }
        proof {
            assert(self.stopping@.take(self.stopping@.len() as int) =~= self.stopping@);
            assert(all@ == listed_candidates(self.sessions(), self.stopping()));
        }
        let mut starts: Vec<Option<(i64, u32)>> = Vec::new();
        let mut m: usize = 0;
        while m < all.len()
            invariant
                m <= all@.len(),
                starts@ == status_starts(all@).take(m as int),
            decreases all@.len() - m,
        {
            starts.push(all[m].started_at);
            proof {
                assert(starts@ =~= status_starts(all@).take(m + 1));
            }
            m = m + 1;
        }
        proof {
            assert(status_starts(all@).take(all@.len() as int) =~= status_starts(all@));
        }
        let order = crate::studio_sessions::session_order(&starts);
        let mut listed: Vec<StudioSessionStatus> = Vec::new();
        let mut k: usize = 0;
        while k < order.len()
            invariant
                k <= order@.len(),
                crate::studio_sessions::is_session_order(starts@, order@),
                starts@ == status_starts(all@),
                listed@.len() == k,
                forall|q: int| 0 <= q < k ==> listed@[q] == all@[order@[q] as int],
            decreases order@.len() - k,
        {
            listed.push(copy_status(&all[order[k]]));
            k = k + 1;
        }
        proof {
            assert(crate::studio_sessions::is_session_order(status_starts(listed_candidates(self.sessions(), self.stopping())), order@));
        }
        listed
    }

    /// Reads the latest signed report of a connected session into its control (see
    /// `RegisteredControl::session_active`); `None` when the session is not connected.
    pub fn observe(&mut self, session_id: &str, authenticated: AuthenticatedPayload, report: Result<(bool, bool), String>) -> (r: Option<Result<bool, String>>)
        requires
            old(self).wf(),
        ensures
            final(self).wf(),
            final(self).stopping() == old(self).stopping(),
            registered_ids(final(self).sessions()) == registered_ids(old(self).sessions()),
            r is Some <==> registered_ids(old(self).sessions()).contains(session_id@),
            r matches Some(v) ==> result_view(v) == session_active_spec(
                session_with(old(self).sessions(), session_id@)->0.control.previous_report.sequence,
                authenticated.sequence,
                report,
            ),
    {
        let wanted = to_chars(session_id);
        let ghost before = self.connected@;
        match self.position(&wanted) {
            Some(k) => {
                let mut entry = self.connected.remove(k);
                let verdict = entry.control.session_active(authenticated, report);
                self.connected.insert(k, entry);
                proof {
                    assert(registered_ids(self.connected@) =~= registered_ids(before));
                    assert(registered_ids(before)[k as int] == wanted@);
                    lemma_index_of_distinct(registered_ids(before), k as int);
                }
                Some(verdict)
            },
            None => None,
        }
    }

    /// Ends a stop begun with `begin_stop`: the session is no longer listed as stopping, and
    /// when the stop failed while its client still runs it is connected again (the session
    /// it replaces is handed back to be closed).
    pub fn end_stop(&mut self, session: RegisteredSession, outcome: StopOutcome) -> (previous: Option<RegisteredSession>)
        requires
            old(self).wf(),
        ensures
            final(self).wf(),
            final(self).stopping() == without_stopping(old(self).stopping(), session.status.session_id@),
            outcome == StopOutcome::FailedWhileConnected ==> final(self).sessions() == with_session(old(self).sessions(), session)
                && previous == session_with(old(self).sessions(), session.status.session_id@),
            outcome != StopOutcome::FailedWhileConnected ==> final(self).sessions() == old(self).sessions() && previous is None,
    {
        let id = session.status.session_id.clone();
        let previous = match outcome {
            StopOutcome::FailedWhileConnected => self.register(session),
            _ => None,
        };
        self.forget_stopping(id.as_str());
        previous
    }
}

} // verus!
