//! Rules of the local Mendix Runtime sessions: identifiers, readiness diagnostics, error
//! records, log paging and the failure lines of the Runtime log.
use vstd::prelude::*;
use crate::contracts::{
    BackendError, BackendErrorCode, BackendId, CapabilityId, CONTRACT_SCHEMA_VERSION,
};
use crate::outside::{spec_utf8_lossy, utf8_lossy};
use crate::text::{
    ascii_hexdigit, ascii_lower, ascii_lower_spec, contains_char, contains_seq, contains_str,
    decimal, decimal_chars, equals_str, has_prefix, is_ascii_hexdigit, lines, lines_spec,
    parse_i64, parse_i64_spec, parse_u32, parse_u32_spec, parse_usize, parse_usize_spec, push_all,
    push_str, split_char, split_spec, string_from, string_of, strip_prefix_or_same,
    strip_prefix_str, to_chars, utf8_len, utf8_length_within,
};

verus! {

/// `runtime_` and 32 hexadecimal digits of either case.
pub open spec fn runtime_session_id_valid(value: Seq<char>) -> bool {
    &&& has_prefix(value, "runtime_"@)
    &&& value.len() == "runtime_"@.len() + 32
    &&& forall|i: int| "runtime_"@.len() <= i < value.len() ==> is_ascii_hexdigit(#[trigger] value[i])
}

/// Accepts only an opaque Runtime session identifier, which can never name a path.
pub fn validate_runtime_session_id(value: &str) -> (r: Result<(), String>)
    ensures
        r is Ok <==> runtime_session_id_valid(value@),
        r matches Err(e) ==> e@ == "invalid Runtime session identifier"@,
{
    proof {
        reveal_strlit("runtime_");
    }
    let chars = to_chars(value);
    let suffix = match strip_prefix_str(&chars, "runtime_") {
        Some(suffix) => suffix,
        None => {
            return Err(string_of("invalid Runtime session identifier"));
        },
    };
    if suffix.len() != 32 {
        return Err(string_of("invalid Runtime session identifier"));
    }
    let mut i: usize = 0;
    while i < suffix.len()
        invariant
            i <= suffix.len() == 32,
            value@.len() == 40,
            suffix@ == value@.skip(8),
            forall|j: int| 0 <= j < i ==> is_ascii_hexdigit(#[trigger] suffix@[j]),
        decreases suffix.len() - i,
    {
        if !ascii_hexdigit(suffix[i]) {
            assert(value@.skip(8)[i as int] == value@[8 + i]);
            return Err(string_of("invalid Runtime session identifier"));
        }
        i = i + 1;
    }
    assert forall|k: int| 8 <= k < value@.len() implies is_ascii_hexdigit(#[trigger] value@[k]) by {
        assert(suffix@[k - 8] == value@[k]);
    }
    Ok(())
}

/// A Studio session ID as a Runtime request may link it: at most 48 bytes, `studio-`, a
/// positive process ID and positive start ticks.
pub open spec fn studio_session_link_valid(value: Seq<char>) -> bool {
    &&& utf8_len(value) <= 48
    &&& {
        let rest = strip_prefix_or_same(value, "studio-"@);
        let parts = split_spec(if has_prefix(value, "studio-"@) { rest } else { Seq::empty() }, '-');
        &&& parts.len() == 2
        &&& parse_u32_spec(parts[0]) matches Some(pid) && pid > 0
        &&& parse_i64_spec(parts[1]) matches Some(ticks) && ticks > 0
    }
}

pub fn valid_studio_session_id(value: &str) -> (r: bool)
    ensures
        r == studio_session_link_valid(value@),
{
    let chars = to_chars(value);
    if utf8_length_within(&chars, 48).is_none() {
        return false;
    }
    let rest = match strip_prefix_str(&chars, "studio-") {
        Some(rest) => rest,
        None => Vec::new(),
    };
    proof {
        if !has_prefix(value@, "studio-"@) {
            assert(rest@ =~= Seq::<char>::empty());
        }
    }
    let parts = split_char(&rest, '-');
    if parts.len() != 2 {
        return false;
    }
    let pid_ok = match parse_u32(&parts[0]) {
        Some(pid) => pid > 0,
        None => false,
    };
    let ticks_ok = match parse_i64(&parts[1]) {
        Some(ticks) => ticks > 0,
        None => false,
    };
    pid_ok && ticks_ok
}

/// The code for what the guest's port probe reported.
pub open spec fn diagnostic_code_spec(diagnostic: Option<Seq<char>>) -> BackendErrorCode {
    match diagnostic {
        Some(d) => if d == "MENDIMARU_RUNTIME_NOT_LISTENING"@ {
            BackendErrorCode::RuntimeNotListening
        } else if d == "MENDIMARU_RUNTIME_FIREWALL_BLOCKED"@ || d == "MENDIMARU_RUNTIME_LISTENING"@ {
            BackendErrorCode::RuntimeFirewallBlocked
        } else {
            BackendErrorCode::RuntimeReadinessTimeout
        },
        None => BackendErrorCode::RuntimeReadinessTimeout,
    }
}

/// A listener that the host cannot reach is reported as blocked; no listener is reported
/// as such; anything else is a readiness timeout.
pub fn diagnostic_code(diagnostic: Option<&str>) -> (c: BackendErrorCode)
    ensures
        c == diagnostic_code_spec(match diagnostic { Some(d) => Some(d@), None => None }),
{
    match diagnostic {
        Some(d) => {
            let chars = to_chars(d);
            if equals_str(&chars, "MENDIMARU_RUNTIME_NOT_LISTENING") {
                BackendErrorCode::RuntimeNotListening
            } else if equals_str(&chars, "MENDIMARU_RUNTIME_FIREWALL_BLOCKED") || equals_str(&chars, "MENDIMARU_RUNTIME_LISTENING") {
                BackendErrorCode::RuntimeFirewallBlocked
            } else {
                BackendErrorCode::RuntimeReadinessTimeout
            }
        },
        None => BackendErrorCode::RuntimeReadinessTimeout,
    }
}

pub open spec fn error_message_spec(code: BackendErrorCode) -> Seq<char> {
    match code {
        BackendErrorCode::RuntimeGuestOffline => "the WinBoat guest is offline"@,
        BackendErrorCode::RuntimePortConflict => "the WinBoat Runtime host port conflicts"@,
        BackendErrorCode::RuntimePortForwardingInvalid => "the WinBoat Runtime port forwarding is invalid"@,
        BackendErrorCode::RuntimeFirewallBlocked => "the Windows firewall or Mendix port security blocks the Runtime port"@,
        BackendErrorCode::RuntimeNotListening => "the Mendix Runtime is not listening inside the WinBoat guest"@,
        BackendErrorCode::RuntimeComposeRecoveryFailed => "the original WinBoat Compose configuration could not be recovered"@,
        BackendErrorCode::RuntimeReadinessTimeout => "the WinBoat Runtime did not become HTTP-ready before the timeout"@,
        BackendErrorCode::RuntimeSessionNotFound => "the WinBoat Runtime session was not found"@,
        BackendErrorCode::RuntimeExited => "the linked Studio Pro session ended"@,
        BackendErrorCode::RuntimeInitializationFailed => "the WinBoat Runtime forwarding failed during initialization"@,
        BackendErrorCode::InvalidRequest => "the WinBoat Runtime request is invalid"@,
        BackendErrorCode::PreconditionFailed => "a WinBoat Runtime precondition was not satisfied"@,
        _ => "the WinBoat Runtime operation could not be completed"@,
    }
}

/// The fixed message of a Runtime error code.
pub fn error_message(code: BackendErrorCode) -> (r: &'static str)
    ensures
        r@ == error_message_spec(code),
{
    match code {
        BackendErrorCode::RuntimeGuestOffline => "the WinBoat guest is offline",
        BackendErrorCode::RuntimePortConflict => "the WinBoat Runtime host port conflicts",
        BackendErrorCode::RuntimePortForwardingInvalid => "the WinBoat Runtime port forwarding is invalid",
        BackendErrorCode::RuntimeFirewallBlocked => "the Windows firewall or Mendix port security blocks the Runtime port",
        BackendErrorCode::RuntimeNotListening => "the Mendix Runtime is not listening inside the WinBoat guest",
        BackendErrorCode::RuntimeComposeRecoveryFailed => "the original WinBoat Compose configuration could not be recovered",
        BackendErrorCode::RuntimeReadinessTimeout => "the WinBoat Runtime did not become HTTP-ready before the timeout",
        BackendErrorCode::RuntimeSessionNotFound => "the WinBoat Runtime session was not found",
        BackendErrorCode::RuntimeExited => "the linked Studio Pro session ended",
        BackendErrorCode::RuntimeInitializationFailed => "the WinBoat Runtime forwarding failed during initialization",
        BackendErrorCode::InvalidRequest => "the WinBoat Runtime request is invalid",
        BackendErrorCode::PreconditionFailed => "a WinBoat Runtime precondition was not satisfied",
        _ => "the WinBoat Runtime operation could not be completed",
    }
}

pub open spec fn diagnostic_log_message_spec(code: BackendErrorCode) -> Seq<char> {
    match code {
        BackendErrorCode::RuntimeGuestOffline => "Runtime wait failed: WinBoat guest offline."@,
        BackendErrorCode::RuntimePortForwardingInvalid => "Runtime wait failed: loopback forwarding missing or invalid."@,
        BackendErrorCode::RuntimeFirewallBlocked => "Runtime wait failed: Windows firewall or Mendix port security blocked access."@,
        BackendErrorCode::RuntimeNotListening => "Runtime wait failed: no guest Runtime listener was detected."@,
        _ => "Runtime wait failed: HTTP readiness timeout."@,
    }
}

/// The Runtime log line for a failed wait.
pub fn diagnostic_log_message(code: BackendErrorCode) -> (r: &'static str)
    ensures
        r@ == diagnostic_log_message_spec(code),
{
    match code {
        BackendErrorCode::RuntimeGuestOffline => "Runtime wait failed: WinBoat guest offline.",
        BackendErrorCode::RuntimePortForwardingInvalid => "Runtime wait failed: loopback forwarding missing or invalid.",
        BackendErrorCode::RuntimeFirewallBlocked => "Runtime wait failed: Windows firewall or Mendix port security blocked access.",
        BackendErrorCode::RuntimeNotListening => "Runtime wait failed: no guest Runtime listener was detected.",
        _ => "Runtime wait failed: HTTP readiness timeout.",
    }
}

/// A Runtime error record for `capability` with `code` and its fixed message.
pub fn runtime_error(capability: CapabilityId, code: BackendErrorCode, retryable: bool, diagnostic_ref: Option<String>) -> (e: BackendError)
    ensures
        e.schema_version@ == CONTRACT_SCHEMA_VERSION@,
        e.code == code,
        e.message@ == error_message_spec(code),
        e.backend == Some(BackendId::LinuxWinboat),
        e.capability == Some(capability),
        e.reason is None,
        e.retryable == retryable,
        e.diagnostic_ref == diagnostic_ref,
{
    BackendError {
        schema_version: string_of(CONTRACT_SCHEMA_VERSION),
        code,
        message: string_of(error_message(code)),
        backend: Some(BackendId::LinuxWinboat),
        capability: Some(capability),
        reason: None,
        retryable,
        diagnostic_ref,
    }
}

/// The failures a later retry may clear: the guest, the port and the listener.
pub open spec fn failure_retryable(code: Option<BackendErrorCode>) -> bool {
    match code {
        Some(BackendErrorCode::RuntimeGuestOffline) | Some(BackendErrorCode::RuntimePortConflict)
        | Some(BackendErrorCode::RuntimePortForwardingInvalid) | Some(BackendErrorCode::RuntimeFirewallBlocked)
        | Some(BackendErrorCode::RuntimeNotListening) | Some(BackendErrorCode::RuntimeReadinessTimeout) => true,
        _ => false,
    }
}

/// The error a session with `failure_code` answers requests with.
pub fn record_error(failure_code: Option<BackendErrorCode>, capability: CapabilityId, artifact_id: &str) -> (e: BackendError)
    ensures
        e.code == (match failure_code { Some(c) => c, None => BackendErrorCode::OperationFailed }),
        e.retryable == failure_retryable(failure_code),
        e.capability == Some(capability),
        e.diagnostic_ref matches Some(d) && d@ == artifact_id@,
        e.message@ == error_message_spec(e.code),
{
    let code = match failure_code {
        Some(c) => c,
        None => BackendErrorCode::OperationFailed,
    };
    let retryable = match failure_code {
        Some(BackendErrorCode::RuntimeGuestOffline) | Some(BackendErrorCode::RuntimePortConflict)
        | Some(BackendErrorCode::RuntimePortForwardingInvalid) | Some(BackendErrorCode::RuntimeFirewallBlocked)
        | Some(BackendErrorCode::RuntimeNotListening) | Some(BackendErrorCode::RuntimeReadinessTimeout) => true,
        _ => false,
    };
    runtime_error(capability, code, retryable, Some(string_of(artifact_id)))
}

/// The local URL of a Runtime forwarded to `host_port` on IPv4 loopback.
pub fn runtime_url(host_port: u16) -> (r: String)
    ensures
        r@ == "http://127.0.0.1:"@ + decimal(host_port as nat),
{
    let mut out = to_chars("http://127.0.0.1:");
    let digits = decimal_chars(host_port as u64);
    push_all(&mut out, &digits);
    string_from(&out)
}

/// Whether a container runtime's message says the host port is taken.
pub open spec fn port_conflict_spec(message: Seq<char>) -> bool {
    let m = ascii_lower_spec(message);
    ||| contains_seq(m, "address already in use"@)
    ||| contains_seq(m, "port is already allocated"@)
    ||| contains_seq(m, "bind for"@)
    ||| contains_seq(m, "port conflict"@)
}

pub fn port_conflict_message(message: &str) -> (r: bool)
    ensures
        r == port_conflict_spec(message@),
{
    let chars = to_chars(message);
    let m = ascii_lower(&chars);
    contains_str(&m, "address already in use") || contains_str(&m, "port is already allocated")
        || contains_str(&m, "bind for") || contains_str(&m, "port conflict")
}

/// A line the Runtime log accepts: one line of at most 512 bytes.
pub open spec fn loggable_spec(message: Seq<char>) -> bool {
    !message.contains('\n') && !message.contains('\r') && utf8_len(message) <= 512
}

pub fn loggable(message: &str) -> (r: bool)
    ensures
        r == loggable_spec(message@),
{
    let chars = to_chars(message);
    !contains_char(&chars, '\n') && !contains_char(&chars, '\r') && utf8_length_within(&chars, 512).is_some()
}

/// At most this many log lines are returned at once.
pub const LOG_PAGE_LINES: usize = 1000;

/// One page of the Runtime log.
pub struct LogPage {
    pub entries: Vec<String>,
    pub next_cursor: Option<usize>,
    pub truncated: bool,
}

/// Where a page starts: the cursor's line number, or the first line without a cursor.
pub open spec fn page_start(cursor: Option<Seq<char>>) -> Option<usize> {
    match cursor {
        Some(c) => parse_usize_spec(c),
        None => Some(0),
    }
}

/// The lines of `content` from the cursor on, at most `LOG_PAGE_LINES` of them, and the
/// cursor of the rest; `None` for a cursor that is not a line number within the log.
pub fn page_log(content: &[u8], cursor: Option<&str>) -> (r: Option<LogPage>)
    ensures
        ({
            let ls = lines_spec(spec_utf8_lossy(content@));
            let start = page_start(match cursor { Some(c) => Some(c@), None => None });
            match start {
                None => r is None,
                Some(s) => if s > ls.len() {
                    r is None
                } else {
                    let end = if s + LOG_PAGE_LINES < ls.len() { s + LOG_PAGE_LINES } else { ls.len() as int };
                    r matches Some(page) && {
                        &&& page.entries@.len() == end - s
                        &&& forall|i: int| 0 <= i < end - s ==> (#[trigger] page.entries@[i])@ == ls[s + i]
                        &&& page.truncated == (end < ls.len())
                        &&& page.next_cursor == (if end < ls.len() { Some(end as usize) } else { None })
                    }
                },
            }
        }),
{
    let start = match cursor {
        Some(c) => {
            let cc = to_chars(c);
            match parse_usize(&cc) {
                Some(s) => s,
                None => {
                    return None;
                },
            }
        },
        None => 0,
    };
    let text = utf8_lossy(content);
    let chars = to_chars(text.as_str());
    let ls = lines(&chars);
    if start > ls.len() {
        return None;
    }
    let end = if ls.len() - start > LOG_PAGE_LINES { start + LOG_PAGE_LINES } else { ls.len() };
    let mut entries: Vec<String> = Vec::new();
    let mut i: usize = start;
    while i < end
        invariant
            start <= i <= end <= ls@.len(),
            entries@.len() == i - start,
            forall|k: int| 0 <= k < i - start ==> (#[trigger] entries@[k])@ == ls@[start + k]@,
        decreases end - i,
    {
        entries.push(string_from(&ls[i]));
        i = i + 1;
    }
    let truncated = end < ls.len();
    Some(LogPage { entries, next_cursor: if truncated { Some(end) } else { None }, truncated })
}

} // verus!
