//! The environment checks shown to the user: each dependency's status, what was observed,
//! the recovery action, and a stable error code. Only sanitized values are observed.
use vstd::prelude::*;
use crate::container::{container_status_name, ContainerStatus};
use crate::outside::{spec_utf8_lossy, utf8_lossy};
use crate::text::{
    ascii_alphanumeric, ascii_digit, ascii_lowercase, contains_char, decimal, decimal_chars,
    is_ascii_alphanumeric, is_ascii_digit, is_ascii_lowercase, push_all, push_str, string_from,
    string_of, to_chars, trim, trim_spec, utf8_len, utf8_length_within, words, words_spec,
};

verus! {

#[derive(Debug, Clone, Copy, PartialEq, Eq, Structural)]
pub enum EnvironmentDiagnosticId {
    Winboat,
    Compose,
    ContainerRuntime,
    Freerdp,
    SharedDirectory,
    SharedMount,
    Container,
    GuestApi,
    GuestClock,
    Rdp,
    MarketplaceBrowser,
}

#[derive(Debug, Clone, Copy, PartialEq, Eq, Structural)]
pub enum EnvironmentDiagnosticStatus {
    Success,
    Warning,
    Failure,
}

#[derive(Debug, Clone, Copy, PartialEq, Eq, Structural)]
pub enum EnvironmentDiagnosticAction {
    Redetect,
    OpenSettings,
    StartWinboat,
    OpenWinboat,
}

#[derive(Debug, Clone, Copy, PartialEq, Eq, Structural)]
pub enum EnvironmentDiagnosticErrorCode {
    ExternalProcessSpawnFailed,
    ExternalProcessTimeout,
    ExternalProcessCancelled,
    ExternalProcessInterrupted,
    GuestClockSkewExceeded,
    QemuBootTimeout,
    ContainerExitedDuringStartup,
    GuestStartupTimeout,
}

#[derive(Debug, Clone, PartialEq, Eq)]
pub struct EnvironmentDiagnostic {
    pub id: EnvironmentDiagnosticId,
    pub status: EnvironmentDiagnosticStatus,
    pub observed: Option<String>,
    pub action: Option<EnvironmentDiagnosticAction>,
    pub error_code: Option<EnvironmentDiagnosticErrorCode>,
}

/// A diagnostic with its observed text as characters.
pub struct DiagnosticView {
    pub id: EnvironmentDiagnosticId,
    pub status: EnvironmentDiagnosticStatus,
    pub observed: Option<Seq<char>>,
    pub action: Option<EnvironmentDiagnosticAction>,
    pub error_code: Option<EnvironmentDiagnosticErrorCode>,
}

pub open spec fn opt_view(o: Option<String>) -> Option<Seq<char>> {
    match o {
        Some(s) => Some(s@),
        None => None,
    }
}

impl EnvironmentDiagnostic {
    pub open spec fn view_of(&self) -> DiagnosticView {
        DiagnosticView {
            id: self.id,
            status: self.status,
            observed: opt_view(self.observed),
            action: self.action,
            error_code: self.error_code,
        }
    }
}

/// How a probed command failed.
#[derive(Debug, Clone, Copy, PartialEq, Eq, Structural)]
pub enum CommandFailureKind {
    Spawn,
    Timeout,
    Cancelled,
    Wait,
    Cleanup,
}

/// The stable error code for a failed probe command.
pub open spec fn environment_error_code_spec(kind: CommandFailureKind) -> EnvironmentDiagnosticErrorCode {
    match kind {
        CommandFailureKind::Spawn => EnvironmentDiagnosticErrorCode::ExternalProcessSpawnFailed,
        CommandFailureKind::Timeout => EnvironmentDiagnosticErrorCode::ExternalProcessTimeout,
        CommandFailureKind::Cancelled => EnvironmentDiagnosticErrorCode::ExternalProcessCancelled,
        _ => EnvironmentDiagnosticErrorCode::ExternalProcessInterrupted,
    }
}

pub fn environment_error_code(kind: CommandFailureKind) -> (c: EnvironmentDiagnosticErrorCode)
    ensures
        c == environment_error_code_spec(kind),
{
    match kind {
        CommandFailureKind::Spawn => EnvironmentDiagnosticErrorCode::ExternalProcessSpawnFailed,
        CommandFailureKind::Timeout => EnvironmentDiagnosticErrorCode::ExternalProcessTimeout,
        CommandFailureKind::Cancelled => EnvironmentDiagnosticErrorCode::ExternalProcessCancelled,
        CommandFailureKind::Wait | CommandFailureKind::Cleanup => EnvironmentDiagnosticErrorCode::ExternalProcessInterrupted,
    }
}

/// A character that may stay at either end of a version token.
pub open spec fn version_edge_char(c: char) -> bool {
    is_ascii_alphanumeric(c) || c == '.' || c == '-' || c == '+' || c == '_'
}

/// The token without the characters at either end that cannot belong to a version.
pub open spec fn trim_version_token(t: Seq<char>) -> Seq<char>
    decreases t.len(),
{
    if t.len() > 0 && !version_edge_char(t[0]) {
        trim_version_token(t.drop_first())
    } else if t.len() > 0 && !version_edge_char(t.last()) {
        trim_version_token(t.drop_last())
    } else {
        t
    }
}

/// A version token: starts with a digit, contains a dot, at most 64 bytes.
pub open spec fn version_token(t: Seq<char>) -> bool {
    t.len() > 0 && is_ascii_digit(t[0]) && t.contains('.') && utf8_len(t) <= 64
}

/// The first version token among the trimmed words of `words`.
pub open spec fn first_version(words: Seq<Seq<char>>) -> Option<Seq<char>>
    decreases words.len(),
{
    if words.len() == 0 {
        None
    } else if version_token(trim_version_token(words[0])) {
        Some(trim_version_token(words[0]))
    } else {
        first_version(words.drop_first())
    }
}

fn trim_version_token_exec(t: &[char]) -> (r: Vec<char>)
    ensures
        r@ == trim_version_token(t@),
{
    let mut start: usize = 0;
    let mut end: usize = t.len();
    assert(t@.subrange(0, end as int) =~= t@);
    while start < end && !(ascii_alphanumeric(t[start]) || t[start] == '.' || t[start] == '-' || t[start] == '+' || t[start] == '_')
        invariant
            start <= end == t.len(),
            trim_version_token(t@.subrange(start as int, end as int)) == trim_version_token(t@),
        decreases end - start,
    {
        assert(t@.subrange(start as int, end as int).drop_first() =~= t@.subrange(start as int + 1, end as int));
        start = start + 1;
    }
    while start < end && !(ascii_alphanumeric(t[end - 1]) || t[end - 1] == '.' || t[end - 1] == '-' || t[end - 1] == '+' || t[end - 1] == '_')
        invariant
            start <= end <= t.len(),
            trim_version_token(t@.subrange(start as int, end as int)) == trim_version_token(t@),
            start < end ==> version_edge_char(t@[start as int]),
        decreases end - start,
    {
        assert(t@.subrange(start as int, end as int).drop_last() =~= t@.subrange(start as int, end as int - 1));
        end = end - 1;
    }
    crate::text::slice(t, start, end)
}

/// The first whitespace-separated token of the output that, stripped of surrounding
/// punctuation, looks like a version: it starts with a digit, contains a dot and is at most
/// 64 bytes. Nothing else of a tool's output is ever shown.
pub fn extract_version(output: &[u8]) -> (r: Option<String>)
    ensures
        opt_view(r) == first_version(words_spec(spec_utf8_lossy(output@))),
{
    let text = utf8_lossy(output);
    let chars = to_chars(text.as_str());
    let tokens = words(&chars);
    let mut i: usize = 0;
    assert(words_spec(chars@).skip(0) =~= words_spec(chars@));
    while i < tokens.len()
        invariant
            i <= tokens.len(),
            chars@ == spec_utf8_lossy(output@),
            tokens@.len() == words_spec(chars@).len(),
            forall|j: int| 0 <= j < tokens@.len() ==> (#[trigger] tokens@[j])@ == words_spec(chars@)[j],
            first_version(words_spec(chars@)) == first_version(words_spec(chars@).skip(i as int)),
        decreases tokens.len() - i,
    {
        let token = trim_version_token_exec(&tokens[i]);
        proof {
            let rest = words_spec(chars@).skip(i as int);
            assert(rest[0] == tokens@[i as int]@);
            assert(rest.drop_first() =~= words_spec(chars@).skip(i as int + 1));
        }
        if token.len() > 0 && ascii_digit(token[0]) && contains_char(&token, '.') {
            match utf8_length_within(&token, 64) {
                Some(_) => {
                    proof {
                        let rest = words_spec(chars@).skip(i as int);
                        assert(version_token(token@));
                        assert(first_version(rest) == Some(token@));
                    }
                    return Some(string_from(&token));
                },
                None => {},
            }
        }
        i = i + 1;
    }
    proof {
        assert(words_spec(chars@).skip(i as int).len() == 0);
    }
    None
}


/// What probing one tool found.
#[derive(Debug, Clone, Default)]
pub struct ToolProbe {
    pub available: bool,
    pub usable: bool,
    pub version: Option<String>,
    pub error_code: Option<EnvironmentDiagnosticErrorCode>,
}

/// The guest clock as the guest API's `Date` header shows it.
#[derive(Debug, Clone, Copy, PartialEq, Eq, Structural)]
pub enum GuestClockProbe {
    /// The guest responded, but its clock could not be measured.
    Unmeasurable,
    /// Guest-minus-host skew in whole seconds.
    Measured(i64),
}

pub const GUEST_CLOCK_SKEW_SUCCESS_SECONDS: i64 = 5;

pub const GUEST_CLOCK_SKEW_WARNING_SECONDS: i64 = 60;

/// Everything the environment checks are decided from.
#[derive(Debug, Clone)]
pub struct LinuxDiagnosticState {
    pub winboat_available: bool,
    pub compose_available: bool,
    pub compose_valid: bool,
    pub runtime: ToolProbe,
    pub freerdp: ToolProbe,
    pub shared_directory_available: bool,
    pub shared_mount_matches: bool,
    pub container_status: ContainerStatus,
    pub container_error_code: Option<EnvironmentDiagnosticErrorCode>,
    pub guest_online: bool,
    pub guest_error_code: Option<EnvironmentDiagnosticErrorCode>,
    pub guest_clock: Option<GuestClockProbe>,
    pub rdp_reachable: bool,
    pub rdp_error_code: Option<EnvironmentDiagnosticErrorCode>,
    pub browser: ToolProbe,
    pub browser_sandbox_available: bool,
}

impl LinuxDiagnosticState {
    pub open spec fn ready_spec(&self) -> bool {
        &&& self.winboat_available
        &&& self.compose_valid
        &&& self.runtime.usable
        &&& self.freerdp.usable
        &&& self.shared_directory_available
        &&& self.shared_mount_matches
        &&& self.container_status == ContainerStatus::Running
        &&& self.guest_online
        &&& self.rdp_reachable
    }

    /// Whether Studio operations can run: every dependency except the browser and the
    /// guest clock is in order.
    pub fn ready(&self) -> (b: bool)
        ensures
            b == self.ready_spec(),
    {
        self.winboat_available && self.compose_valid && self.runtime.usable && self.freerdp.usable
            && self.shared_directory_available && self.shared_mount_matches
            && self.container_status.is_running() && self.guest_online && self.rdp_reachable
    }
}

/// A clocksource name worth showing: the trimmed text, 1 to 32 lower-case ASCII letters,
/// digits, `-` or `_`.
pub open spec fn clocksource_valid(v: Seq<char>) -> bool {
    &&& v.len() > 0
    &&& v.len() <= 32
    &&& forall|i: int| 0 <= i < v.len() ==> (is_ascii_lowercase(#[trigger] v[i]) || is_ascii_digit(v[i]) || v[i] == '-' || v[i] == '_')
}

pub open spec fn sanitized_clocksource_spec(value: Seq<char>) -> Option<Seq<char>> {
    if clocksource_valid(trim_spec(value)) {
        Some(trim_spec(value))
    } else {
        None
    }
}

/// The host's clocksource name when it is a plain, bounded name; anything else is not
/// shown.
pub fn sanitized_host_clocksource(value: &str) -> (r: Option<String>)
    ensures
        opt_view(r) == sanitized_clocksource_spec(value@),
{
    let chars = to_chars(value);
    let t = trim(&chars);
    if t.len() == 0 || t.len() > 32 {
        return None;
    }
    let mut i: usize = 0;
    while i < t.len()
        invariant
            i <= t.len(),
            t@ == trim_spec(value@),
            forall|j: int| 0 <= j < i ==> (is_ascii_lowercase(#[trigger] t@[j]) || is_ascii_digit(t@[j]) || t@[j] == '-' || t@[j] == '_'),
        decreases t.len() - i,
    {
        let c = t[i];
        if !(ascii_lowercase(c) || ascii_digit(c) || c == '-' || c == '_') {
            assert(!clocksource_valid(t@));
            return None;
        }
        i = i + 1;
    }
    Some(string_from(&t))
}

pub open spec fn observed_tool_spec(p: ToolProbe) -> Option<Seq<char>> {
    match p.version {
        Some(v) => Some(v@),
        None => if p.available { Some("detected-but-unusable"@) } else { None },
    }
}

/// The tool's version, or that it was found but is unusable.
pub fn observed_tool(probe: &ToolProbe) -> (r: Option<String>)
    ensures
        opt_view(r) == observed_tool_spec(*probe),
{
    match &probe.version {
        Some(v) => Some(string_of(v.as_str())),
        None => if probe.available {
            Some(string_of("detected-but-unusable"))
        } else {
            None
        },
    }
}

/// The magnitude of a skew, as `i64::unsigned_abs` gives it.
pub open spec fn skew_magnitude(skew: i64) -> int {
    if skew < 0 { -(skew as int) } else { skew as int }
}

pub open spec fn guest_clock_status_spec(s: LinuxDiagnosticState) -> EnvironmentDiagnosticStatus {
    if !s.guest_online {
        if s.container_status == ContainerStatus::Running {
            EnvironmentDiagnosticStatus::Failure
        } else {
            EnvironmentDiagnosticStatus::Warning
        }
    } else {
        match s.guest_clock {
            Some(GuestClockProbe::Measured(skew)) => if skew_magnitude(skew) <= GUEST_CLOCK_SKEW_SUCCESS_SECONDS {
                EnvironmentDiagnosticStatus::Success
            } else if skew_magnitude(skew) <= GUEST_CLOCK_SKEW_WARNING_SECONDS {
                EnvironmentDiagnosticStatus::Warning
            } else {
                EnvironmentDiagnosticStatus::Failure
            },
            _ => EnvironmentDiagnosticStatus::Warning,
        }
    }
}

/// The guest clock check: skews up to 5 s pass, up to 60 s warn, beyond that fail; an
/// offline guest fails while its container runs.
pub fn guest_clock_status(state: &LinuxDiagnosticState) -> (r: EnvironmentDiagnosticStatus)
    ensures
        r == guest_clock_status_spec(*state),
{
    if !state.guest_online {
        return if state.container_status.is_running() {
            EnvironmentDiagnosticStatus::Failure
        } else {
            EnvironmentDiagnosticStatus::Warning
        };
    }
    match state.guest_clock {
        Some(GuestClockProbe::Measured(skew)) => {
            let magnitude: u64 = if skew < 0 {
                if skew == i64::MIN { 0x8000_0000_0000_0000u64 } else { (-skew) as u64 }
            } else {
                skew as u64
            };
            if magnitude <= 5 {
                EnvironmentDiagnosticStatus::Success
            } else if magnitude <= 60 {
                EnvironmentDiagnosticStatus::Warning
            } else {
                EnvironmentDiagnosticStatus::Failure
            }
        },
        _ => EnvironmentDiagnosticStatus::Warning,
    }
}

pub open spec fn observed_guest_clock_spec(s: LinuxDiagnosticState, clocksource: Option<Seq<char>>) -> Option<Seq<char>> {
    if !s.guest_online {
        None
    } else {
        let base = match s.guest_clock {
            Some(GuestClockProbe::Measured(skew)) => "skew="@ + crate::text::signed_decimal_text(skew as int) + "s"@,
            _ => "skew=unavailable"@,
        };
        match clocksource {
            Some(cs) => Some(base + "; host-clocksource="@ + cs),
            None => Some(base),
        }
    }
}

/// The observed skew, and the host's clocksource when it is known and plain.
pub fn observed_guest_clock(state: &LinuxDiagnosticState, clocksource: &Option<String>) -> (r: Option<String>)
    ensures
        opt_view(r) == observed_guest_clock_spec(*state, opt_view(*clocksource)),
{
    if !state.guest_online {
        return None;
    }
    let mut out: Vec<char> = Vec::new();
    match state.guest_clock {
        Some(GuestClockProbe::Measured(skew)) => {
            push_str(&mut out, "skew=");
            let digits = crate::text::signed_decimal_chars(skew);
            push_all(&mut out, &digits);
            push_str(&mut out, "s");
        },
        _ => {
            push_str(&mut out, "skew=unavailable");
        },
    }
    let ghost base = out@;
    match clocksource {
        Some(cs) => {
            push_str(&mut out, "; host-clocksource=");
            push_str(&mut out, cs.as_str());
            assert(out@ =~= base + "; host-clocksource="@ + cs@);
        },
        None => {},
    }
    Some(string_from(&out))
}

pub open spec fn guest_clock_action_spec(s: LinuxDiagnosticState) -> Option<EnvironmentDiagnosticAction> {
    if !s.guest_online {
        Some(if s.container_status == ContainerStatus::Running {
            EnvironmentDiagnosticAction::OpenWinboat
        } else {
            EnvironmentDiagnosticAction::StartWinboat
        })
    } else if guest_clock_status_spec(s) != EnvironmentDiagnosticStatus::Success {
        Some(EnvironmentDiagnosticAction::Redetect)
    } else {
        None
    }
}

pub fn guest_clock_action(state: &LinuxDiagnosticState) -> (r: Option<EnvironmentDiagnosticAction>)
    ensures
        r == guest_clock_action_spec(*state),
{
    if !state.guest_online {
        return Some(if state.container_status.is_running() {
            EnvironmentDiagnosticAction::OpenWinboat
        } else {
            EnvironmentDiagnosticAction::StartWinboat
        });
    }
    if guest_clock_status(state) != EnvironmentDiagnosticStatus::Success {
        Some(EnvironmentDiagnosticAction::Redetect)
    } else {
        None
    }
}

pub open spec fn guest_clock_error_code_spec(s: LinuxDiagnosticState) -> Option<EnvironmentDiagnosticErrorCode> {
    if guest_clock_status_spec(s) == EnvironmentDiagnosticStatus::Failure {
        Some(EnvironmentDiagnosticErrorCode::GuestClockSkewExceeded)
    } else {
        None
    }
}

pub fn guest_clock_error_code(state: &LinuxDiagnosticState) -> (r: Option<EnvironmentDiagnosticErrorCode>)
    ensures
        r == guest_clock_error_code_spec(*state),
{
    if guest_clock_status(state) == EnvironmentDiagnosticStatus::Failure {
        Some(EnvironmentDiagnosticErrorCode::GuestClockSkewExceeded)
    } else {
        None
    }
}

pub open spec fn observed_browser_spec(p: ToolProbe, sandbox_available: bool) -> Option<Seq<char>> {
    if !p.usable {
        observed_tool_spec(p)
    } else {
        let sandbox = if sandbox_available { "sandbox=active"@ } else { "sandbox=unavailable"@ };
        match p.version {
            Some(v) => Some(v@ + "; "@ + sandbox),
            None => if p.available { Some(sandbox) } else { None },
        }
    }
}

/// The browser's version and whether its sandbox is active.
pub fn observed_browser(probe: &ToolProbe, sandbox_available: bool) -> (r: Option<String>)
    ensures
        opt_view(r) == observed_browser_spec(*probe, sandbox_available),
{
    if !probe.usable {
        return observed_tool(probe);
    }
    let sandbox = if sandbox_available { "sandbox=active" } else { "sandbox=unavailable" };
    match &probe.version {
        Some(v) => {
            let mut out = to_chars(v.as_str());
            push_str(&mut out, "; ");
            push_str(&mut out, sandbox);
            Some(string_from(&out))
        },
        None => if probe.available {
            Some(string_of(sandbox))
        } else {
            None
        },
    }
}

pub open spec fn status_of(ok: bool) -> EnvironmentDiagnosticStatus {
    if ok { EnvironmentDiagnosticStatus::Success } else { EnvironmentDiagnosticStatus::Failure }
}

pub open spec fn unless(ok: bool, action: EnvironmentDiagnosticAction) -> Option<EnvironmentDiagnosticAction> {
    if ok { None } else { Some(action) }
}

pub open spec fn dv(
    id: EnvironmentDiagnosticId,
    status: EnvironmentDiagnosticStatus,
    observed: Option<Seq<char>>,
    action: Option<EnvironmentDiagnosticAction>,
    error_code: Option<EnvironmentDiagnosticErrorCode>,
) -> DiagnosticView {
    DiagnosticView { id, status, observed, action, error_code }
}

/// The eleven checks, in display order, decided from `s`; `clocksource` is the sanitized
/// host clocksource, when there is one.
pub open spec fn linux_diagnostics_spec(s: LinuxDiagnosticState, clocksource: Option<Seq<char>>) -> Seq<DiagnosticView> {
    let running = s.container_status == ContainerStatus::Running;
    seq![
        dv(EnvironmentDiagnosticId::Winboat, status_of(s.winboat_available), None,
            unless(s.winboat_available, EnvironmentDiagnosticAction::Redetect), None),
        dv(EnvironmentDiagnosticId::Compose, status_of(s.compose_valid),
            if s.compose_available { Some(if s.compose_valid { "valid"@ } else { "invalid"@ }) } else { None },
            unless(s.compose_valid, if s.compose_available { EnvironmentDiagnosticAction::OpenSettings } else { EnvironmentDiagnosticAction::Redetect }),
            None),
        dv(EnvironmentDiagnosticId::ContainerRuntime, status_of(s.runtime.usable), observed_tool_spec(s.runtime),
            unless(s.runtime.usable, EnvironmentDiagnosticAction::OpenSettings), s.runtime.error_code),
        dv(EnvironmentDiagnosticId::Freerdp, status_of(s.freerdp.usable), observed_tool_spec(s.freerdp),
            unless(s.freerdp.usable, EnvironmentDiagnosticAction::Redetect), s.freerdp.error_code),
        dv(EnvironmentDiagnosticId::SharedDirectory, status_of(s.shared_directory_available), None,
            unless(s.shared_directory_available, EnvironmentDiagnosticAction::OpenSettings), None),
        dv(EnvironmentDiagnosticId::SharedMount,
            if s.shared_mount_matches { EnvironmentDiagnosticStatus::Success }
            else if s.compose_valid && s.shared_directory_available { EnvironmentDiagnosticStatus::Failure }
            else { EnvironmentDiagnosticStatus::Warning },
            None, unless(s.shared_mount_matches, EnvironmentDiagnosticAction::OpenSettings), None),
        dv(EnvironmentDiagnosticId::Container,
            if running { EnvironmentDiagnosticStatus::Success }
            else if s.container_status == ContainerStatus::Dead || s.container_status == ContainerStatus::Unknown { EnvironmentDiagnosticStatus::Failure }
            else { EnvironmentDiagnosticStatus::Warning },
            Some(s.container_status.name_spec()), unless(running, EnvironmentDiagnosticAction::StartWinboat), s.container_error_code),
        dv(EnvironmentDiagnosticId::GuestApi,
            if s.guest_online { EnvironmentDiagnosticStatus::Success } else if running { EnvironmentDiagnosticStatus::Failure } else { EnvironmentDiagnosticStatus::Warning },
            None, unless(s.guest_online, if running { EnvironmentDiagnosticAction::OpenWinboat } else { EnvironmentDiagnosticAction::StartWinboat }),
            s.guest_error_code),
        dv(EnvironmentDiagnosticId::GuestClock, guest_clock_status_spec(s), observed_guest_clock_spec(s, clocksource),
            guest_clock_action_spec(s), guest_clock_error_code_spec(s)),
        dv(EnvironmentDiagnosticId::Rdp,
            if s.rdp_reachable { EnvironmentDiagnosticStatus::Success } else if running { EnvironmentDiagnosticStatus::Failure } else { EnvironmentDiagnosticStatus::Warning },
            None, unless(s.rdp_reachable, if running { EnvironmentDiagnosticAction::OpenWinboat } else { EnvironmentDiagnosticAction::StartWinboat }),
            s.rdp_error_code),
        dv(EnvironmentDiagnosticId::MarketplaceBrowser,
            if s.browser.usable && s.browser_sandbox_available { EnvironmentDiagnosticStatus::Success }
            else if s.browser.usable { EnvironmentDiagnosticStatus::Failure } else { EnvironmentDiagnosticStatus::Warning },
            observed_browser_spec(s.browser, s.browser_sandbox_available),
            unless(s.browser.usable && s.browser_sandbox_available, EnvironmentDiagnosticAction::Redetect),
            s.browser.error_code),
    ]
}

fn diagnostic(
    id: EnvironmentDiagnosticId,
    status: EnvironmentDiagnosticStatus,
    observed: Option<String>,
    action: Option<EnvironmentDiagnosticAction>,
    error_code: Option<EnvironmentDiagnosticErrorCode>,
) -> (d: EnvironmentDiagnostic)
    ensures
        d.view_of() == dv(id, status, opt_view(observed), action, error_code),
{
    EnvironmentDiagnostic { id, status, observed, action, error_code }
}

fn status_from(ok: bool) -> (s: EnvironmentDiagnosticStatus)
    ensures
        s == status_of(ok),
{
    if ok { EnvironmentDiagnosticStatus::Success } else { EnvironmentDiagnosticStatus::Failure }
}

fn action_unless(ok: bool, action: EnvironmentDiagnosticAction) -> (r: Option<EnvironmentDiagnosticAction>)
    ensures
        r == unless(ok, action),
{
    if ok { None } else { Some(action) }
}

/// The environment checks, in display order. `host_clocksource` is the raw content of the
/// host's current-clocksource file, when it could be read; only a sanitized name is shown.
pub fn build_linux_diagnostics(state: &LinuxDiagnosticState, host_clocksource: Option<&str>) -> (r: Vec<EnvironmentDiagnostic>)
    ensures
        r@.len() == 11,
        forall|i: int| 0 <= i < 11 ==> (#[trigger] r@[i]).view_of() == linux_diagnostics_spec(
            *state,
            match host_clocksource { Some(raw) => sanitized_clocksource_spec(raw@), None => None },
        )[i],
{
    let running = state.container_status.is_running();
    let clocksource = match host_clocksource {
        Some(raw) => sanitized_host_clocksource(raw),
        None => None,
    };
    let mut out: Vec<EnvironmentDiagnostic> = Vec::new();
    out.push(diagnostic(EnvironmentDiagnosticId::Winboat, status_from(state.winboat_available), None,
        action_unless(state.winboat_available, EnvironmentDiagnosticAction::Redetect), None));
    let compose_observed = if state.compose_available {
        Some(string_of(if state.compose_valid { "valid" } else { "invalid" }))
    } else {
        None
    };
    out.push(diagnostic(EnvironmentDiagnosticId::Compose, status_from(state.compose_valid), compose_observed,
        action_unless(state.compose_valid, if state.compose_available { EnvironmentDiagnosticAction::OpenSettings } else { EnvironmentDiagnosticAction::Redetect }),
        None));
    out.push(diagnostic(EnvironmentDiagnosticId::ContainerRuntime, status_from(state.runtime.usable), observed_tool(&state.runtime),
        action_unless(state.runtime.usable, EnvironmentDiagnosticAction::OpenSettings), state.runtime.error_code));
    out.push(diagnostic(EnvironmentDiagnosticId::Freerdp, status_from(state.freerdp.usable), observed_tool(&state.freerdp),
        action_unless(state.freerdp.usable, EnvironmentDiagnosticAction::Redetect), state.freerdp.error_code));
    out.push(diagnostic(EnvironmentDiagnosticId::SharedDirectory, status_from(state.shared_directory_available), None,
        action_unless(state.shared_directory_available, EnvironmentDiagnosticAction::OpenSettings), None));
    let mount_status = if state.shared_mount_matches {
        EnvironmentDiagnosticStatus::Success
    } else if state.compose_valid && state.shared_directory_available {
        EnvironmentDiagnosticStatus::Failure
    } else {
        EnvironmentDiagnosticStatus::Warning
    };
    out.push(diagnostic(EnvironmentDiagnosticId::SharedMount, mount_status, None,
        action_unless(state.shared_mount_matches, EnvironmentDiagnosticAction::OpenSettings), None));
    let container_status = if running {
        EnvironmentDiagnosticStatus::Success
    } else if state.container_status == ContainerStatus::Dead || state.container_status == ContainerStatus::Unknown {
        EnvironmentDiagnosticStatus::Failure
    } else {
        EnvironmentDiagnosticStatus::Warning
    };
    out.push(diagnostic(EnvironmentDiagnosticId::Container, container_status,
        Some(string_of(container_status_name(state.container_status))),
        action_unless(running, EnvironmentDiagnosticAction::StartWinboat), state.container_error_code));
    let offline_status = if running { EnvironmentDiagnosticStatus::Failure } else { EnvironmentDiagnosticStatus::Warning };
    let offline_action = if running { EnvironmentDiagnosticAction::OpenWinboat } else { EnvironmentDiagnosticAction::StartWinboat };
    out.push(diagnostic(EnvironmentDiagnosticId::GuestApi,
        if state.guest_online { EnvironmentDiagnosticStatus::Success } else { offline_status },
        None, action_unless(state.guest_online, offline_action), state.guest_error_code));
    out.push(diagnostic(EnvironmentDiagnosticId::GuestClock, guest_clock_status(state),
        observed_guest_clock(state, &clocksource), guest_clock_action(state), guest_clock_error_code(state)));
    out.push(diagnostic(EnvironmentDiagnosticId::Rdp,
        if state.rdp_reachable { EnvironmentDiagnosticStatus::Success } else { offline_status },
        None, action_unless(state.rdp_reachable, offline_action), state.rdp_error_code));
    let browser_status = if state.browser.usable && state.browser_sandbox_available {
        EnvironmentDiagnosticStatus::Success
    } else if state.browser.usable {
        EnvironmentDiagnosticStatus::Failure
    } else {
        EnvironmentDiagnosticStatus::Warning
    };
    out.push(diagnostic(EnvironmentDiagnosticId::MarketplaceBrowser, browser_status,
        observed_browser(&state.browser, state.browser_sandbox_available),
        action_unless(state.browser.usable && state.browser_sandbox_available, EnvironmentDiagnosticAction::Redetect),
        state.browser.error_code));
    out
}

/// Readiness is exactly the nine core checks passing: the browser and the guest clock
/// never decide it.
pub proof fn lemma_ready_iff_core_checks_pass(s: LinuxDiagnosticState, clocksource: Option<Seq<char>>)
    ensures
        s.ready_spec() <==> (forall|i: int| 0 <= i < 11 && i != 8 && i != 10
            ==> (#[trigger] linux_diagnostics_spec(s, clocksource)[i]).status == EnvironmentDiagnosticStatus::Success),
{
    let d = linux_diagnostics_spec(s, clocksource);
    if !s.ready_spec() {
        if !s.winboat_available { assert(d[0].status != EnvironmentDiagnosticStatus::Success); }
        else if !s.compose_valid { assert(d[1].status != EnvironmentDiagnosticStatus::Success); }
        else if !s.runtime.usable { assert(d[2].status != EnvironmentDiagnosticStatus::Success); }
        else if !s.freerdp.usable { assert(d[3].status != EnvironmentDiagnosticStatus::Success); }
        else if !s.shared_directory_available { assert(d[4].status != EnvironmentDiagnosticStatus::Success); }
        else if !s.shared_mount_matches { assert(d[5].status != EnvironmentDiagnosticStatus::Success); }
        else if s.container_status != ContainerStatus::Running { assert(d[6].status != EnvironmentDiagnosticStatus::Success); }
        else if !s.guest_online { assert(d[7].status != EnvironmentDiagnosticStatus::Success); }
        else { assert(d[9].status != EnvironmentDiagnosticStatus::Success); }
    }
}

/// Every check that does not pass offers a recovery action, and every passing check offers
/// none.
pub proof fn lemma_failures_carry_actions(s: LinuxDiagnosticState, clocksource: Option<Seq<char>>, i: int)
    requires
        0 <= i < 11,
    ensures
        (linux_diagnostics_spec(s, clocksource)[i].status != EnvironmentDiagnosticStatus::Success)
            <==> linux_diagnostics_spec(s, clocksource)[i].action is Some,
{
}

} // verus!
