//! What the environment check makes of the container inspection and the guest probes, and
//! the environment status it reports.
use vstd::prelude::*;
use crate::container::ContainerStatus;
use crate::diagnostics::{
    build_linux_diagnostics, environment_error_code, linux_diagnostics_spec,
    sanitized_clocksource_spec, CommandFailureKind, EnvironmentDiagnostic,
    EnvironmentDiagnosticErrorCode, GuestClockProbe, LinuxDiagnosticState, ToolProbe,
};
use crate::text::{decimal, decimal_chars, push_all, string_from, string_of, to_chars};
use crate::workspace_scan::{text_before, compare_text, Precedence};

verus! {

pub const GUEST_API_PORT: u16 = 7148;
pub const RDP_PORT: u16 = 3389;

/// One mount of the container: where on the host, and where in the container.
#[derive(Debug)]
pub struct ContainerMount {
    pub source: String,
    pub destination: String,
}

/// The host directory mounted at `/shared`: the first such mount.
pub open spec fn shared_mount_spec(mounts: Seq<ContainerMount>) -> Option<Seq<char>> {
    if exists|i: int| 0 <= i < mounts.len() && (#[trigger] mounts[i]).destination@ == "/shared"@ {
        let first = choose|i: int| 0 <= i < mounts.len() && (#[trigger] mounts[i]).destination@ == "/shared"@
            && forall|j: int| 0 <= j < i ==> (#[trigger] mounts[j]).destination@ != "/shared"@;
        Some(mounts[first].source@)
    } else {
        None
    }
}

pub fn shared_mount_source(mounts: &Vec<ContainerMount>) -> (r: Option<String>)
    ensures
        match shared_mount_spec(mounts@) {
            Some(s) => r matches Some(x) && x@ == s,
            None => r is None,
        },
{
    let mut i: usize = 0;
    while i < mounts.len()
        invariant
            i <= mounts@.len(),
            forall|j: int| 0 <= j < i ==> (#[trigger] mounts@[j]).destination@ != "/shared"@,
        decreases mounts@.len() - i,
    {
        let destination = to_chars(&mounts[i].destination);
        if crate::text::equals_str(&destination, "/shared") {
            proof {
                let first = choose|k: int| 0 <= k < mounts@.len() && (#[trigger] mounts@[k]).destination@ == "/shared"@
                    && forall|j: int| 0 <= j < k ==> (#[trigger] mounts@[j]).destination@ != "/shared"@;
                assert(mounts@[i as int].destination@ == "/shared"@);
                if first > i {
                    assert(mounts@[i as int].destination@ != "/shared"@);
                }
                assert(first == i);
            }
            return Some(string_of(&mounts[i].source));
        }
        i = i + 1;
    }
    None
}

/// The container's mount target of its storage: `/storage` in any letter case.
pub open spec fn storage_destination(destination: Seq<char>) -> bool {
    crate::projects::eq_ignore_ascii_case(destination, "/storage"@)
}

/// The storage identity: the distinct host sources mounted at the storage target, in
/// ascending order.
pub open spec fn is_storage_identity(mounts: Seq<ContainerMount>, identity: Seq<Seq<char>>) -> bool {
    &&& forall|k: int| 0 <= k < identity.len() - 1 ==> text_before(#[trigger] identity[k], identity[k + 1])
    &&& forall|s: Seq<char>| #[trigger] identity.contains(s) <==> exists|i: int| 0 <= i < mounts.len()
        && storage_destination((#[trigger] mounts[i]).destination@) && mounts[i].source@ == s
}

/// Where `text` belongs in texts sorted by `text_before`: after every text before it, and
/// whether the text there is the same.
fn insertion_point(ids: &Vec<String>, text: &String) -> (r: (usize, bool))
    ensures
        r.0 <= ids@.len(),
        forall|k: int| 0 <= k < r.0 ==> text_before(#[trigger] ids@[k]@, text@),
        r.1 ==> r.0 < ids@.len() && ids@[r.0 as int]@ == text@,
        !r.1 ==> r.0 == ids@.len() || text_before(text@, ids@[r.0 as int]@),
{
    let mut p: usize = 0;
    while p < ids.len()
        invariant
            p <= ids@.len(),
            forall|k: int| 0 <= k < p ==> text_before(#[trigger] ids@[k]@, text@),
        decreases ids@.len() - p,
    {
        match compare_text(&ids[p], text) {
            Precedence::Before => {
                p = p + 1;
            },
            Precedence::Same => {
                return (p, true);
            },
            Precedence::After => {
                return (p, false);
            },
        }
    }
    (p, false)
}

/// The identity of the container's storage mounts, or an error when it has none.
pub fn storage_identity(mounts: &Vec<ContainerMount>) -> (r: Result<Vec<String>, String>)
    ensures
        match r {
            Ok(ids) => ids@.len() > 0 && is_storage_identity(mounts@, crate::runtime_session::texts(ids@)),
            Err(message) => message@ == "the WinBoat container has no /storage mount"@
                && !exists|i: int| 0 <= i < mounts@.len() && storage_destination((#[trigger] mounts@[i]).destination@),
        },
{
    let mut ids: Vec<String> = Vec::new();
    let mut i: usize = 0;
    while i < mounts.len()
        invariant
            i <= mounts@.len(),
            forall|k: int| 0 <= k < ids@.len() - 1 ==> text_before(#[trigger] ids@[k]@, ids@[k + 1]@),
            forall|s: Seq<char>| #[trigger] crate::runtime_session::texts(ids@).contains(s) <==> exists|m: int| 0 <= m < i
                && storage_destination((#[trigger] mounts@[m]).destination@) && mounts@[m].source@ == s,
        decreases mounts@.len() - i,
    {
        let ghost old_ids = ids@;
        let destination = to_chars(&mounts[i].destination);
        let is_storage = crate::projects::eq_ignore_case(&destination, "/storage");
        if is_storage {
            let source = &mounts[i].source;
            let (p, duplicate) = insertion_point(&ids, source);
            if !duplicate {
                ids.insert(p, string_of(source));
                proof {
                    assert forall|k: int| 0 <= k < ids@.len() - 1 implies text_before(#[trigger] ids@[k]@, ids@[k + 1]@) by {
                        if k + 1 < p {
                            assert(ids@[k] == old_ids[k] && ids@[k + 1] == old_ids[k + 1]);
                        } else if k + 1 == p {
                            assert(ids@[k] == old_ids[k]);
                        } else if k == p {
                            assert(ids@[k + 1] == old_ids[k]);
                        } else {
                            let j = k - 1;
                            assert(ids@[k] == old_ids[j] && ids@[k + 1] == old_ids[j + 1]);
                        }
                    }
                }
            }
            proof {
                let t_old = crate::runtime_session::texts(old_ids);
                let t_new = crate::runtime_session::texts(ids@);
                assert forall|s: Seq<char>| #[trigger] t_new.contains(s) <==> (t_old.contains(s) || s == source@) by {
                    if duplicate {
                        assert(t_new == t_old);
                        if s == source@ {
                            assert(t_old[p as int] == s);
                        }
                    } else {
                        if t_new.contains(s) {
                            let k = choose|k: int| 0 <= k < t_new.len() && t_new[k] == s;
                            if k < p {
                                assert(t_old[k] == s);
                            } else if k > p {
                                assert(t_old[k - 1] == s);
                            }
                        }
                        if t_old.contains(s) {
                            let k = choose|k: int| 0 <= k < t_old.len() && t_old[k] == s;
                            if k < p {
                                assert(t_new[k] == s);
                            } else {
                                assert(t_new[k + 1] == s);
                            }
                        }
                        if s == source@ {
                            assert(t_new[p as int] == s);
                        }
                    }
                }
                assert forall|s: Seq<char>| #[trigger] t_new.contains(s) <==> exists|m: int| 0 <= m < i + 1
                    && storage_destination((#[trigger] mounts@[m]).destination@) && mounts@[m].source@ == s by {
                    if t_new.contains(s) && !t_old.contains(s) {
                        assert(s == source@);
                        assert(storage_destination(mounts@[i as int].destination@) && mounts@[i as int].source@ == s);
                    }
                    if exists|m: int| 0 <= m < i + 1 && storage_destination((#[trigger] mounts@[m]).destination@) && mounts@[m].source@ == s {
                        let m = choose|m: int| 0 <= m < i + 1 && storage_destination((#[trigger] mounts@[m]).destination@) && mounts@[m].source@ == s;
                        if m < i {
                            assert(t_old.contains(s));
                        }
                    }
                }
            }
        } else {
            proof {
                assert forall|s: Seq<char>| #[trigger] crate::runtime_session::texts(ids@).contains(s) <==> exists|m: int| 0 <= m < i + 1
                    && storage_destination((#[trigger] mounts@[m]).destination@) && mounts@[m].source@ == s by {
                    if exists|m: int| 0 <= m < i + 1 && storage_destination((#[trigger] mounts@[m]).destination@) && mounts@[m].source@ == s {
                        let m = choose|m: int| 0 <= m < i + 1 && storage_destination((#[trigger] mounts@[m]).destination@) && mounts@[m].source@ == s;
                        assert(m != i);
                    }
                }
            }
        }
        i = i + 1;
    }
    if ids.len() == 0 {
        proof {
            assert forall|m: int| 0 <= m < mounts@.len() implies !storage_destination((#[trigger] mounts@[m]).destination@) by {
                if storage_destination(mounts@[m].destination@) {
                    let s = mounts@[m].source@;
                    assert(crate::runtime_session::texts(ids@).contains(s));
                }
            }
        }
        return Err(string_from(&to_chars("the WinBoat container has no /storage mount")));
    }
    Ok(ids)
}


/// What inspecting the container gave the environment check.
#[derive(Debug)]
pub struct ContainerInspection {
    pub status: ContainerStatus,
    pub shared_directory: Option<String>,
    pub error_code: Option<EnvironmentDiagnosticErrorCode>,
}

/// What running the inspection command gave.
pub enum InspectionOutput {
    /// The command could not be run to its end.
    Failed(CommandFailureKind),
    /// The command ran and failed: there is no such container.
    Unsuccessful,
    /// The output did not parse, or listed no container.
    Unparsable,
    /// The first container listed: its state text and its mounts.
    Parsed { status: String, mounts: Vec<ContainerMount> },
}

/// The inspection the environment check uses: a parsed container's state and shared mount,
/// a missing container, an unknown state when the output did not parse, or an unknown state
/// with the failure's code.
pub fn inspection_from(output: InspectionOutput) -> (r: ContainerInspection)
    ensures
        match output {
            InspectionOutput::Failed(kind) => r.status == ContainerStatus::Unknown && r.shared_directory is None
                && r.error_code == Some(crate::diagnostics::environment_error_code_spec(kind)),
            InspectionOutput::Unsuccessful => r.status == ContainerStatus::NotFound && r.shared_directory is None && r.error_code is None,
            InspectionOutput::Unparsable => r.status == ContainerStatus::Unknown && r.shared_directory is None && r.error_code is None,
            InspectionOutput::Parsed { status, mounts } => r.status == ContainerStatus::from_runtime_spec(status@)
                && r.error_code is None
                && match shared_mount_spec(mounts@) {
                    Some(d) => r.shared_directory matches Some(x) && x@ == d,
                    None => r.shared_directory is None,
                },
        },
{
    match output {
        InspectionOutput::Failed(kind) => ContainerInspection {
            status: ContainerStatus::Unknown,
            shared_directory: None,
            error_code: Some(environment_error_code(kind)),
        },
        InspectionOutput::Unsuccessful => ContainerInspection { status: ContainerStatus::NotFound, shared_directory: None, error_code: None },
        InspectionOutput::Unparsable => ContainerInspection { status: ContainerStatus::Unknown, shared_directory: None, error_code: None },
        InspectionOutput::Parsed { status, mounts } => ContainerInspection {
            status: ContainerStatus::from_runtime(&status),
            shared_directory: shared_mount_source(&mounts),
            error_code: None,
        },
    }
}

/// The directory the shared mount is compared with: the container's own mount when the
/// container is there, else the one the Compose file declares.
pub fn current_shared_directory(inspection: &ContainerInspection, compose_shared: Option<String>) -> (r: Option<String>)
    ensures
        r == (if inspection.status.is_present_spec() { inspection.shared_directory } else { compose_shared }),
{
    if inspection.status.is_present() {
        match &inspection.shared_directory {
            Some(d) => Some(d.clone()),
            None => None,
        }
    } else {
        compose_shared
    }
}

/// The guest API's URL and the error its port lookup gave: the forwarded loopback port
/// when the runtime reports one, else the configured URL.
pub fn guest_api_endpoint(port: Result<Option<u16>, CommandFailureKind>, configured: &str) -> (r: (String, Option<EnvironmentDiagnosticErrorCode>))
    ensures
        match port {
            Ok(Some(p)) => r.0@ == "http://127.0.0.1:"@ + decimal(p as nat) && r.1 is None,
            Ok(None) => r.0@ == configured@ && r.1 is None,
            Err(kind) => r.0@ == configured@ && r.1 == Some(crate::diagnostics::environment_error_code_spec(kind)),
        },
{
    match port {
        Ok(Some(p)) => (crate::runtime_rules::runtime_url(p), None),
        Ok(None) => (string_of(configured), None),
        Err(kind) => (string_of(configured), Some(environment_error_code(kind))),
    }
}

/// The RDP port and the error its lookup gave: the forwarded port when the runtime reports
/// one, else the configured port.
pub fn rdp_endpoint(port: Result<Option<u16>, CommandFailureKind>, configured: u16) -> (r: (u16, Option<EnvironmentDiagnosticErrorCode>))
    ensures
        r == (match port {
            Ok(Some(p)) => (p, None),
            Ok(None) => (configured, None),
            Err(kind) => (configured, Some(crate::diagnostics::environment_error_code_spec(kind))),
        }),
{
    match port {
        Ok(Some(p)) => (p, None),
        Ok(None) => (configured, None),
        Err(kind) => (configured, Some(environment_error_code(kind))),
    }
}

/// An instant as nanoseconds since the Unix epoch.
pub open spec fn instant_nanos(t: (i64, u32)) -> int {
    t.0 * 1_000_000_000 + t.1
}

/// Integer division that rounds toward zero, as chrono's whole-unit counts of a time span do.
pub open spec fn toward_zero(a: int, d: int) -> int {
    if a >= 0 { a / d } else { -((-a) / d) }
}

/// Guest-minus-host skew in whole seconds, measured against the host midpoint: the request
/// time plus half the whole milliseconds that the request took.
pub open spec fn clock_skew_spec(guest: (i64, u32), requested: (i64, u32), responded: (i64, u32)) -> int {
    let elapsed_ms = toward_zero(instant_nanos(responded) - instant_nanos(requested), 1_000_000);
    let midpoint = instant_nanos(requested) + toward_zero(elapsed_ms, 2) * 1_000_000;
    toward_zero(instant_nanos(guest) - midpoint, 1_000_000_000)
}

/// An instant that a chrono date can hold, with the nanoseconds within their second.
pub open spec fn host_instant(t: (i64, u32)) -> bool {
    -0x1000_0000_0000 < t.0 < 0x1000_0000_0000 && t.1 < 1_000_000_000
}

fn divide_toward_zero(a: i128, d: i128) -> (q: i128)
    requires
        d > 0,
        -0x1_0000_0000_0000_0000_0000_0000_0000 < a < 0x1_0000_0000_0000_0000_0000_0000_0000,
    ensures
        q == toward_zero(a as int, d as int),
{
    if a >= 0 {
        let q = (a as u128) / (d as u128);
        q as i128
    } else {
        let m: i128 = -a;
        let q = (m as u128) / (d as u128);
        -(q as i128)
    }
}

/// Guest-minus-host skew in whole seconds, from the guest's time and the host's times of
/// request and response.
pub fn clock_skew(guest: (i64, u32), requested: (i64, u32), responded: (i64, u32)) -> (skew: i64)
    requires
        -0x1000_0000_0000 < guest.0 < 0x1000_0000_0000,
        guest.1 < 2_000_000_000,
        host_instant(requested),
        host_instant(responded),
    ensures
        skew == clock_skew_spec(guest, requested, responded),
{
    let g: i128 = guest.0 as i128 * 1_000_000_000 + guest.1 as i128;
    let a: i128 = requested.0 as i128 * 1_000_000_000 + requested.1 as i128;
    let b: i128 = responded.0 as i128 * 1_000_000_000 + responded.1 as i128;
    let elapsed_ms = divide_toward_zero(b - a, 1_000_000);
    let half = divide_toward_zero(elapsed_ms, 2);
    let midpoint = a + half * 1_000_000;
    let skew = divide_toward_zero(g - midpoint, 1_000_000_000);
    assert(-0x2_0000_0000_0000 < skew < 0x2_0000_0000_0000) by {
        assert(-0x7000_0000_0000_0000_0000_0000_0000 < g - midpoint < 0x7000_0000_0000_0000_0000_0000_0000);
    };
    skew as i64
}

/// The guest's time from its HTTP `Date` header: trimmed, with ` GMT` written as ` +0000`,
/// and read as an RFC 2822 date.
pub fn parse_http_date(value: &str) -> (r: Option<(i64, u32)>)
    ensures
        r == crate::outside::spec_rfc2822_instant(crate::text::replace_spec(
            crate::text::trim_spec(value@), " GMT"@, " +0000"@)),
        r matches Some(t) ==> -0x1000_0000_0000 < t.0 < 0x1000_0000_0000 && t.1 < 2_000_000_000,
{
    let chars = to_chars(value);
    let trimmed = crate::text::trim(&chars);
    let from = to_chars(" GMT");
    proof {
        reveal_strlit(" GMT");
    }
    let to = to_chars(" +0000");
    let normalized = crate::text::replace_all(&trimmed, &from, &to);
    let text = string_from(&normalized);
    crate::outside::parse_rfc2822(text.as_str())
}

/// The guest clock that a guest API response shows: unmeasurable without a readable `Date`
/// header, else the skew against the host midpoint.
pub fn guest_clock_from_response(date_header: Option<&str>, requested_at: (i64, u32), responded_at: (i64, u32)) -> (r: GuestClockProbe)
    requires
        host_instant(requested_at),
        host_instant(responded_at),
    ensures
        r == (match date_header {
            None => GuestClockProbe::Unmeasurable,
            Some(h) => match crate::outside::spec_rfc2822_instant(crate::text::replace_spec(
                crate::text::trim_spec(h@), " GMT"@, " +0000"@)) {
                None => GuestClockProbe::Unmeasurable,
                Some(g) => GuestClockProbe::Measured(clock_skew_spec(g, requested_at, responded_at) as i64),
            },
        }),
{
    match date_header {
        None => GuestClockProbe::Unmeasurable,
        Some(header) => match parse_http_date(header) {
            None => GuestClockProbe::Unmeasurable,
            Some(guest) => GuestClockProbe::Measured(clock_skew(guest, requested_at, responded_at)),
        },
    }
}

/// Whether the guest counts as online, and the clock it showed: online only when it
/// answered and its port lookup did not fail; a clock only from an online guest.
pub fn guest_observation(answered: bool, clock: Option<GuestClockProbe>, lookup_error: Option<EnvironmentDiagnosticErrorCode>) -> (r: (bool, Option<GuestClockProbe>))
    ensures
        r.0 == (answered && lookup_error is None),
        r.1 == (if r.0 { clock } else { None }),
{
    let online = answered && lookup_error.is_none();
    (online, if online { clock } else { None })
}

/// Whether RDP counts as reachable, and its error: reachable only when the endpoint answered
/// and the port lookup did not fail; a probe that could not finish is an interruption.
pub fn rdp_observation(probe: Result<bool, ()>, lookup_error: Option<EnvironmentDiagnosticErrorCode>) -> (r: (bool, Option<EnvironmentDiagnosticErrorCode>))
    ensures
        r == (match probe {
            Ok(reachable) => (reachable && lookup_error is None, lookup_error),
            Err(_) => (false, Some(EnvironmentDiagnosticErrorCode::ExternalProcessInterrupted)),
        }),
{
    match probe {
        Ok(reachable) => (reachable && lookup_error.is_none(), lookup_error),
        Err(()) => (false, Some(EnvironmentDiagnosticErrorCode::ExternalProcessInterrupted)),
    }
}

/// The guest and RDP are probed only for an initialized WinBoat whose container runs.
pub fn guest_probes_wanted(winboat_initialized: bool, status: ContainerStatus) -> (b: bool)
    ensures
        b == (winboat_initialized && status == ContainerStatus::Running),
{
    winboat_initialized && status.is_running()
}

/// The environment as the application shows it.
#[derive(Debug)]
pub struct EnvironmentSummary {
    pub ready: bool,
    pub winboat_available: bool,
    pub winboat_initialized: bool,
    pub setup_pending: bool,
    pub compose_available: bool,
    pub runtime_available: bool,
    pub freerdp_available: bool,
    pub shared_directory_available: bool,
    pub shared_mount_matches: bool,
    pub container_status: ContainerStatus,
    pub guest_online: bool,
    pub diagnostics: Vec<EnvironmentDiagnostic>,
}

/// The environment status of a Linux host from what its checks observed.
pub fn environment_summary(state: &LinuxDiagnosticState, setup_pending: bool, host_clocksource: Option<&str>) -> (r: EnvironmentSummary)
    ensures
        r.ready == state.ready_spec(),
        r.winboat_available == state.winboat_available,
        r.winboat_initialized == (state.compose_available && state.container_status.is_present_spec()),
        r.setup_pending == setup_pending,
        r.compose_available == state.compose_available,
        r.runtime_available == state.runtime.usable,
        r.freerdp_available == state.freerdp.usable,
        r.shared_directory_available == state.shared_directory_available,
        r.shared_mount_matches == state.shared_mount_matches,
        r.container_status == state.container_status,
        r.guest_online == state.guest_online,
        r.diagnostics@.len() == 11,
        forall|i: int| 0 <= i < 11 ==> (#[trigger] r.diagnostics@[i]).view_of() == linux_diagnostics_spec(
            *state,
            match host_clocksource { Some(raw) => sanitized_clocksource_spec(raw@), None => None },
        )[i],
{
    EnvironmentSummary {
        ready: state.ready(),
        winboat_available: state.winboat_available,
        winboat_initialized: state.compose_available && state.container_status.is_present(),
        setup_pending,
        compose_available: state.compose_available,
        runtime_available: state.runtime.usable,
        freerdp_available: state.freerdp.usable,
        shared_directory_available: state.shared_directory_available,
        shared_mount_matches: state.shared_mount_matches,
        container_status: state.container_status,
        guest_online: state.guest_online,
        diagnostics: build_linux_diagnostics(state, host_clocksource),
    }
}


/// What the guest and RDP probes found: the errors of the host port lookups, whether the
/// guest API answered and the clock it showed, and the RDP reachability probe, which fails
/// when it could not finish.
#[derive(Debug)]
pub struct GuestProbes {
    pub api_port_error: Option<EnvironmentDiagnosticErrorCode>,
    pub guest_answered: bool,
    pub guest_clock: Option<GuestClockProbe>,
    pub rdp_port_error: Option<EnvironmentDiagnosticErrorCode>,
    pub rdp_probe: Result<bool, ()>,
}

/// What the environment check observed on the host, before anything is decided of it. The
/// guest probes are there only when they were run.
#[derive(Debug)]
pub struct HostObservations {
    pub winboat_available: bool,
    pub compose_available: bool,
    pub compose_file_valid: bool,
    pub runtime: ToolProbe,
    pub freerdp: ToolProbe,
    pub browser: ToolProbe,
    pub browser_sandbox_available: bool,
    pub shared_directory_available: bool,
    pub shared_location_matches: bool,
    pub container_status: ContainerStatus,
    pub container_error_code: Option<EnvironmentDiagnosticErrorCode>,
    pub guest_probes: Option<GuestProbes>,
}

/// Whether WinBoat is initialized: its Compose file is there and its container exists.
pub open spec fn winboat_initialized_spec(compose_available: bool, status: ContainerStatus) -> bool {
    compose_available && status.is_present_spec()
}

/// The guest's part of the state: probes count only where they are wanted, for an
/// initialized WinBoat whose container runs.
pub open spec fn guest_part(observed: HostObservations) -> (bool, Option<EnvironmentDiagnosticErrorCode>, Option<GuestClockProbe>, bool, Option<EnvironmentDiagnosticErrorCode>) {
    let wanted = winboat_initialized_spec(observed.compose_available, observed.container_status)
        && observed.container_status == ContainerStatus::Running;
    match observed.guest_probes {
        Some(p) => if wanted {
            let online = p.guest_answered && p.api_port_error is None;
            let (rdp, rdp_error) = match p.rdp_probe {
                Ok(reachable) => (reachable && p.rdp_port_error is None, p.rdp_port_error),
                Err(_) => (false, Some(EnvironmentDiagnosticErrorCode::ExternalProcessInterrupted)),
            };
            (online, p.api_port_error, if online { p.guest_clock } else { None }, rdp, rdp_error)
        } else {
            (false, None, None, false, None)
        },
        None => (false, None, None, false, None),
    }
}

/// The state the environment checks are decided from, made of what was observed: a Compose
/// file counts as valid, and the shared location as matching, only when the file is there.
pub fn diagnostic_state(observed: HostObservations) -> (s: LinuxDiagnosticState)
    ensures
        s.winboat_available == observed.winboat_available,
        s.compose_available == observed.compose_available,
        s.compose_valid == (observed.compose_available && observed.compose_file_valid),
        s.runtime == observed.runtime,
        s.freerdp == observed.freerdp,
        s.browser == observed.browser,
        s.browser_sandbox_available == observed.browser_sandbox_available,
        s.shared_directory_available == observed.shared_directory_available,
        s.shared_mount_matches == (observed.compose_available && observed.shared_location_matches),
        s.container_status == observed.container_status,
        s.container_error_code == observed.container_error_code,
        (s.guest_online, s.guest_error_code, s.guest_clock, s.rdp_reachable, s.rdp_error_code)
            == guest_part(observed),
        s.guest_online ==> winboat_initialized_spec(s.compose_available, s.container_status)
            && s.container_status == ContainerStatus::Running,
{
    let initialized = observed.compose_available && observed.container_status.is_present();
    let wanted = guest_probes_wanted(initialized, observed.container_status);
    let ghost part = guest_part(observed);
    let (guest_online, guest_error_code, guest_clock, rdp_reachable, rdp_error_code) =
        match observed.guest_probes {
            Some(p) => if wanted {
                let (online, clock) = guest_observation(p.guest_answered, p.guest_clock, p.api_port_error);
                let (rdp, rdp_error) = rdp_observation(p.rdp_probe, p.rdp_port_error);
                (online, p.api_port_error, clock, rdp, rdp_error)
            } else {
                (false, None, None, false, None)
            },
            None => (false, None, None, false, None),
        };
    LinuxDiagnosticState {
        winboat_available: observed.winboat_available,
        compose_available: observed.compose_available,
        compose_valid: observed.compose_available && observed.compose_file_valid,
        runtime: observed.runtime,
        freerdp: observed.freerdp,
        shared_directory_available: observed.shared_directory_available,
        shared_mount_matches: observed.compose_available && observed.shared_location_matches,
        container_status: observed.container_status,
        container_error_code: observed.container_error_code,
        guest_online,
        guest_error_code,
        guest_clock,
        rdp_reachable,
        rdp_error_code,
        browser: observed.browser,
        browser_sandbox_available: observed.browser_sandbox_available,
    }
}

/// The environment status made of what was observed on the host. The guest counts as online
/// only for an initialized WinBoat whose container runs, and readiness needs every
/// dependency but the browser and the guest clock.
pub fn environment_status_of(observed: HostObservations, setup_pending: bool, host_clocksource: Option<&str>) -> (r: EnvironmentSummary)
    ensures
        r.setup_pending == setup_pending,
        r.winboat_initialized == winboat_initialized_spec(observed.compose_available, observed.container_status),
        r.guest_online == guest_part(observed).0,
        r.guest_online ==> r.winboat_initialized && r.container_status == ContainerStatus::Running,
        r.ready ==> r.winboat_available && r.runtime_available && r.freerdp_available
            && r.shared_directory_available && r.shared_mount_matches && r.guest_online,
        r.ready == (observed.winboat_available && observed.compose_available
            && observed.compose_file_valid && observed.runtime.usable && observed.freerdp.usable
            && observed.shared_directory_available && observed.shared_location_matches
            && observed.container_status == ContainerStatus::Running && guest_part(observed).0
            && guest_part(observed).3),
        r.container_status == observed.container_status,
{
    let state = diagnostic_state(observed);
    environment_summary(&state, setup_pending, host_clocksource)
}

} // verus!
