//! The lifecycle of a local Mendix Runtime session forwarded through the WinBoat guest:
//! which start requests are accepted, the steps of a start with their rollbacks, what a
//! refresh, a wait and a stop make of what they observe.
//!
//! The container runtime, the Compose file, the guest and the session store are reached by
//! the caller; the functions here decide from what it observed.
use vstd::prelude::*;
use crate::contracts::{BackendError, BackendErrorCode, CapabilityId};
use crate::runtime_rules::{
    failure_retryable, runtime_error, runtime_url, studio_session_link_valid,
    valid_studio_session_id,
};
use crate::text::{decimal, decimal_chars, equals_str, parse_u16, parse_u16_spec, push_all, push_str, string_from, to_chars};

verus! {

pub const DEFAULT_GUEST_PORT: u16 = 8080;
pub const MIN_GUEST_PORT: u16 = 1024;
pub const MAX_READINESS_TIMEOUT_SECONDS: u64 = 3600;
pub const LOOPBACK_IPV4: &'static str = "127.0.0.1";

#[derive(Debug, Clone, Copy, PartialEq, Eq, Structural)]
pub enum RuntimeMode {
    StudioRunLocally,
}

#[derive(Debug, Clone, Copy, PartialEq, Eq, Structural)]
pub enum RuntimeState {
    Starting,
    Ready,
    Failed,
    Stopped,
}

#[derive(Debug, Clone, Copy, PartialEq, Eq, Structural)]
pub enum StudioProcessState {
    Unknown,
    Running,
    Stopped,
}

/// A request to start a Runtime session.
#[derive(Debug)]
pub struct RuntimeStartRequest {
    pub mode: RuntimeMode,
    pub package_artifact_id: Option<String>,
    pub readiness_timeout_seconds: u64,
    pub guest_port: Option<u16>,
    pub studio_session_id: Option<String>,
}

/// The guest port a request asks for, the default when it names none.
pub open spec fn requested_guest_port(request: RuntimeStartRequest) -> u16 {
    match request.guest_port {
        Some(port) => port,
        None => DEFAULT_GUEST_PORT,
    }
}

/// A start request the backend runs: Studio Pro's run-locally mode with no package, a
/// readiness timeout of 1 to 3600 seconds, a guest port from 1024, and, when it links a
/// Studio Pro session, a well-formed session ID.
pub open spec fn start_request_valid(request: RuntimeStartRequest) -> bool {
    &&& request.mode == RuntimeMode::StudioRunLocally
    &&& request.package_artifact_id is None
    &&& 1 <= request.readiness_timeout_seconds <= MAX_READINESS_TIMEOUT_SECONDS
    &&& requested_guest_port(request) >= MIN_GUEST_PORT
    &&& match request.studio_session_id {
        Some(id) => studio_session_link_valid(id@),
        None => true,
    }
}

pub fn validate_start_request(request: &RuntimeStartRequest) -> (r: Result<(), BackendError>)
    ensures
        r is Ok <==> start_request_valid(*request),
        r matches Err(e) ==> e.code == BackendErrorCode::InvalidRequest && !e.retryable
            && e.capability == Some(CapabilityId::RuntimeStart) && e.diagnostic_ref is None,
{
    let port = match request.guest_port {
        Some(port) => port,
        None => DEFAULT_GUEST_PORT,
    };
    let linked_valid = match &request.studio_session_id {
        Some(id) => valid_studio_session_id(id),
        None => true,
    };
    if request.mode != RuntimeMode::StudioRunLocally || request.package_artifact_id.is_some()
        || request.readiness_timeout_seconds < 1
        || request.readiness_timeout_seconds > MAX_READINESS_TIMEOUT_SECONDS
        || port < MIN_GUEST_PORT || !linked_valid {
        return Err(runtime_error(CapabilityId::RuntimeStart, BackendErrorCode::InvalidRequest, false, None));
    }
    Ok(())
}

/// The Runtime port mapping the Compose file declares.
#[derive(Debug)]
pub struct PortMapping {
    pub host_ip: String,
    pub host_port: Option<u16>,
    pub protocol: String,
}

/// A mapping the backend prepared: TCP on IPv4 loopback, with the host port left to the
/// container runtime.
pub open spec fn mapping_prepared(mapping: Option<PortMapping>) -> bool {
    mapping matches Some(m) && m.host_ip@ == LOOPBACK_IPV4@ && m.host_port is None && m.protocol@ == "tcp"@
}

pub fn is_prepared_mapping(mapping: &Option<PortMapping>) -> (r: bool)
    ensures
        r == mapping_prepared(*mapping),
{
    match mapping {
        Some(m) => {
            let ip = to_chars(&m.host_ip);
            let protocol = to_chars(&m.protocol);
            equals_str(&ip, LOOPBACK_IPV4) && m.host_port.is_none() && equals_str(&protocol, "tcp")
        },
        None => false,
    }
}

/// Where the container runtime forwards the Runtime's guest port on the host.
#[derive(Debug)]
pub struct HostBinding {
    pub host_ip: String,
    pub host_port: u16,
    pub guest_port: u16,
}

/// A binding on IPv4 loopback for exactly `guest_port`.
pub open spec fn binding_matches(binding: HostBinding, guest_port: u16) -> bool {
    binding.host_ip@ == LOOPBACK_IPV4@ && binding.guest_port == guest_port
}

pub fn is_matching_binding(binding: &HostBinding, guest_port: u16) -> (r: bool)
    ensures
        r == binding_matches(*binding, guest_port),
{
    let ip = to_chars(&binding.host_ip);
    equals_str(&ip, LOOPBACK_IPV4) && binding.guest_port == guest_port
}

/// One host binding the container runtime reports for a port: its address, whether that
/// address is a loopback address, and its host port text.
#[derive(Debug)]
pub struct ReportedBinding {
    pub host_ip: String,
    pub loopback: bool,
    pub host_port: String,
}

/// `"{guest_port}/tcp"`, the key the container runtime reports a port under.
pub open spec fn private_port(guest_port: u16) -> Seq<char> {
    decimal(guest_port as nat) + "/tcp"@
}

/// The host binding of the Runtime port, from the container's state and the bindings the
/// runtime reports for `"{guest_port}/tcp"`: the container runs, exactly one binding is
/// reported, on a loopback address, with a non-zero host port.
pub open spec fn host_binding_spec(running: bool, guest_port: u16, bindings: Option<Seq<ReportedBinding>>) -> Option<HostBinding> {
    if !running {
        None
    } else {
        match bindings {
            Some(b) => if b.len() == 1 && b[0].loopback && (parse_u16_spec(b[0].host_port@) matches Some(port) && port != 0) {
                Some(HostBinding { host_ip: b[0].host_ip, host_port: parse_u16_spec(b[0].host_port@).unwrap(), guest_port })
            } else {
                None
            },
            None => None,
        }
    }
}

/// Why no host binding could be read, as the message names it.
pub open spec fn host_binding_error(running: bool, guest_port: u16, bindings: Option<Seq<ReportedBinding>>) -> Seq<char> {
    if !running {
        "the WinBoat container is not running"@
    } else {
        match bindings {
            Some(b) => if b.len() == 0 {
                "the WinBoat container has no mapping for "@ + private_port(guest_port)
            } else if b.len() != 1 {
                "the WinBoat container has multiple mappings for "@ + private_port(guest_port)
            } else if !b[0].loopback {
                "the WinBoat Runtime mapping for "@ + private_port(guest_port) + " is not loopback-only"@
            } else {
                "the WinBoat Runtime mapping for "@ + private_port(guest_port) + " has no host port"@
            },
            None => "the WinBoat container has no mapping for "@ + private_port(guest_port),
        }
    }
}

fn port_key(guest_port: u16) -> (r: Vec<char>)
    ensures
        r@ == private_port(guest_port),
{
    let mut out = decimal_chars(guest_port as u64);
    push_str(&mut out, "/tcp");
    out
}

fn binding_message(head: &str, guest_port: u16, tail: &str) -> (r: String)
    ensures
        r@ == head@ + private_port(guest_port) + tail@,
{
    let mut out = to_chars(head);
    let key = port_key(guest_port);
    push_all(&mut out, &key);
    push_str(&mut out, tail);
    string_from(&out)
}

/// Reads the Runtime's host binding out of what the container runtime reports.
pub fn host_binding(running: bool, guest_port: u16, bindings: Option<Vec<ReportedBinding>>) -> (r: Result<HostBinding, String>)
    ensures
        match host_binding_spec(running, guest_port, match bindings { Some(b) => Some(b@), None => None }) {
            Some(expected) => r matches Ok(b) && b == expected,
            None => r matches Err(message)
                && message@ == host_binding_error(running, guest_port, match bindings { Some(b) => Some(b@), None => None }),
        },
{
    proof {
        reveal_strlit("");
        assert(("the WinBoat container has no mapping for "@ + private_port(guest_port)) + ""@
            =~= "the WinBoat container has no mapping for "@ + private_port(guest_port));
        assert(("the WinBoat container has multiple mappings for "@ + private_port(guest_port)) + ""@
            =~= "the WinBoat container has multiple mappings for "@ + private_port(guest_port));
    }
    if !running {
        return Err(string_from(&to_chars("the WinBoat container is not running")));
    }
    let mut reported = match bindings {
        Some(b) => b,
        None => {
            return Err(binding_message("the WinBoat container has no mapping for ", guest_port, ""));
        },
    };
    if reported.len() == 0 {
        return Err(binding_message("the WinBoat container has no mapping for ", guest_port, ""));
    }
    if reported.len() != 1 {
        return Err(binding_message("the WinBoat container has multiple mappings for ", guest_port, ""));
    }
    let ghost all = reported@;
    let binding = reported.pop().unwrap();
    assert(binding == all[0]);
    if !binding.loopback {
        return Err(binding_message("the WinBoat Runtime mapping for ", guest_port, " is not loopback-only"));
    }
    let port_text = to_chars(&binding.host_port);
    match parse_u16(&port_text) {
        Some(port) if port != 0 => Ok(HostBinding { host_ip: binding.host_ip, host_port: port, guest_port }),
        _ => Err(binding_message("the WinBoat Runtime mapping for ", guest_port, " has no host port")),
    }
}


/// Whether two lists of texts hold the same texts in the same order.
pub fn same_texts(a: &Vec<String>, b: &Vec<String>) -> (r: bool)
    ensures
        r == (texts(a@) == texts(b@)),
{
    if a.len() != b.len() {
        proof {
            assert(texts(a@).len() != texts(b@).len());
        }
        return false;
    }
    let mut i: usize = 0;
    while i < a.len()
        invariant
            i <= a@.len(),
            a@.len() == b@.len(),
            forall|k: int| 0 <= k < i ==> (#[trigger] a@[k])@ == b@[k]@,
        decreases a@.len() - i,
    {
        if a[i] != b[i] {
            proof {
                assert(texts(a@)[i as int] != texts(b@)[i as int]);
            }
            return false;
        }
        i = i + 1;
    }
    proof {
        assert(texts(a@) =~= texts(b@));
    }
    true
}

/// The texts of a list of strings.
pub open spec fn texts(v: Seq<String>) -> Seq<Seq<char>> {
    v.map_values(|s: String| s@)
}

/// Where a Runtime start stands.
#[derive(Debug, Clone, Copy, PartialEq, Eq, Structural)]
pub enum StartStage {
    ProbingGuest,
    ReadingMapping,
    ProbingLiveBinding,
    Preparing,
    EnsuringMapping,
    Recreating,
    WaitingForGuest,
    ReadingStorage,
    ReadingManagedCompose,
    ReadingBinding,
    /// Restoring the Compose file and container before failing with `code`.
    RollingBack { code: BackendErrorCode, retryable: bool },
    /// The session record is to be created.
    Recording,
    /// The session was recorded and the changed Compose file kept.
    Started,
    /// The start failed.
    Failed,
}

/// What the caller does next for a Runtime start.
#[derive(Debug, Clone, Copy, PartialEq, Eq, Structural)]
pub enum StartAction {
    /// Probe the guest's API health.
    ProbeGuest,
    /// Read the Runtime port mapping the Compose file declares.
    ReadComposeMapping,
    /// Read the running container's host binding of the Runtime port.
    ReadLiveBinding,
    /// Create the session's identifier and directory, keep a copy and the digest of the
    /// Compose file, snapshot it, and read the container's storage mounts.
    PrepareSession,
    /// Make the Compose file declare the loopback Runtime mapping.
    EnsureMapping,
    /// Recreate the container from the changed Compose file.
    RecreateContainer,
    /// Wait for the guest to come online.
    WaitForGuest,
    /// Read the container's storage mounts again.
    ReadStorage,
    /// Read the Compose file as it now stands and take its digest.
    ReadManagedCompose,
    /// Read the container's host binding of the Runtime port.
    ReadBinding,
    /// Restore the Compose snapshot, recreate the container, wait for the guest and check
    /// the storage mounts.
    RollBack,
    /// Create the session record for the binding's host port, and refresh it.
    CreateRecord { host_port: u16 },
    /// Keep the Compose file as it now stands and answer with the session's status.
    Commit,
    /// Answer the request with a Runtime start error of `code`.
    Fail { code: BackendErrorCode, retryable: bool },
    /// Write the Compose snapshot back, whatever that gives, then answer the request with a
    /// Runtime start error of `code`.
    RestoreComposeAndFail { code: BackendErrorCode, retryable: bool },
}

/// What the caller observed for the action it was given.
pub enum StartEvent {
    GuestProbed(bool),
    MappingRead(Result<Option<PortMapping>, ()>),
    LiveBindingRead(Result<HostBinding, ()>),
    /// The storage mounts before any change, or the code of the step that failed and
    /// whether the Compose snapshot had been taken by then.
    SessionPrepared(Result<Vec<String>, (BackendErrorCode, bool)>),
    /// Whether the Compose file was changed.
    MappingEnsured(Result<bool, ()>),
    /// The recreation's error message, if it failed.
    ContainerRecreated(Result<(), String>),
    GuestWaited(bool),
    StorageRead(Result<Vec<String>, ()>),
    ManagedComposeRead(bool),
    BindingRead(Result<HostBinding, ()>),
    RolledBack(bool),
    /// Whether the session's log and record were written and the session refreshed, or the
    /// error of the step that failed.
    RecordCreated(Result<(), (BackendErrorCode, bool)>),
}

/// A Runtime start in progress.
#[derive(Debug)]
pub struct RuntimeStart {
    pub guest_port: u16,
    pub linked_studio: bool,
    pub compose_changed: bool,
    pub storage_before: Vec<String>,
    pub stage: StartStage,
}

/// The event a stage waits for.
pub open spec fn expects(stage: StartStage, event: StartEvent) -> bool {
    match stage {
        StartStage::ProbingGuest => event is GuestProbed,
        StartStage::ReadingMapping => event is MappingRead,
        StartStage::ProbingLiveBinding => event is LiveBindingRead,
        StartStage::Preparing => event is SessionPrepared,
        StartStage::EnsuringMapping => event is MappingEnsured,
        StartStage::Recreating => event is ContainerRecreated,
        StartStage::WaitingForGuest => event is GuestWaited,
        StartStage::ReadingStorage => event is StorageRead,
        StartStage::ReadingManagedCompose => event is ManagedComposeRead,
        StartStage::ReadingBinding => event is BindingRead,
        StartStage::RollingBack { .. } => event is RolledBack,
        StartStage::Recording => event is RecordCreated,
        _ => false,
    }
}

/// The stage after a failure that must first roll the Compose file back.
pub open spec fn rolling_back(code: BackendErrorCode, retryable: bool) -> (StartStage, StartAction) {
    (StartStage::RollingBack { code, retryable }, StartAction::RollBack)
}

pub open spec fn failing(code: BackendErrorCode, retryable: bool) -> (StartStage, StartAction) {
    (StartStage::Failed, StartAction::Fail { code, retryable })
}

/// The end of a failed start after the Compose snapshot was taken: the snapshot is written
/// back before the error is answered.
pub open spec fn restoring(code: BackendErrorCode, retryable: bool) -> (StartStage, StartAction) {
    (StartStage::Failed, StartAction::RestoreComposeAndFail { code, retryable })
}

/// The stages at which the Compose snapshot has been taken and the start not yet committed.
pub open spec fn after_snapshot(stage: StartStage) -> bool {
    match stage {
        StartStage::EnsuringMapping | StartStage::Recreating | StartStage::WaitingForGuest
        | StartStage::ReadingStorage | StartStage::ReadingManagedCompose
        | StartStage::ReadingBinding | StartStage::RollingBack { .. }
        | StartStage::Recording => true,
        _ => false,
    }
}

/// What a start does on an event: its next stage and action.
pub open spec fn start_next(start: RuntimeStart, event: StartEvent) -> (StartStage, StartAction) {
    match event {
        StartEvent::GuestProbed(online) => if online {
            (StartStage::ReadingMapping, StartAction::ReadComposeMapping)
        } else {
            failing(BackendErrorCode::RuntimeGuestOffline, true)
        },
        StartEvent::MappingRead(read) => match read {
            Err(_) => failing(BackendErrorCode::RuntimePortForwardingInvalid, false),
            Ok(mapping) => if mapping_prepared(mapping) {
                (StartStage::ProbingLiveBinding, StartAction::ReadLiveBinding)
            } else if start.linked_studio {
                failing(BackendErrorCode::RuntimePortForwardingInvalid, true)
            } else {
                (StartStage::Preparing, StartAction::PrepareSession)
            },
        },
        StartEvent::LiveBindingRead(read) => {
            let live = read matches Ok(binding) && binding_matches(binding, start.guest_port);
            if start.linked_studio && !live {
                failing(BackendErrorCode::RuntimePortForwardingInvalid, true)
            } else {
                (StartStage::Preparing, StartAction::PrepareSession)
            }
        },
        StartEvent::SessionPrepared(prepared) => match prepared {
            Err((code, snapshot_taken)) => if snapshot_taken {
                restoring(code, false)
            } else {
                failing(code, false)
            },
            Ok(_) => (StartStage::EnsuringMapping, StartAction::EnsureMapping),
        },
        StartEvent::MappingEnsured(ensured) => match ensured {
            Err(_) => restoring(BackendErrorCode::RuntimePortForwardingInvalid, false),
            Ok(changed) => if changed {
                (StartStage::Recreating, StartAction::RecreateContainer)
            } else {
                (StartStage::ReadingStorage, StartAction::ReadStorage)
            },
        },
        StartEvent::ContainerRecreated(recreated) => match recreated {
            Ok(()) => (StartStage::WaitingForGuest, StartAction::WaitForGuest),
            Err(message) => if crate::runtime_rules::port_conflict_spec(message@) {
                rolling_back(BackendErrorCode::RuntimePortConflict, true)
            } else {
                rolling_back(BackendErrorCode::RuntimeInitializationFailed, true)
            },
        },
        StartEvent::GuestWaited(online) => if online {
            (StartStage::ReadingStorage, StartAction::ReadStorage)
        } else {
            rolling_back(BackendErrorCode::RuntimeGuestOffline, true)
        },
        StartEvent::StorageRead(read) => if read matches Ok(after) && texts(after@) == texts(start.storage_before@) {
            (StartStage::ReadingManagedCompose, StartAction::ReadManagedCompose)
        } else {
            rolling_back(BackendErrorCode::RuntimePortForwardingInvalid, false)
        },
        StartEvent::ManagedComposeRead(read) => if read {
            (StartStage::ReadingBinding, StartAction::ReadBinding)
        } else {
            restoring(BackendErrorCode::RuntimePortForwardingInvalid, false)
        },
        StartEvent::BindingRead(read) => match read {
            Err(_) => if start.compose_changed {
                rolling_back(BackendErrorCode::RuntimePortForwardingInvalid, true)
            } else {
                restoring(BackendErrorCode::RuntimePortForwardingInvalid, true)
            },
            Ok(binding) => if binding_matches(binding, start.guest_port) {
                (StartStage::Recording, StartAction::CreateRecord { host_port: binding.host_port })
            } else {
                rolling_back(BackendErrorCode::RuntimePortForwardingInvalid, false)
            },
        },
        StartEvent::RolledBack(restored) => match start.stage {
            StartStage::RollingBack { code, retryable } => if restored {
                restoring(code, retryable)
            } else {
                restoring(BackendErrorCode::RuntimeComposeRecoveryFailed, false)
            },
            _ => restoring(BackendErrorCode::OperationFailed, false),
        },
        StartEvent::RecordCreated(created) => match created {
            Ok(()) => (StartStage::Started, StartAction::Commit),
            Err((code, retryable)) => restoring(code, retryable),
        },
    }
}

impl RuntimeStart {
    /// A start of a request that passed `validate_start_request`; its first action is
    /// `ProbeGuest`.
    pub fn new(request: &RuntimeStartRequest) -> (start: RuntimeStart)
        requires
            start_request_valid(*request),
        ensures
            start.guest_port == requested_guest_port(*request),
            start.linked_studio == (request.studio_session_id is Some),
            !start.compose_changed,
            start.storage_before@.len() == 0,
            start.stage == StartStage::ProbingGuest,
    {
        RuntimeStart {
            guest_port: match request.guest_port {
                Some(port) => port,
                None => DEFAULT_GUEST_PORT,
            },
            linked_studio: request.studio_session_id.is_some(),
            compose_changed: false,
            storage_before: Vec::new(),
            stage: StartStage::ProbingGuest,
        }
    }

    /// Checks a start request and, when it is valid, begins its start, whose first action
    /// is `ProbeGuest`; an invalid request is refused before anything is probed or changed.
    pub fn begin(request: &RuntimeStartRequest) -> (r: Result<(RuntimeStart, StartAction), BackendError>)
        ensures
            r is Ok <==> start_request_valid(*request),
            r matches Err(e) ==> e.code == BackendErrorCode::InvalidRequest && !e.retryable
                && e.capability == Some(CapabilityId::RuntimeStart) && e.diagnostic_ref is None,
            r matches Ok((start, action)) ==> {
                &&& action == StartAction::ProbeGuest
                &&& start.stage == StartStage::ProbingGuest
                &&& start.guest_port == requested_guest_port(*request)
                &&& start.linked_studio == (request.studio_session_id is Some)
                &&& !start.compose_changed
                &&& start.storage_before@.len() == 0
            },
    {
        match validate_start_request(request) {
            Err(e) => Err(e),
            Ok(()) => Ok((RuntimeStart::new(request), StartAction::ProbeGuest)),
        }
    }

    /// Takes what the caller observed and gives the next action.
    pub fn step(&mut self, event: StartEvent) -> (action: StartAction)
        requires
            expects(old(self).stage, event),
        ensures
            (final(self).stage, action) == start_next(*old(self), event),
            final(self).guest_port == old(self).guest_port,
            final(self).linked_studio == old(self).linked_studio,
            final(self).compose_changed == (match event {
                StartEvent::MappingEnsured(Ok(changed)) => changed,
                _ => old(self).compose_changed,
            }),
            texts(final(self).storage_before@) == (match event {
                StartEvent::SessionPrepared(Ok(before)) => texts(before@),
                _ => texts(old(self).storage_before@),
            }),
    {
        let (stage, action) = match event {
            StartEvent::GuestProbed(online) => if online {
                (StartStage::ReadingMapping, StartAction::ReadComposeMapping)
            } else {
                (StartStage::Failed, StartAction::Fail { code: BackendErrorCode::RuntimeGuestOffline, retryable: true })
            },
            StartEvent::MappingRead(read) => match read {
                Err(_) => (StartStage::Failed, StartAction::Fail { code: BackendErrorCode::RuntimePortForwardingInvalid, retryable: false }),
                Ok(mapping) => if is_prepared_mapping(&mapping) {
                    (StartStage::ProbingLiveBinding, StartAction::ReadLiveBinding)
                } else if self.linked_studio {
                    (StartStage::Failed, StartAction::Fail { code: BackendErrorCode::RuntimePortForwardingInvalid, retryable: true })
                } else {
                    (StartStage::Preparing, StartAction::PrepareSession)
                },
            },
            StartEvent::LiveBindingRead(read) => {
                let live = match &read {
                    Ok(binding) => is_matching_binding(binding, self.guest_port),
                    Err(_) => false,
                };
                if self.linked_studio && !live {
                    (StartStage::Failed, StartAction::Fail { code: BackendErrorCode::RuntimePortForwardingInvalid, retryable: true })
                } else {
                    (StartStage::Preparing, StartAction::PrepareSession)
                }
            },
            StartEvent::SessionPrepared(prepared) => match prepared {
                Err((code, snapshot_taken)) => if snapshot_taken {
                    (StartStage::Failed, StartAction::RestoreComposeAndFail { code, retryable: false })
                } else {
                    (StartStage::Failed, StartAction::Fail { code, retryable: false })
                },
                Ok(before) => {
                    self.storage_before = before;
                    (StartStage::EnsuringMapping, StartAction::EnsureMapping)
                },
            },
            StartEvent::MappingEnsured(ensured) => match ensured {
                Err(_) => (StartStage::Failed, StartAction::RestoreComposeAndFail { code: BackendErrorCode::RuntimePortForwardingInvalid, retryable: false }),
                Ok(changed) => {
                    self.compose_changed = changed;
                    if changed {
                        (StartStage::Recreating, StartAction::RecreateContainer)
                    } else {
                        (StartStage::ReadingStorage, StartAction::ReadStorage)
                    }
                },
            },
            StartEvent::ContainerRecreated(recreated) => match recreated {
                Ok(()) => (StartStage::WaitingForGuest, StartAction::WaitForGuest),
                Err(message) => {
                    let code = if crate::runtime_rules::port_conflict_message(&message) {
                        BackendErrorCode::RuntimePortConflict
                    } else {
                        BackendErrorCode::RuntimeInitializationFailed
                    };
                    (StartStage::RollingBack { code, retryable: true }, StartAction::RollBack)
                },
            },
            StartEvent::GuestWaited(online) => if online {
                (StartStage::ReadingStorage, StartAction::ReadStorage)
            } else {
                (StartStage::RollingBack { code: BackendErrorCode::RuntimeGuestOffline, retryable: true }, StartAction::RollBack)
            },
            StartEvent::StorageRead(read) => {
                let same = match &read {
                    Ok(after) => same_texts(after, &self.storage_before),
                    Err(_) => false,
                };
                if same {
                    (StartStage::ReadingManagedCompose, StartAction::ReadManagedCompose)
                } else {
                    (StartStage::RollingBack { code: BackendErrorCode::RuntimePortForwardingInvalid, retryable: false }, StartAction::RollBack)
                }
            },
            StartEvent::ManagedComposeRead(read) => if read {
                (StartStage::ReadingBinding, StartAction::ReadBinding)
            } else {
                (StartStage::Failed, StartAction::RestoreComposeAndFail { code: BackendErrorCode::RuntimePortForwardingInvalid, retryable: false })
            },
            StartEvent::BindingRead(read) => match read {
                Err(_) => if self.compose_changed {
                    (StartStage::RollingBack { code: BackendErrorCode::RuntimePortForwardingInvalid, retryable: true }, StartAction::RollBack)
                } else {
                    (StartStage::Failed, StartAction::RestoreComposeAndFail { code: BackendErrorCode::RuntimePortForwardingInvalid, retryable: true })
                },
                Ok(binding) => if is_matching_binding(&binding, self.guest_port) {
                    (StartStage::Recording, StartAction::CreateRecord { host_port: binding.host_port })
                } else {
                    (StartStage::RollingBack { code: BackendErrorCode::RuntimePortForwardingInvalid, retryable: false }, StartAction::RollBack)
                },
            },
            StartEvent::RolledBack(restored) => match self.stage {
                StartStage::RollingBack { code, retryable } => if restored {
                    (StartStage::Failed, StartAction::RestoreComposeAndFail { code, retryable })
                } else {
                    (StartStage::Failed, StartAction::RestoreComposeAndFail { code: BackendErrorCode::RuntimeComposeRecoveryFailed, retryable: false })
                },
                _ => (StartStage::Failed, StartAction::RestoreComposeAndFail { code: BackendErrorCode::OperationFailed, retryable: false }),
            },
            StartEvent::RecordCreated(created) => match created {
                Ok(()) => (StartStage::Started, StartAction::Commit),
                Err((code, retryable)) => (StartStage::Failed, StartAction::RestoreComposeAndFail { code, retryable }),
            },
        };
        self.stage = stage;
        action
    }
}


/// A session record is created only right after reading a host binding that is on IPv4
/// loopback for the requested guest port, and then for that binding's host port.
pub proof fn lemma_record_only_for_a_loopback_binding(start: RuntimeStart, event: StartEvent)
    requires
        expects(start.stage, event),
    ensures
        start_next(start, event).1 matches StartAction::CreateRecord { host_port } ==> (event matches StartEvent::BindingRead(Ok(b))
            && binding_matches(b, start.guest_port) && b.host_port == host_port),
{
}

/// A start linked to a Studio Pro session never prepares a session unless the Compose file
/// declares the prepared loopback mapping and the live binding is loopback on the
/// requested guest port.
pub proof fn lemma_linked_start_needs_a_live_loopback_mapping(start: RuntimeStart, event: StartEvent)
    requires
        expects(start.stage, event),
        start.linked_studio,
    ensures
        start_next(start, event).1 is PrepareSession ==> (event matches StartEvent::LiveBindingRead(Ok(b))
            && binding_matches(b, start.guest_port)),
{
}

/// Once the container was recreated from a changed Compose file, a failed recreation,
/// guest wait, storage check or binding check is answered by a rollback, never by a bare
/// failure.
pub proof fn lemma_changed_compose_is_rolled_back(start: RuntimeStart, event: StartEvent)
    requires
        expects(start.stage, event),
        start.compose_changed,
        event is ContainerRecreated || event is GuestWaited || event is StorageRead || event is BindingRead,
    ensures
        !(start_next(start, event).1 is Fail),
{
}

/// Once the Compose snapshot is taken, a start never ends in a bare failure: every failure
/// from then on writes the snapshot back first, after a rollback where the container was
/// recreated from a changed file; a failure before the snapshot leaves the file untouched.
pub proof fn lemma_failure_after_snapshot_restores_compose(start: RuntimeStart, event: StartEvent)
    requires
        expects(start.stage, event),
    ensures
        (after_snapshot(start.stage) || (event matches StartEvent::SessionPrepared(Err((_, true)))))
            ==> !(start_next(start, event).1 is Fail),
        start_next(start, event).1 is Fail ==> !after_snapshot(start.stage),
        start_next(start, event).1 is RestoreComposeAndFail ==> (after_snapshot(start.stage)
            || (event matches StartEvent::SessionPrepared(Err((_, true))))),
        after_snapshot(start.stage) ==> (after_snapshot(start_next(start, event).0)
            || start_next(start, event).0 is Failed || start_next(start, event).0 is Started),
        start_next(start, event).1 is Commit ==> start.stage is Recording,
{
}

/// A rollback that does not restore the container answers with the Compose recovery
/// failure, whatever failure it was rolling back; one that does answers with that failure.
pub proof fn lemma_rollback_outcome(start: RuntimeStart, restored: bool)
    requires
        start.stage is RollingBack,
    ensures
        start_next(start, StartEvent::RolledBack(restored)).1 == (if restored {
            StartAction::RestoreComposeAndFail { code: start.stage->code, retryable: start.stage->retryable }
        } else {
            StartAction::RestoreComposeAndFail { code: BackendErrorCode::RuntimeComposeRecoveryFailed, retryable: false }
        }),
{
}


/// What a Runtime session's lifecycle decides of its record.
#[derive(Debug)]
pub struct RuntimeRecord {
    pub state: RuntimeState,
    pub http_ready: bool,
    pub failure_code: Option<BackendErrorCode>,
    pub studio_session_id: Option<String>,
    pub studio_state: StudioProcessState,
    pub studio_process_id: Option<u32>,
    pub host_port: u16,
    pub guest_port: u16,
    pub readiness_timeout_seconds: u64,
    pub original_compose_sha256: String,
    pub managed_compose_sha256: String,
    pub storage_mount_identity: Vec<String>,
}

/// The record's fields other than the lifecycle's state, readiness, failure and Studio Pro
/// observation are the same in both.
pub open spec fn same_session(a: RuntimeRecord, b: RuntimeRecord) -> bool {
    &&& a.studio_session_id == b.studio_session_id
    &&& a.guest_port == b.guest_port
    &&& a.readiness_timeout_seconds == b.readiness_timeout_seconds
    &&& a.original_compose_sha256 == b.original_compose_sha256
    &&& a.managed_compose_sha256 == b.managed_compose_sha256
    &&& a.storage_mount_identity == b.storage_mount_identity
}

pub open spec fn studio_state_name(state: StudioProcessState) -> Seq<char> {
    match state {
        StudioProcessState::Unknown => "Unknown"@,
        StudioProcessState::Running => "Running"@,
        StudioProcessState::Stopped => "Stopped"@,
    }
}

fn studio_state_text(state: StudioProcessState) -> (r: &'static str)
    ensures
        r@ == studio_state_name(state),
{
    match state {
        StudioProcessState::Unknown => "Unknown",
        StudioProcessState::Running => "Running",
        StudioProcessState::Stopped => "Stopped",
    }
}

pub open spec fn bool_text(b: bool) -> Seq<char> {
    if b { "true"@ } else { "false"@ }
}

/// The log line of a newly recorded failure, given the state and failure before it: none
/// when the record carries no failure or already failed with the same code.
pub open spec fn failure_note(previous: (RuntimeState, Option<BackendErrorCode>), record: RuntimeRecord, reason: Seq<char>) -> Option<Seq<char>> {
    match record.failure_code {
        None => None,
        Some(code) => if previous == (RuntimeState::Failed, Some(code)) {
            None
        } else {
            Some("Runtime failure recorded: code="@ + code.name_spec() + "; reason="@ + reason
                + "; httpReady="@ + bool_text(record.http_ready)
                + "; studioSession="@ + (match record.studio_session_id { Some(id) => id@, None => "unspecified"@ })
                + "; studioState="@ + studio_state_name(record.studio_state)
                + "; studioProcessId="@ + (match record.studio_process_id { Some(pid) => decimal(pid as nat), None => "unspecified"@ })
                + "."@)
        },
    }
}

pub fn failure_diagnostic(previous: (RuntimeState, Option<BackendErrorCode>), record: &RuntimeRecord, reason: &str) -> (note: Option<String>)
    ensures
        match failure_note(previous, *record, reason@) {
            Some(n) => note matches Some(x) && x@ == n,
            None => note is None,
        },
{
    let code = match record.failure_code {
        Some(code) => code,
        None => {
            return None;
        },
    };
    if previous.0 == RuntimeState::Failed && previous.1 == Some(code) {
        return None;
    }
    let mut out = to_chars("Runtime failure recorded: code=");
    push_str(&mut out, code.as_str());
    push_str(&mut out, "; reason=");
    push_str(&mut out, reason);
    push_str(&mut out, "; httpReady=");
    push_str(&mut out, if record.http_ready { "true" } else { "false" });
    push_str(&mut out, "; studioSession=");
    match &record.studio_session_id {
        Some(id) => push_str(&mut out, id),
        None => push_str(&mut out, "unspecified"),
    }
    push_str(&mut out, "; studioState=");
    push_str(&mut out, studio_state_text(record.studio_state));
    push_str(&mut out, "; studioProcessId=");
    match record.studio_process_id {
        Some(pid) => {
            let digits = decimal_chars(pid as u64);
            push_all(&mut out, &digits);
        },
        None => push_str(&mut out, "unspecified"),
    }
    push_str(&mut out, ".");
    Some(string_from(&out))
}

/// What a refresh does after checking the guest and the host binding.
pub enum RefreshStep {
    /// The session failed; the failure's log line, if it is new.
    Failed { note: Option<String> },
    /// Probe the Runtime at `url`; whether the host port changed since it was recorded.
    Probe { url: String, port_changed: bool },
}

pub open spec fn refresh_failure_reason(online: bool) -> Seq<char> {
    if !online { "Guest API health probe failed."@ } else { "The loopback Runtime host binding could not be inspected."@ }
}

/// Records what a refresh observed of the guest and the Runtime's host binding: an
/// offline guest, an unreadable binding or one off loopback or on another guest port fails
/// the session; otherwise the record follows the binding's host port and the Runtime is
/// probed at its URL.
pub fn refresh_binding(record: &mut RuntimeRecord, online: bool, binding: Result<HostBinding, ()>) -> (step: RefreshStep)
    ensures
        same_session(*old(record), *final(record)),
        final(record).studio_process_id == old(record).studio_process_id,
        !online ==> {
            &&& final(record).state == RuntimeState::Failed
            &&& !final(record).http_ready
            &&& final(record).failure_code == Some(BackendErrorCode::RuntimeGuestOffline)
            &&& final(record).studio_state == StudioProcessState::Unknown
            &&& final(record).host_port == old(record).host_port
            &&& step matches RefreshStep::Failed { note } && match failure_note((old(record).state, old(record).failure_code), *final(record), "Guest API health probe failed."@) {
                Some(n) => note matches Some(x) && x@ == n,
                None => note is None,
            }
        },
        online && !(binding matches Ok(b) && binding_matches(b, old(record).guest_port)) ==> {
            &&& final(record).state == RuntimeState::Failed
            &&& !final(record).http_ready
            &&& final(record).failure_code == Some(BackendErrorCode::RuntimePortForwardingInvalid)
            &&& final(record).studio_state == old(record).studio_state
            &&& final(record).host_port == old(record).host_port
            &&& step matches RefreshStep::Failed { note } && match failure_note(
                (old(record).state, old(record).failure_code), *final(record),
                if binding is Err { "The loopback Runtime host binding could not be inspected."@ }
                else { "The loopback Runtime host binding did not match the recorded guest port."@ }) {
                Some(n) => note matches Some(x) && x@ == n,
                None => note is None,
            }
        },
        online && (binding matches Ok(b) && binding_matches(b, old(record).guest_port)) ==> {
            &&& final(record).state == old(record).state
            &&& final(record).http_ready == old(record).http_ready
            &&& final(record).failure_code == old(record).failure_code
            &&& final(record).studio_state == old(record).studio_state
            &&& final(record).host_port == binding->Ok_0.host_port
            &&& step matches RefreshStep::Probe { url, port_changed }
                && url@ == "http://127.0.0.1:"@ + decimal(binding->Ok_0.host_port as nat)
                && port_changed == (binding->Ok_0.host_port != old(record).host_port)
        },
{
    let previous = (record.state, record.failure_code);
    if !online {
        record.state = RuntimeState::Failed;
        record.http_ready = false;
        record.failure_code = Some(BackendErrorCode::RuntimeGuestOffline);
        record.studio_state = StudioProcessState::Unknown;
        let note = failure_diagnostic(previous, record, "Guest API health probe failed.");
        return RefreshStep::Failed { note };
    }
    let binding = match binding {
        Ok(binding) => binding,
        Err(()) => {
            record.state = RuntimeState::Failed;
            record.http_ready = false;
            record.failure_code = Some(BackendErrorCode::RuntimePortForwardingInvalid);
            let note = failure_diagnostic(previous, record, "The loopback Runtime host binding could not be inspected.");
            return RefreshStep::Failed { note };
        },
    };
    if !is_matching_binding(&binding, record.guest_port) {
        record.state = RuntimeState::Failed;
        record.http_ready = false;
        record.failure_code = Some(BackendErrorCode::RuntimePortForwardingInvalid);
        let note = failure_diagnostic(previous, record, "The loopback Runtime host binding did not match the recorded guest port.");
        return RefreshStep::Failed { note };
    }
    let port_changed = binding.host_port != record.host_port;
    if port_changed {
        record.host_port = binding.host_port;
    }
    RefreshStep::Probe { url: runtime_url(record.host_port), port_changed }
}

/// Records whether the Runtime answered over HTTP: ready, with Studio Pro running, when it
/// did; starting otherwise. Either way no failure remains recorded.
pub fn apply_http_readiness(record: &mut RuntimeRecord, http_ready: bool)
    ensures
        same_session(*old(record), *final(record)),
        final(record).host_port == old(record).host_port,
        final(record).studio_process_id == old(record).studio_process_id,
        final(record).http_ready == http_ready,
        final(record).failure_code is None,
        final(record).state == (if http_ready { RuntimeState::Ready } else { RuntimeState::Starting }),
        final(record).studio_state == (if http_ready { StudioProcessState::Running } else { old(record).studio_state }),
{
    record.http_ready = http_ready;
    if http_ready {
        record.state = RuntimeState::Ready;
        record.failure_code = None;
        record.studio_state = StudioProcessState::Running;
    } else {
        record.state = RuntimeState::Starting;
        record.failure_code = None;
    }
}

/// What a wait makes of a refreshed record.
#[derive(Debug, Clone, Copy, PartialEq, Eq, Structural)]
pub enum WaitVerdict {
    Ready,
    /// A failure that waiting cannot clear.
    Fail,
    KeepWaiting,
}

/// The failures a wait gives up on at once.
pub open spec fn final_failure(code: Option<BackendErrorCode>) -> bool {
    code == Some(BackendErrorCode::RuntimePortConflict) || code == Some(BackendErrorCode::RuntimePortForwardingInvalid)
        || code == Some(BackendErrorCode::RuntimeComposeRecoveryFailed) || code == Some(BackendErrorCode::RuntimeExited)
}

pub fn wait_verdict(record: &RuntimeRecord) -> (v: WaitVerdict)
    ensures
        v == (if record.state == RuntimeState::Ready { WaitVerdict::Ready }
            else if final_failure(record.failure_code) { WaitVerdict::Fail }
            else { WaitVerdict::KeepWaiting }),
{
    if record.state == RuntimeState::Ready {
        WaitVerdict::Ready
    } else {
        match record.failure_code {
            Some(BackendErrorCode::RuntimePortConflict) | Some(BackendErrorCode::RuntimePortForwardingInvalid)
            | Some(BackendErrorCode::RuntimeComposeRecoveryFailed) | Some(BackendErrorCode::RuntimeExited) => WaitVerdict::Fail,
            _ => WaitVerdict::KeepWaiting,
        }
    }
}

/// How long a wait lasts: the record's readiness timeout, kept within 1 to 3600 seconds.
pub fn wait_timeout_seconds(record: &RuntimeRecord) -> (seconds: u64)
    ensures
        seconds == (if record.readiness_timeout_seconds < 1 { 1 }
            else if record.readiness_timeout_seconds > MAX_READINESS_TIMEOUT_SECONDS { MAX_READINESS_TIMEOUT_SECONDS }
            else { record.readiness_timeout_seconds }),
        1 <= seconds <= MAX_READINESS_TIMEOUT_SECONDS,
{
    if record.readiness_timeout_seconds < 1 {
        1
    } else if record.readiness_timeout_seconds > MAX_READINESS_TIMEOUT_SECONDS {
        MAX_READINESS_TIMEOUT_SECONDS
    } else {
        record.readiness_timeout_seconds
    }
}

/// The code a timed-out wait fails with: a readiness timeout of a session linked to a
/// Studio Pro session that is seen stopped means the Runtime exited with it.
pub open spec fn timed_out_code(diagnosed: BackendErrorCode, linked_studio_stopped: bool) -> BackendErrorCode {
    if diagnosed == BackendErrorCode::RuntimeReadinessTimeout && linked_studio_stopped {
        BackendErrorCode::RuntimeExited
    } else {
        diagnosed
    }
}

/// Records the failure a timed-out wait ends with, and gives its log line if new.
pub fn fail_timed_out_wait(record: &mut RuntimeRecord, diagnosed: BackendErrorCode, linked_studio_stopped: bool) -> (note: Option<String>)
    ensures
        same_session(*old(record), *final(record)),
        final(record).state == RuntimeState::Failed,
        !final(record).http_ready,
        final(record).failure_code == Some(timed_out_code(diagnosed, linked_studio_stopped)),
        final(record).studio_state == old(record).studio_state,
        final(record).studio_process_id == old(record).studio_process_id,
        final(record).host_port == old(record).host_port,
        match failure_note((old(record).state, old(record).failure_code), *final(record),
            crate::runtime_rules::diagnostic_log_message_spec(timed_out_code(diagnosed, linked_studio_stopped))) {
            Some(n) => note matches Some(x) && x@ == n,
            None => note is None,
        },
{
    let code = if diagnosed == BackendErrorCode::RuntimeReadinessTimeout && linked_studio_stopped {
        BackendErrorCode::RuntimeExited
    } else {
        diagnosed
    };
    let previous = (record.state, record.failure_code);
    record.state = RuntimeState::Failed;
    record.http_ready = false;
    record.failure_code = Some(code);
    failure_diagnostic(previous, record, crate::runtime_rules::diagnostic_log_message(code))
}

/// What a stop does with the Compose file, or the code it fails with.
pub open spec fn stop_compose_plan(record: RuntimeRecord, original_sha256: Seq<char>, current_sha256: Seq<char>) -> Result<bool, BackendErrorCode> {
    if original_sha256 != record.original_compose_sha256@ {
        Err(BackendErrorCode::RuntimeComposeRecoveryFailed)
    } else if current_sha256 != record.managed_compose_sha256@ && current_sha256 != record.original_compose_sha256@ {
        Err(BackendErrorCode::RuntimeComposeRecoveryFailed)
    } else {
        Ok(current_sha256 != record.original_compose_sha256@)
    }
}

/// Decides a stop from the digests of the kept original Compose file and of the current
/// one: the original must be unchanged and the current one either the managed or the
/// original file; returns whether the original is to be written back.
pub fn plan_stop_compose(record: &RuntimeRecord, original_sha256: &str, current_sha256: &str) -> (plan: Result<bool, BackendErrorCode>)
    ensures
        plan == stop_compose_plan(*record, original_sha256@, current_sha256@),
{
    let original = crate::text::string_of(original_sha256);
    let current = crate::text::string_of(current_sha256);
    if original != record.original_compose_sha256 {
        return Err(BackendErrorCode::RuntimeComposeRecoveryFailed);
    }
    if current != record.managed_compose_sha256 && current != record.original_compose_sha256 {
        return Err(BackendErrorCode::RuntimeComposeRecoveryFailed);
    }
    Ok(current != record.original_compose_sha256)
}

/// Records a completed stop, once the container came back with the storage mounts the
/// session recorded; a different set of mounts fails the stop.
pub fn finish_stop(record: &mut RuntimeRecord, storage_after: &Vec<String>) -> (r: Result<(), BackendErrorCode>)
    ensures
        r is Ok <==> texts(storage_after@) == texts(old(record).storage_mount_identity@),
        r is Err ==> *final(record) == *old(record) && r == Err::<(), BackendErrorCode>(BackendErrorCode::RuntimeComposeRecoveryFailed),
        r is Ok ==> {
            &&& same_session(*old(record), *final(record))
            &&& final(record).state == RuntimeState::Stopped
            &&& !final(record).http_ready
            &&& final(record).failure_code is None
            &&& final(record).studio_state == StudioProcessState::Stopped
            &&& final(record).studio_process_id is None
            &&& final(record).host_port == old(record).host_port
        },
{
    if !same_texts(storage_after, &record.storage_mount_identity) {
        return Err(BackendErrorCode::RuntimeComposeRecoveryFailed);
    }
    record.state = RuntimeState::Stopped;
    record.http_ready = false;
    record.failure_code = None;
    record.studio_state = StudioProcessState::Stopped;
    record.studio_process_id = None;
    Ok(())
}


/// A stopped record of the same session: not ready, without failure, and with Studio Pro
/// stopped.
pub open spec fn stopped_from(before: RuntimeRecord, after: RuntimeRecord) -> bool {
    &&& same_session(before, after)
    &&& after.state == RuntimeState::Stopped
    &&& !after.http_ready
    &&& after.failure_code is None
    &&& after.studio_state == StudioProcessState::Stopped
    &&& after.studio_process_id is None
    &&& after.host_port == before.host_port
}

/// Where a Runtime stop stands.
#[derive(Debug, Clone, Copy, PartialEq, Eq, Structural)]
pub enum StopStage {
    ReadingOriginal,
    ReadingCurrent,
    WritingOriginal,
    Recreating,
    WaitingForGuest,
    ReadingStorage,
    WritingRecord,
    /// The session is stopped and its record written, or was stopped already.
    Stopped,
    Failed,
}

/// What the caller does next for a Runtime stop.
#[derive(Debug, Clone, Copy, PartialEq, Eq, Structural)]
pub enum StopAction {
    /// The session was stopped already: answer that the stop succeeded.
    AlreadyStopped,
    /// Read the kept copy of the original Compose file.
    ReadOriginal,
    /// Read the Compose file as it now stands.
    ReadCurrent,
    /// Write the original Compose file back.
    WriteOriginal,
    /// Recreate the container from the Compose file.
    RecreateContainer,
    /// Wait for the guest to come online.
    WaitForGuest,
    /// Read the container's storage mounts.
    ReadStorage,
    /// Log the stop and write the stopped record.
    WriteRecord,
    /// Answer that the stop succeeded.
    Done,
    /// Answer the request with a Runtime stop error of `code`, with the session's log as its
    /// diagnostic.
    Fail { code: BackendErrorCode, retryable: bool },
}

/// What the caller observed for the action it was given.
pub enum StopEvent {
    OriginalRead(Result<Vec<u8>, ()>),
    CurrentRead(Result<Vec<u8>, ()>),
    OriginalWritten(bool),
    ContainerRecreated(bool),
    GuestWaited(bool),
    StorageRead(Result<Vec<String>, ()>),
    RecordWritten(bool),
}

/// A Runtime stop in progress, with the session's record.
#[derive(Debug)]
pub struct RuntimeStop {
    pub record: RuntimeRecord,
    pub stage: StopStage,
}

/// The event a stop stage waits for.
pub open spec fn stop_expects(stage: StopStage, event: StopEvent) -> bool {
    match stage {
        StopStage::ReadingOriginal => event is OriginalRead,
        StopStage::ReadingCurrent => event is CurrentRead,
        StopStage::WritingOriginal => event is OriginalWritten,
        StopStage::Recreating => event is ContainerRecreated,
        StopStage::WaitingForGuest => event is GuestWaited,
        StopStage::ReadingStorage => event is StorageRead,
        StopStage::WritingRecord => event is RecordWritten,
        _ => false,
    }
}

/// The lower-case hex SHA-256 digest of the bytes.
pub open spec fn digest_text(bytes: Seq<u8>) -> Seq<char> {
    crate::security::hex_encode_spec(crate::outside::spec_sha256(bytes))
}

pub open spec fn stop_failing(code: BackendErrorCode, retryable: bool) -> (StopStage, StopAction) {
    (StopStage::Failed, StopAction::Fail { code, retryable })
}

/// What a stop does on an event: its next stage and action. A kept original that changed,
/// or a Compose file that is neither the managed nor the original one, fails the stop; a
/// failed recreation may be retried, and so may a guest that did not come back.
pub open spec fn stop_next(stop: RuntimeStop, event: StopEvent) -> (StopStage, StopAction) {
    match event {
        StopEvent::OriginalRead(read) => match read {
            Ok(bytes) => if digest_text(bytes@) == stop.record.original_compose_sha256@ {
                (StopStage::ReadingCurrent, StopAction::ReadCurrent)
            } else {
                stop_failing(BackendErrorCode::RuntimeComposeRecoveryFailed, false)
            },
            Err(_) => stop_failing(BackendErrorCode::RuntimeComposeRecoveryFailed, false),
        },
        StopEvent::CurrentRead(read) => match read {
            Ok(bytes) => match stop_compose_plan(stop.record, stop.record.original_compose_sha256@, digest_text(bytes@)) {
                Ok(write_back) => if write_back {
                    (StopStage::WritingOriginal, StopAction::WriteOriginal)
                } else {
                    (StopStage::Recreating, StopAction::RecreateContainer)
                },
                Err(code) => stop_failing(code, false),
            },
            Err(_) => stop_failing(BackendErrorCode::RuntimeComposeRecoveryFailed, false),
        },
        StopEvent::OriginalWritten(written) => if written {
            (StopStage::Recreating, StopAction::RecreateContainer)
        } else {
            stop_failing(BackendErrorCode::RuntimeComposeRecoveryFailed, false)
        },
        StopEvent::ContainerRecreated(recreated) => if recreated {
            (StopStage::WaitingForGuest, StopAction::WaitForGuest)
        } else {
            stop_failing(BackendErrorCode::RuntimeComposeRecoveryFailed, true)
        },
        StopEvent::GuestWaited(online) => if online {
            (StopStage::ReadingStorage, StopAction::ReadStorage)
        } else {
            stop_failing(BackendErrorCode::RuntimeGuestOffline, true)
        },
        StopEvent::StorageRead(read) => match read {
            Ok(after) => if texts(after@) == texts(stop.record.storage_mount_identity@) {
                (StopStage::WritingRecord, StopAction::WriteRecord)
            } else {
                stop_failing(BackendErrorCode::RuntimeComposeRecoveryFailed, false)
            },
            Err(_) => stop_failing(BackendErrorCode::RuntimeComposeRecoveryFailed, false),
        },
        StopEvent::RecordWritten(written) => if written {
            (StopStage::Stopped, StopAction::Done)
        } else {
            stop_failing(BackendErrorCode::OperationFailed, false)
        },
    }
}

fn digest_of(bytes: &Vec<u8>) -> (text: String)
    ensures
        text@ == digest_text(bytes@),
{
    let digest = crate::outside::sha256(bytes.as_slice());
    let hex = crate::security::hex_encode(&digest);
    string_from(&hex)
}

impl RuntimeStop {
    /// Begins the stop of a session with the given record: one that is stopped already is
    /// answered at once, any other first reads the kept original Compose file.
    pub fn begin(record: RuntimeRecord) -> (r: (RuntimeStop, StopAction))
        ensures
            r.0.record == record,
            record.state == RuntimeState::Stopped ==> r.0.stage == StopStage::Stopped && r.1 == StopAction::AlreadyStopped,
            record.state != RuntimeState::Stopped ==> r.0.stage == StopStage::ReadingOriginal && r.1 == StopAction::ReadOriginal,
    {
        if record.state == RuntimeState::Stopped {
            (RuntimeStop { record, stage: StopStage::Stopped }, StopAction::AlreadyStopped)
        } else {
            (RuntimeStop { record, stage: StopStage::ReadingOriginal }, StopAction::ReadOriginal)
        }
    }

    /// Takes what the caller observed and gives the next action; the record becomes the
    /// stopped record once the storage mounts came back unchanged.
    pub fn step(&mut self, event: StopEvent) -> (action: StopAction)
        requires
            stop_expects(old(self).stage, event),
        ensures
            (final(self).stage, action) == stop_next(*old(self), event),
            action is WriteRecord ==> stopped_from(old(self).record, final(self).record),
            !(action is WriteRecord) ==> final(self).record == old(self).record,
    {
        let (stage, action) = match event {
            StopEvent::OriginalRead(read) => match read {
                Ok(bytes) => {
                    let digest = digest_of(&bytes);
                    if digest == self.record.original_compose_sha256 {
                        (StopStage::ReadingCurrent, StopAction::ReadCurrent)
                    } else {
                        (StopStage::Failed, StopAction::Fail { code: BackendErrorCode::RuntimeComposeRecoveryFailed, retryable: false })
                    }
                },
                Err(()) => (StopStage::Failed, StopAction::Fail { code: BackendErrorCode::RuntimeComposeRecoveryFailed, retryable: false }),
            },
            StopEvent::CurrentRead(read) => match read {
                Ok(bytes) => {
                    let digest = digest_of(&bytes);
                    match plan_stop_compose(&self.record, self.record.original_compose_sha256.as_str(), digest.as_str()) {
                        Ok(write_back) => if write_back {
                            (StopStage::WritingOriginal, StopAction::WriteOriginal)
                        } else {
                            (StopStage::Recreating, StopAction::RecreateContainer)
                        },
                        Err(code) => (StopStage::Failed, StopAction::Fail { code, retryable: false }),
                    }
                },
                Err(()) => (StopStage::Failed, StopAction::Fail { code: BackendErrorCode::RuntimeComposeRecoveryFailed, retryable: false }),
            },
            StopEvent::OriginalWritten(written) => if written {
                (StopStage::Recreating, StopAction::RecreateContainer)
            } else {
                (StopStage::Failed, StopAction::Fail { code: BackendErrorCode::RuntimeComposeRecoveryFailed, retryable: false })
            },
            StopEvent::ContainerRecreated(recreated) => if recreated {
                (StopStage::WaitingForGuest, StopAction::WaitForGuest)
            } else {
                (StopStage::Failed, StopAction::Fail { code: BackendErrorCode::RuntimeComposeRecoveryFailed, retryable: true })
            },
            StopEvent::GuestWaited(online) => if online {
                (StopStage::ReadingStorage, StopAction::ReadStorage)
            } else {
                (StopStage::Failed, StopAction::Fail { code: BackendErrorCode::RuntimeGuestOffline, retryable: true })
            },
            StopEvent::StorageRead(read) => match read {
                Ok(after) => match finish_stop(&mut self.record, &after) {
                    Ok(()) => (StopStage::WritingRecord, StopAction::WriteRecord),
                    Err(code) => (StopStage::Failed, StopAction::Fail { code, retryable: false }),
                },
                Err(()) => (StopStage::Failed, StopAction::Fail { code: BackendErrorCode::RuntimeComposeRecoveryFailed, retryable: false }),
            },
            StopEvent::RecordWritten(written) => if written {
                (StopStage::Stopped, StopAction::Done)
            } else {
                (StopStage::Failed, StopAction::Fail { code: BackendErrorCode::OperationFailed, retryable: false })
            },
        };
        self.stage = stage;
        action
    }
}

/// A stop answers with success only for a session stopped already, or after the original
/// Compose file is in place, the container was recreated, the guest came back with the
/// session's storage mounts, and the stopped record was written.
pub proof fn lemma_stop_succeeds_only_when_restored(stop: RuntimeStop, event: StopEvent)
    requires
        stop_expects(stop.stage, event),
    ensures
        stop_next(stop, event).1 is Done ==> stop.stage == StopStage::WritingRecord
            && event == StopEvent::RecordWritten(true),
        stop_next(stop, event).1 is WriteRecord ==> stop.stage == StopStage::ReadingStorage
            && (event matches StopEvent::StorageRead(Ok(after))
                && texts(after@) == texts(stop.record.storage_mount_identity@)),
        stop_next(stop, event).1 is RecreateContainer ==> (stop.stage == StopStage::WritingOriginal
            || (event matches StopEvent::CurrentRead(Ok(bytes))
                && digest_text(bytes@) == stop.record.original_compose_sha256@)),
{
}

/// One Studio Pro session the guest reports.
#[derive(Debug)]
pub struct StudioObservation {
    pub session_id: String,
    pub state: StudioProcessState,
    pub process_id: Option<u32>,
}

/// The first reported session with the given ID.
pub open spec fn observed_session(sessions: Seq<StudioObservation>, id: Seq<char>) -> Option<StudioObservation> {
    if exists|i: int| 0 <= i < sessions.len() && (#[trigger] sessions[i]).session_id@ == id {
        let first = choose|i: int| 0 <= i < sessions.len() && (#[trigger] sessions[i]).session_id@ == id
            && forall|j: int| 0 <= j < i ==> (#[trigger] sessions[j]).session_id@ != id;
        Some(sessions[first])
    } else {
        None
    }
}

/// Records what the guest reports of the linked Studio Pro session: unknown when the report
/// failed, its state and process when it is listed, stopped when it is not or none is
/// linked.
pub fn observe_studio(record: &mut RuntimeRecord, sessions: Result<Vec<StudioObservation>, ()>)
    ensures
        same_session(*old(record), *final(record)),
        final(record).state == old(record).state,
        final(record).http_ready == old(record).http_ready,
        final(record).failure_code == old(record).failure_code,
        final(record).host_port == old(record).host_port,
        match sessions {
            Err(_) => final(record).studio_state == StudioProcessState::Unknown && final(record).studio_process_id is None,
            Ok(list) => match old(record).studio_session_id {
                Some(id) => match observed_session(list@, id@) {
                    Some(found) => final(record).studio_state == found.state && final(record).studio_process_id == found.process_id,
                    None => final(record).studio_state == StudioProcessState::Stopped && final(record).studio_process_id is None,
                },
                None => final(record).studio_state == StudioProcessState::Stopped && final(record).studio_process_id is None,
            },
        },
{
    let list = match sessions {
        Ok(list) => list,
        Err(()) => {
            record.studio_state = StudioProcessState::Unknown;
            record.studio_process_id = None;
            return;
        },
    };
    let linked = match &record.studio_session_id {
        Some(id) => crate::text::string_of(id),
        None => {
            record.studio_state = StudioProcessState::Stopped;
            record.studio_process_id = None;
            return;
        },
    };
    let mut i: usize = 0;
    while i < list.len()
        invariant
            i <= list@.len(),
            old(record).studio_session_id matches Some(id) && id@ == linked@,
            *record == *old(record),
            sessions matches Ok(l) && l@ == list@,
            forall|j: int| 0 <= j < i ==> (#[trigger] list@[j]).session_id@ != linked@,
        decreases list@.len() - i,
    {
        if list[i].session_id == linked {
            proof {
                let id = linked@;
                assert(list@[i as int].session_id@ == id);
                let first = choose|k: int| 0 <= k < list@.len() && (#[trigger] list@[k]).session_id@ == id
                    && forall|j: int| 0 <= j < k ==> (#[trigger] list@[j]).session_id@ != id;
                if first < i {
                } else if first > i {
                    assert(list@[i as int].session_id@ != id);
                }
                assert(first == i);
            }
            record.studio_state = list[i].state;
            record.studio_process_id = list[i].process_id;
            return;
        }
        i = i + 1;
    }
    record.studio_state = StudioProcessState::Stopped;
    record.studio_process_id = None;
}

/// The URL a session's status reports: the loopback Runtime URL once it answers over HTTP.
pub fn status_url(record: &RuntimeRecord) -> (url: Option<String>)
    ensures
        record.http_ready ==> (url matches Some(u) && u@ == "http://127.0.0.1:"@ + decimal(record.host_port as nat)),
        !record.http_ready ==> url is None,
{
    if record.http_ready { Some(runtime_url(record.host_port)) } else { None }
}

/// A failure is logged once: recording the same failure again, for whatever reason, adds
/// no log line, while a different failure or a first one does.
pub proof fn lemma_failure_logged_once(
    previous: (RuntimeState, Option<BackendErrorCode>),
    record: RuntimeRecord,
    reason: Seq<char>,
)
    requires
        record.failure_code is Some,
    ensures
        failure_note(previous, record, reason) is None <==> previous == (RuntimeState::Failed, record.failure_code),
{
}


/// The most log lines one batch holds.
pub const MAX_LOG_LINES_PER_BATCH: usize = 1000;

/// A page of a Runtime session's log.
#[derive(Debug, Clone, PartialEq, Eq)]
pub struct RuntimeLogBatch {
    pub session_id: String,
    pub entries: Vec<String>,
    pub next_cursor: Option<String>,
    pub truncated: bool,
}

/// The line a page starts at: the cursor as a number, 0 without one.
pub open spec fn log_start(cursor: Option<Seq<char>>) -> Option<usize> {
    match cursor {
        None => Some(0usize),
        Some(c) => crate::text::parse_usize_spec(c),
    }
}

/// The page of the log (read as UTF-8, invalid sequences replaced) that starts at the
/// cursor: at most 1000 lines, with the cursor of the next page when lines remain; `None`
/// when the cursor is not a number or lies past the last line.
pub fn log_batch(session_id: &str, cursor: Option<&str>, content: &[u8]) -> (r: Option<RuntimeLogBatch>)
    ensures
        ({
            let lines = crate::text::lines_spec(crate::outside::spec_utf8_lossy(content@));
            match log_start(match cursor { Some(c) => Some(c@), None => None }) {
                None => r is None,
                Some(start) => if start > lines.len() {
                    r is None
                } else {
                    let end = if start + MAX_LOG_LINES_PER_BATCH < lines.len() { start + MAX_LOG_LINES_PER_BATCH } else { lines.len() as int };
                    r matches Some(batch) && batch.session_id@ == session_id@
                        && batch.entries@.len() == end - start
                        && (forall|i: int| 0 <= i < end - start ==> (#[trigger] batch.entries@[i])@ == lines[start + i])
                        && batch.truncated == (end < lines.len())
                        && (batch.next_cursor matches Some(next) ==> next@ == crate::text::decimal(end as nat))
                        && (batch.next_cursor is Some <==> end < lines.len())
                },
            }
        }),
{
    let start = match cursor {
        None => 0usize,
        Some(c) => match crate::text::parse_usize(&crate::text::to_chars(c)) {
            Some(n) => n,
            None => {
                return None;
            },
        },
    };
    let text = crate::outside::utf8_lossy(content);
    let lines = crate::text::lines(&crate::text::to_chars(text.as_str()));
    if start > lines.len() {
        return None;
    }
    let end = if lines.len() - start > MAX_LOG_LINES_PER_BATCH { start + MAX_LOG_LINES_PER_BATCH } else { lines.len() };
    let mut entries: Vec<String> = Vec::new();
    let mut i: usize = start;
    while i < end
        invariant
            start <= i <= end <= lines@.len(),
            entries@.len() == i - start,
            forall|j: int| 0 <= j < i - start ==> (#[trigger] entries@[j])@ == lines@[start + j]@,
        decreases end - i,
    {
        entries.push(crate::text::string_from(&lines[i]));
        i = i + 1;
    }
    let next_cursor = if end < lines.len() {
        Some(crate::text::string_from(&crate::text::decimal_chars(end as u64)))
    } else {
        None
    };
    Some(RuntimeLogBatch {
        session_id: crate::text::string_of(session_id),
        entries,
        next_cursor,
        truncated: end < lines.len(),
    })
}

/// What the guest's port probe found, from the message of its report.
pub fn port_diagnosis(message: &str) -> (r: Option<&'static str>)
    ensures
        match r {
            Some(d) => d@ == message@ && (message@ == "MENDIMARU_RUNTIME_NOT_LISTENING"@
                || message@ == "MENDIMARU_RUNTIME_FIREWALL_BLOCKED"@ || message@ == "MENDIMARU_RUNTIME_LISTENING"@),
            None => !(message@ == "MENDIMARU_RUNTIME_NOT_LISTENING"@
                || message@ == "MENDIMARU_RUNTIME_FIREWALL_BLOCKED"@ || message@ == "MENDIMARU_RUNTIME_LISTENING"@),
        },
{
    let m = crate::text::to_chars(message);
    if crate::text::equals_str(&m, "MENDIMARU_RUNTIME_NOT_LISTENING") {
        Some("MENDIMARU_RUNTIME_NOT_LISTENING")
    } else if crate::text::equals_str(&m, "MENDIMARU_RUNTIME_FIREWALL_BLOCKED") {
        Some("MENDIMARU_RUNTIME_FIREWALL_BLOCKED")
    } else if crate::text::equals_str(&m, "MENDIMARU_RUNTIME_LISTENING") {
        Some("MENDIMARU_RUNTIME_LISTENING")
    } else {
        None
    }
}

} // verus!
