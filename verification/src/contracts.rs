//! The backend contract shared by every capability: error codes, capability and backend
//! identities, and the error record a failed request is answered with.
use vstd::prelude::*;
use crate::outside::random_16;
use crate::security::{hex_encode, hex_encode_spec};
use crate::text::{equals_str, push_all, string_from, string_of, to_chars};

verus! {

/// The schema version that error records are written with.
pub const CONTRACT_SCHEMA_VERSION: &'static str = "5.0.0";

#[derive(Debug, Clone, Copy, PartialEq, Eq, Structural)]
pub enum BackendId {
    LinuxWinboat,
}

#[derive(Debug, Clone, Copy, PartialEq, Eq, Structural)]
pub enum CapabilityId {
    UiCapabilities,
    UiTree,
    UiFind,
    UiAction,
    UiWait,
    UiScreenshot,
    RuntimeStart,
    RuntimeStop,
    RuntimeStatus,
    RuntimeLogs,
    RuntimeUrl,
    RuntimeWait,
    StudioDetect,
}

impl CapabilityId {
    /// The capability's wire name.
    pub open spec fn name_spec(self) -> Seq<char> {
        match self {
            CapabilityId::UiCapabilities => "ui.capabilities"@,
            CapabilityId::UiTree => "ui.tree"@,
            CapabilityId::UiFind => "ui.find"@,
            CapabilityId::UiAction => "ui.action"@,
            CapabilityId::UiWait => "ui.wait"@,
            CapabilityId::UiScreenshot => "ui.screenshot"@,
            CapabilityId::RuntimeStart => "runtime.start"@,
            CapabilityId::RuntimeStop => "runtime.stop"@,
            CapabilityId::RuntimeStatus => "runtime.status"@,
            CapabilityId::RuntimeLogs => "runtime.logs"@,
            CapabilityId::RuntimeUrl => "runtime.url"@,
            CapabilityId::RuntimeWait => "runtime.wait"@,
            CapabilityId::StudioDetect => "studio.detect"@,
        }
    }

    pub fn as_str(self) -> (r: &'static str)
        ensures
            r@ == self.name_spec(),
    {
        match self {
            CapabilityId::UiCapabilities => "ui.capabilities",
            CapabilityId::UiTree => "ui.tree",
            CapabilityId::UiFind => "ui.find",
            CapabilityId::UiAction => "ui.action",
            CapabilityId::UiWait => "ui.wait",
            CapabilityId::UiScreenshot => "ui.screenshot",
            CapabilityId::RuntimeStart => "runtime.start",
            CapabilityId::RuntimeStop => "runtime.stop",
            CapabilityId::RuntimeStatus => "runtime.status",
            CapabilityId::RuntimeLogs => "runtime.logs",
            CapabilityId::RuntimeUrl => "runtime.url",
            CapabilityId::RuntimeWait => "runtime.wait",
            CapabilityId::StudioDetect => "studio.detect",
        }
    }
}

/// The actions a UI request can perform on an element.
#[derive(Debug, Clone, Copy, PartialEq, Eq, Structural)]
pub enum UiActionKind {
    Invoke,
    Click,
    SetValue,
    Focus,
    KeyboardInput,
}

#[derive(Debug, Clone, Copy, PartialEq, Eq, Structural)]
pub enum BackendErrorCode {
    InvalidRequest,
    UnsupportedCapability,
    PreconditionFailed,
    OperationFailed,
    ExternalProcessTimeout,
    ExternalProcessCancelled,
    ExternalProcessInterrupted,
    ContainerExitedDuringStartup,
    GuestStartupTimeout,
    QemuBootTimeout,
    RuntimeComposeRecoveryFailed,
    RuntimeExited,
    RuntimeFirewallBlocked,
    RuntimeGuestOffline,
    RuntimeInitializationFailed,
    RuntimeNotListening,
    RuntimePortConflict,
    RuntimePortForwardingInvalid,
    RuntimeReadinessTimeout,
    RuntimeSessionNotFound,
}

impl BackendErrorCode {
    /// The code's snake-case wire name.
    pub open spec fn name_spec(self) -> Seq<char> {
        match self {
            BackendErrorCode::InvalidRequest => "invalid_request"@,
            BackendErrorCode::UnsupportedCapability => "unsupported_capability"@,
            BackendErrorCode::PreconditionFailed => "precondition_failed"@,
            BackendErrorCode::OperationFailed => "operation_failed"@,
            BackendErrorCode::ExternalProcessTimeout => "external_process_timeout"@,
            BackendErrorCode::ExternalProcessCancelled => "external_process_cancelled"@,
            BackendErrorCode::ExternalProcessInterrupted => "external_process_interrupted"@,
            BackendErrorCode::ContainerExitedDuringStartup => "container_exited_during_startup"@,
            BackendErrorCode::GuestStartupTimeout => "guest_startup_timeout"@,
            BackendErrorCode::QemuBootTimeout => "qemu_boot_timeout"@,
            BackendErrorCode::RuntimeComposeRecoveryFailed => "runtime_compose_recovery_failed"@,
            BackendErrorCode::RuntimeExited => "runtime_exited"@,
            BackendErrorCode::RuntimeFirewallBlocked => "runtime_firewall_blocked"@,
            BackendErrorCode::RuntimeGuestOffline => "runtime_guest_offline"@,
            BackendErrorCode::RuntimeInitializationFailed => "runtime_initialization_failed"@,
            BackendErrorCode::RuntimeNotListening => "runtime_not_listening"@,
            BackendErrorCode::RuntimePortConflict => "runtime_port_conflict"@,
            BackendErrorCode::RuntimePortForwardingInvalid => "runtime_port_forwarding_invalid"@,
            BackendErrorCode::RuntimeReadinessTimeout => "runtime_readiness_timeout"@,
            BackendErrorCode::RuntimeSessionNotFound => "runtime_session_not_found"@,
        }
    }

    pub fn as_str(self) -> (r: &'static str)
        ensures
            r@ == self.name_spec(),
    {
        match self {
            BackendErrorCode::InvalidRequest => "invalid_request",
            BackendErrorCode::UnsupportedCapability => "unsupported_capability",
            BackendErrorCode::PreconditionFailed => "precondition_failed",
            BackendErrorCode::OperationFailed => "operation_failed",
            BackendErrorCode::ExternalProcessTimeout => "external_process_timeout",
            BackendErrorCode::ExternalProcessCancelled => "external_process_cancelled",
            BackendErrorCode::ExternalProcessInterrupted => "external_process_interrupted",
            BackendErrorCode::ContainerExitedDuringStartup => "container_exited_during_startup",
            BackendErrorCode::GuestStartupTimeout => "guest_startup_timeout",
            BackendErrorCode::QemuBootTimeout => "qemu_boot_timeout",
            BackendErrorCode::RuntimeComposeRecoveryFailed => "runtime_compose_recovery_failed",
            BackendErrorCode::RuntimeExited => "runtime_exited",
            BackendErrorCode::RuntimeFirewallBlocked => "runtime_firewall_blocked",
            BackendErrorCode::RuntimeGuestOffline => "runtime_guest_offline",
            BackendErrorCode::RuntimeInitializationFailed => "runtime_initialization_failed",
            BackendErrorCode::RuntimeNotListening => "runtime_not_listening",
            BackendErrorCode::RuntimePortConflict => "runtime_port_conflict",
            BackendErrorCode::RuntimePortForwardingInvalid => "runtime_port_forwarding_invalid",
            BackendErrorCode::RuntimeReadinessTimeout => "runtime_readiness_timeout",
            BackendErrorCode::RuntimeSessionNotFound => "runtime_session_not_found",
        }
    }
}

/// The error record that a failed backend request is answered with.
#[derive(Debug, Clone, PartialEq, Eq)]
pub struct BackendError {
    pub schema_version: String,
    pub code: BackendErrorCode,
    pub message: String,
    pub backend: Option<BackendId>,
    pub capability: Option<CapabilityId>,
    pub reason: Option<String>,
    pub retryable: bool,
    pub diagnostic_ref: Option<String>,
}

impl BackendError {
    /// A failed operation of `capability` on `backend`, described by the fixed `reason`.
    pub fn operation(backend: BackendId, capability: CapabilityId, reason: &str) -> (e: Self)
        ensures
            e.schema_version@ == CONTRACT_SCHEMA_VERSION@,
            e.code == BackendErrorCode::OperationFailed,
            e.message@ == reason@,
            e.backend == Some(backend),
            e.capability == Some(capability),
            e.reason matches Some(r) && r@ == reason@,
            !e.retryable,
            e.diagnostic_ref is None,
    {
        BackendError {
            schema_version: string_of(CONTRACT_SCHEMA_VERSION),
            code: BackendErrorCode::OperationFailed,
            message: string_of(reason),
            backend: Some(backend),
            capability: Some(capability),
            reason: Some(string_of(reason)),
            retryable: false,
            diagnostic_ref: None,
        }
    }

    /// A request refused before any work, with `message`.
    pub fn invalid_request(message: &str) -> (e: Self)
        ensures
            e.schema_version@ == CONTRACT_SCHEMA_VERSION@,
            e.code == BackendErrorCode::InvalidRequest,
            e.message@ == message@,
            e.backend is None,
            e.capability is None,
            e.reason is None,
            !e.retryable,
            e.diagnostic_ref is None,
    {
        BackendError {
            schema_version: string_of(CONTRACT_SCHEMA_VERSION),
            code: BackendErrorCode::InvalidRequest,
            message: string_of(message),
            backend: None,
            capability: None,
            reason: None,
            retryable: false,
            diagnostic_ref: None,
        }
    }
}

/// The record schema versions this release still reads: its own and the one before.
pub open spec fn compatible_record_schema_spec(version: Seq<char>) -> bool {
    version == "4.0.0"@ || version == "5.0.0"@
}

pub fn compatible_record_schema(version: &str) -> (r: bool)
    ensures
        r == compatible_record_schema_spec(version@),
{
    let chars = to_chars(version);
    equals_str(&chars, "4.0.0") || equals_str(&chars, "5.0.0")
}


/// The identifier made of the given bytes: the prefix, `_`, and the bytes in lower-case
/// hexadecimal.
pub fn identifier_from(prefix: &str, bytes: [u8; 16]) -> (id: String)
    ensures
        id@ == prefix@ + seq!['_'] + hex_encode_spec(bytes@),
{
    let hex = hex_encode(&bytes);
    let mut out = to_chars(prefix);
    out.push('_');
    push_all(&mut out, &hex);
    assert(out@ =~= prefix@ + seq!['_'] + hex_encode_spec(bytes@));
    string_from(&out)
}

/// An identifier for one job or session: the prefix, `_`, and 16 random bytes in
/// lower-case hexadecimal. It fails only when the operating system's random source does.
pub fn secure_identifier(prefix: &str) -> (r: Result<String, String>)
    ensures
        r matches Ok(id) ==> exists|bytes: Seq<u8>|
            bytes.len() == 16 && id@ == prefix@ + seq!['_'] + #[trigger] hex_encode_spec(bytes),
        r matches Err(e) ==> e@ == "the operating system random source failed"@,
{
    let bytes = match random_16() {
        Some(bytes) => bytes,
        None => {
            return Err(string_of("the operating system random source failed"));
        },
    };
    let id = identifier_from(prefix, bytes);
    assert(id@ == prefix@ + seq!['_'] + hex_encode_spec(bytes@));
    Ok(id)
}

} // verus!
