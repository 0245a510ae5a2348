//! The container that hosts the Windows guest: its runtime state.
use vstd::prelude::*;
use crate::text::{equals_str, to_chars};

verus! {

/// The container state as the container runtime reports it.
#[derive(Debug, Clone, Copy, PartialEq, Eq, Structural)]
pub enum ContainerStatus {
    Created,
    Restarting,
    Running,
    Removing,
    Paused,
    Exited,
    Dead,
    NotFound,
    Unknown,
}

impl ContainerStatus {
    pub open spec fn from_runtime_spec(state: Seq<char>) -> ContainerStatus {
        if state == "created"@ {
            ContainerStatus::Created
        } else if state == "restarting"@ {
            ContainerStatus::Restarting
        } else if state == "running"@ {
            ContainerStatus::Running
        } else if state == "removing"@ {
            ContainerStatus::Removing
        } else if state == "paused"@ {
            ContainerStatus::Paused
        } else if state == "exited"@ {
            ContainerStatus::Exited
        } else if state == "dead"@ {
            ContainerStatus::Dead
        } else {
            ContainerStatus::Unknown
        }
    }

    /// The status for the runtime's `State.Status` text; a state the runtime does not
    /// document is `Unknown`.
    pub fn from_runtime(state: &str) -> (s: ContainerStatus)
        ensures
            s == ContainerStatus::from_runtime_spec(state@),
    {
        let c = to_chars(state);
        if equals_str(&c, "created") {
            ContainerStatus::Created
        } else if equals_str(&c, "restarting") {
            ContainerStatus::Restarting
        } else if equals_str(&c, "running") {
            ContainerStatus::Running
        } else if equals_str(&c, "removing") {
            ContainerStatus::Removing
        } else if equals_str(&c, "paused") {
            ContainerStatus::Paused
        } else if equals_str(&c, "exited") {
            ContainerStatus::Exited
        } else if equals_str(&c, "dead") {
            ContainerStatus::Dead
        } else {
            ContainerStatus::Unknown
        }
    }

    pub fn is_running(self) -> (b: bool)
        ensures
            b == (self == ContainerStatus::Running),
    {
        self == ContainerStatus::Running
    }

    /// The inspection found the container: it is neither missing nor of unknown state.
    pub open spec fn is_present_spec(self) -> bool {
        !(self == ContainerStatus::NotFound || self == ContainerStatus::Unknown)
    }

    pub fn is_present(self) -> (b: bool)
        ensures
            b == self.is_present_spec(),
    {
        !(self == ContainerStatus::NotFound || self == ContainerStatus::Unknown)
    }

    /// Exited, dead or gone: a container in this state will not bring the guest up.
    pub open spec fn is_terminal(self) -> bool {
        self == ContainerStatus::Exited || self == ContainerStatus::Dead || self
            == ContainerStatus::NotFound
    }

    pub open spec fn name_spec(self) -> Seq<char> {
        match self {
            ContainerStatus::Created => "created"@,
            ContainerStatus::Restarting => "restarting"@,
            ContainerStatus::Running => "running"@,
            ContainerStatus::Removing => "removing"@,
            ContainerStatus::Paused => "paused"@,
            ContainerStatus::Exited => "exited"@,
            ContainerStatus::Dead => "dead"@,
            ContainerStatus::NotFound => "not-found"@,
            ContainerStatus::Unknown => "unknown"@,
        }
    }
}

/// The kebab-case name of a container status.
pub fn container_status_name(status: ContainerStatus) -> (r: &'static str)
    ensures
        r@ == status.name_spec(),
{
    match status {
        ContainerStatus::Created => "created",
        ContainerStatus::Restarting => "restarting",
        ContainerStatus::Running => "running",
        ContainerStatus::Removing => "removing",
        ContainerStatus::Paused => "paused",
        ContainerStatus::Exited => "exited",
        ContainerStatus::Dead => "dead",
        ContainerStatus::NotFound => "not-found",
        ContainerStatus::Unknown => "unknown",
    }
}

} // verus!
