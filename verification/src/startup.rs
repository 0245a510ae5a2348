//! One readiness contract for the desktop command, the command line and Studio operations:
//! the startup attempt that is reported while the guest comes up, and the decisions that
//! bring it up.
use vstd::prelude::*;
use crate::container::ContainerStatus;
use crate::contracts::{BackendError, BackendErrorCode, BackendId, CapabilityId};
use crate::text::{chars_equal, push_str, string_from, string_of, to_chars};

verus! {

#[derive(Debug, Clone, Copy, PartialEq, Eq, Structural)]
pub enum StartupPhase {
    StartingContainer,
    WaitingForGuest,
    Online,
    StartupFailed,
}

#[derive(Debug, Clone, PartialEq, Eq)]
pub struct StartupAttempt {
    pub id: u64,
    pub started_at: String,
    pub phase: StartupPhase,
    pub error_code: Option<BackendErrorCode>,
    pub container_status: ContainerStatus,
}

/// The key that ties an attempt to one container: runtime, compose file and container name,
/// joined by NUL characters.
pub open spec fn identity_spec(runtime: Seq<char>, compose_file: Seq<char>, container_name: Seq<char>) -> Seq<char> {
    runtime + seq!['\0'] + compose_file + seq!['\0'] + container_name
}

pub fn identity(runtime: &str, compose_file: &str, container_name: &str) -> (r: String)
    ensures
        r@ == identity_spec(runtime@, compose_file@, container_name@),
{
    let mut out = to_chars(runtime);
    out.push('\0');
    push_str(&mut out, compose_file);
    out.push('\0');
    push_str(&mut out, container_name);
    assert(out@ =~= identity_spec(runtime@, compose_file@, container_name@));
    string_from(&out)
}

/// The latest startup attempt, with the identity of the container it was made for.
pub struct AttemptRegistry {
    current: Option<(String, StartupAttempt)>,
}

impl AttemptRegistry {
    pub closed spec fn current_view(&self) -> Option<(Seq<char>, StartupAttempt)> {
        match self.current {
            Some((key, attempt)) => Some((key@, attempt)),
            None => None,
        }
    }

    pub fn new() -> (r: Self)
        ensures
            r.current_view() is None,
    {
        AttemptRegistry { current: None }
    }

    /// Starts a new attempt for the container `identity`, numbered one above the previous
    /// attempt (saturating), starting its container with an unknown status.
    pub fn begin(&mut self, identity: &str, started_at: &str)
        ensures
            final(self).current_view() matches Some((key, attempt)) && key == identity@ && attempt.id == (match old(self).current_view() {
                Some((_, previous)) => if previous.id == u64::MAX { u64::MAX } else { (previous.id + 1) as u64 },
                None => 1,
            }) && attempt.started_at@ == started_at@ && attempt.phase == StartupPhase::StartingContainer
                && attempt.error_code is None && attempt.container_status == ContainerStatus::Unknown,
    {
        let id = match &self.current {
            Some((_, previous)) => previous.id.saturating_add(1),
            None => 1,
        };
        self.current = Some((
            string_of(identity),
            StartupAttempt {
                id,
                started_at: string_of(started_at),
                phase: StartupPhase::StartingContainer,
                error_code: None,
                container_status: ContainerStatus::Unknown,
            },
        ));
    }

    /// Moves the current attempt, whatever container it is for, to `phase` with `status`
    /// and `code`; nothing happens when there is no attempt.
    pub fn update(&mut self, phase: StartupPhase, status: ContainerStatus, code: Option<BackendErrorCode>)
        ensures
            match old(self).current_view() {
                None => final(self).current_view() is None,
                Some((key, attempt)) => final(self).current_view() == Some((key, StartupAttempt {
                    phase,
                    container_status: status,
                    error_code: code,
                    ..attempt
                })),
            },
    {
        match self.current.take() {
            Some((key, attempt)) => {
                self.current = Some((key, StartupAttempt {
                    id: attempt.id,
                    started_at: attempt.started_at,
                    phase,
                    error_code: code,
                    container_status: status,
                }));
            },
            None => {},
        }
    }

    /// The current attempt when it was made for the container `identity`.
    pub fn snapshot(&self, identity: &str) -> (r: Option<StartupAttempt>)
        ensures
            match self.current_view() {
                Some((key, attempt)) if key == identity@ => r matches Some(a) && a.id == attempt.id
                    && a.started_at@ == attempt.started_at@ && a.phase == attempt.phase
                    && a.error_code == attempt.error_code && a.container_status == attempt.container_status,
                _ => r is None,
            },
    {
        match &self.current {
            Some((key, attempt)) => {
                let k = to_chars(key.as_str());
                let wanted = to_chars(identity);
                if chars_equal(&k, &wanted) {
                    Some(StartupAttempt {
                        id: attempt.id,
                        started_at: string_of(attempt.started_at.as_str()),
                        phase: attempt.phase,
                        error_code: attempt.error_code,
                        container_status: attempt.container_status,
                    })
                } else {
                    None
                }
            },
            None => None,
        }
    }
}

/// The attempt after one readiness decision: the phase it reports, if any, and on failure
/// the failed phase with the failure's code, keeping the container status the attempt
/// shows for `identity` (unknown when the attempt is for another container).
pub open spec fn applied_attempt(attempt: StartupAttempt, same_container: bool, step: ReadinessStep) -> StartupAttempt {
    let reported = match step.phase {
        Some((phase, status)) => StartupAttempt { phase, container_status: status, error_code: None, ..attempt },
        None => attempt,
    };
    match step.action {
        ReadinessAction::Fail(code) => StartupAttempt {
            phase: StartupPhase::StartupFailed,
            container_status: if same_container { reported.container_status } else { ContainerStatus::Unknown },
            error_code: Some(code),
            ..reported
        },
        _ => reported,
    }
}

impl AttemptRegistry {
    /// Applies one readiness decision of the startup for the container `identity` to the
    /// current attempt: the phase it reports, and, when the startup failed, the failure.
    pub fn apply(&mut self, identity: &str, step: ReadinessStep)
        ensures
            match old(self).current_view() {
                None => final(self).current_view() is None,
                Some((key, attempt)) => final(self).current_view()
                    == Some((key, applied_attempt(attempt, key == identity@, step))),
            },
    {
        match step.phase {
            Some((phase, status)) => self.update(phase, status, None),
            None => {},
        }
        match step.action {
            ReadinessAction::Fail(code) => {
                let status = match self.snapshot(identity) {
                    Some(attempt) => attempt.container_status,
                    None => ContainerStatus::Unknown,
                };
                self.update(StartupPhase::StartupFailed, status, Some(code));
            },
            _ => {},
        }
    }
}

/// The first look's states hold the status it found, which was running.
pub open spec fn state_consistent(state: ReadinessState) -> bool {
    match state {
        ReadinessState::InitialHealth { initial } => initial == ContainerStatus::Running,
        ReadinessState::InitialConfirm { initial } => initial == ContainerStatus::Running,
        _ => true,
    }
}

/// Every readiness decision keeps the states consistent, from the first one on.
pub proof fn lemma_readiness_stays_consistent(state: ReadinessState, event: ReadinessEvent)
    requires
        state_consistent(state),
        expects(state, event),
    ensures
        state_consistent(ReadinessState::Begin),
        state_consistent(readiness_step(state, event).0),
{
}

/// A startup that succeeds leaves its attempt online with a running container and no error;
/// one that fails leaves it failed with the failure's code; the attempt keeps its number.
pub proof fn lemma_finished_startup_is_recorded(state: ReadinessState, event: ReadinessEvent, attempt: StartupAttempt, same_container: bool)
    requires
        state_consistent(state),
        expects(state, event),
    ensures
        ({
            let step = readiness_step(state, event).1;
            let after = applied_attempt(attempt, same_container, step);
            &&& after.id == attempt.id
            &&& step.action == ReadinessAction::Succeed ==> after.phase == StartupPhase::Online
                && after.error_code is None && after.container_status == ContainerStatus::Running
            &&& (step.action matches ReadinessAction::Fail(code) ==> after.phase == StartupPhase::StartupFailed
                && after.error_code == Some(code))
        }),
{
}

/// The current startup attempt for the container `identity`, if the registry holds one.
pub fn snapshot(registry: &AttemptRegistry, identity: &str) -> (r: Option<StartupAttempt>)
    ensures
        match registry.current_view() {
            Some((key, attempt)) if key == identity@ => r matches Some(a) && a.id == attempt.id
                && a.started_at@ == attempt.started_at@ && a.phase == attempt.phase
                && a.error_code == attempt.error_code && a.container_status == attempt.container_status,
            _ => r is None,
        },
{
    registry.snapshot(identity)
}

/// The message key for a startup failure code.
pub open spec fn failure_message(code: BackendErrorCode) -> Seq<char> {
    if code == BackendErrorCode::ContainerExitedDuringStartup {
        "error-container-exited-during-startup"@
    } else if code == BackendErrorCode::GuestStartupTimeout {
        "error-guest-startup-timeout"@
    } else {
        "error-startup-command-failed"@
    }
}

/// The retryable error a failed startup is reported with.
pub fn failure(code: BackendErrorCode) -> (e: BackendError)
    ensures
        e.code == code,
        e.retryable,
        e.message@ == failure_message(code),
        e.backend == Some(BackendId::LinuxWinboat),
        e.capability == Some(CapabilityId::StudioDetect),
{
    let message = if code == BackendErrorCode::ContainerExitedDuringStartup {
        "error-container-exited-during-startup"
    } else if code == BackendErrorCode::GuestStartupTimeout {
        "error-guest-startup-timeout"
    } else {
        "error-startup-command-failed"
    };
    let mut error = BackendError::operation(BackendId::LinuxWinboat, CapabilityId::StudioDetect, message);
    error.code = code;
    error.retryable = true;
    error
}


/// Where bringing the guest up stands.
#[derive(Debug, Clone, Copy, PartialEq, Eq, Structural)]
pub enum ReadinessState {
    /// Nothing done yet; the deadline is checked first.
    Begin,
    /// Waiting for the first inspection.
    InitialInspect,
    /// The container was running; waiting for the guest's health.
    InitialHealth { initial: ContainerStatus },
    /// Healthy; waiting for the inspection that confirms the container still runs.
    InitialConfirm { initial: ContainerStatus },
    /// The container is being started.
    Starting { initial: ContainerStatus },
    /// Polling: the deadline is checked.
    LoopDeadline,
    /// Polling: waiting for the inspection.
    LoopInspect,
    /// Polling: waiting for the guest's health.
    LoopHealth,
    /// Polling: healthy, waiting for the confirming inspection.
    LoopConfirm,
    /// Polling: pausing before the next round.
    LoopSleep,
    /// Finished, with success or failure.
    Done,
}

/// What the caller observed for the action it was asked to perform.
#[derive(Debug, Clone, Copy, PartialEq, Eq, Structural)]
pub enum ReadinessEvent {
    DeadlineChecked { expired: bool },
    Inspected(ContainerStatus),
    Health(bool),
    Started,
    Slept,
}

/// What the caller must do next.
#[derive(Debug, Clone, Copy, PartialEq, Eq, Structural)]
pub enum ReadinessAction {
    /// Check whether the deadline has passed.
    CheckDeadline,
    /// Inspect the container.
    Inspect,
    /// Ask the guest API for its health.
    Health,
    /// Start the container.
    Start,
    /// Pause for the rest of the second, or report the deadline when none is left.
    Sleep,
    /// The guest is online.
    Succeed,
    /// Startup failed with this code.
    Fail(BackendErrorCode),
}

/// One decision: the phase to report, if it changes, and the next action.
#[derive(Debug, Clone, Copy, PartialEq, Eq)]
pub struct ReadinessStep {
    pub phase: Option<(StartupPhase, ContainerStatus)>,
    pub action: ReadinessAction,
}

/// Whether `event` answers the action that `state` waits for.
pub open spec fn expects(state: ReadinessState, event: ReadinessEvent) -> bool {
    match state {
        ReadinessState::Begin | ReadinessState::LoopDeadline => event is DeadlineChecked,
        ReadinessState::InitialInspect | ReadinessState::InitialConfirm { .. }
        | ReadinessState::LoopInspect | ReadinessState::LoopConfirm => event is Inspected,
        ReadinessState::InitialHealth { .. } | ReadinessState::LoopHealth => event is Health,
        ReadinessState::Starting { .. } => event is Started,
        ReadinessState::LoopSleep => event is Slept || event == (ReadinessEvent::DeadlineChecked { expired: true }),
        ReadinessState::Done => false,
    }
}

/// The way forward once the first look did not find an online guest: start the container
/// unless it is running or restarting, then poll.
pub open spec fn after_initial(initial: ContainerStatus) -> (ReadinessState, ReadinessStep) {
    if initial != ContainerStatus::Running && initial != ContainerStatus::Restarting {
        (
            ReadinessState::Starting { initial },
            ReadinessStep { phase: Some((StartupPhase::StartingContainer, initial)), action: ReadinessAction::Start },
        )
    } else {
        (
            ReadinessState::LoopDeadline,
            ReadinessStep { phase: Some((StartupPhase::WaitingForGuest, initial)), action: ReadinessAction::CheckDeadline },
        )
    }
}

pub open spec fn fail_step(code: BackendErrorCode) -> (ReadinessState, ReadinessStep) {
    (ReadinessState::Done, ReadinessStep { phase: None, action: ReadinessAction::Fail(code) })
}

pub open spec fn go(state: ReadinessState, action: ReadinessAction) -> (ReadinessState, ReadinessStep) {
    (state, ReadinessStep { phase: None, action })
}

/// The readiness decision for `event` in `state`.
pub open spec fn readiness_step(state: ReadinessState, event: ReadinessEvent) -> (ReadinessState, ReadinessStep) {
    match (state, event) {
        (ReadinessState::Begin, ReadinessEvent::DeadlineChecked { expired }) => if expired {
            fail_step(BackendErrorCode::GuestStartupTimeout)
        } else {
            go(ReadinessState::InitialInspect, ReadinessAction::Inspect)
        },
        (ReadinessState::InitialInspect, ReadinessEvent::Inspected(initial)) => if initial == ContainerStatus::Running {
            go(ReadinessState::InitialHealth { initial }, ReadinessAction::Health)
        } else {
            after_initial(initial)
        },
        (ReadinessState::InitialHealth { initial }, ReadinessEvent::Health(healthy)) => if healthy {
            go(ReadinessState::InitialConfirm { initial }, ReadinessAction::Inspect)
        } else {
            after_initial(initial)
        },
        (ReadinessState::InitialConfirm { initial }, ReadinessEvent::Inspected(latest)) => if latest == ContainerStatus::Running {
            (ReadinessState::Done, ReadinessStep { phase: Some((StartupPhase::Online, initial)), action: ReadinessAction::Succeed })
        } else {
            after_initial(initial)
        },
        (ReadinessState::Starting { initial }, ReadinessEvent::Started) => (
            ReadinessState::LoopDeadline,
            ReadinessStep { phase: Some((StartupPhase::WaitingForGuest, initial)), action: ReadinessAction::CheckDeadline },
        ),
        (ReadinessState::LoopDeadline, ReadinessEvent::DeadlineChecked { expired }) => if expired {
            fail_step(BackendErrorCode::GuestStartupTimeout)
        } else {
            go(ReadinessState::LoopInspect, ReadinessAction::Inspect)
        },
        (ReadinessState::LoopInspect, ReadinessEvent::Inspected(status)) => if status.is_terminal() {
            (ReadinessState::Done, ReadinessStep {
                phase: Some((StartupPhase::WaitingForGuest, status)),
                action: ReadinessAction::Fail(BackendErrorCode::ContainerExitedDuringStartup),
            })
        } else if status == ContainerStatus::Running {
            (ReadinessState::LoopHealth, ReadinessStep { phase: Some((StartupPhase::WaitingForGuest, status)), action: ReadinessAction::Health })
        } else {
            (ReadinessState::LoopSleep, ReadinessStep { phase: Some((StartupPhase::WaitingForGuest, status)), action: ReadinessAction::Sleep })
        },
        (ReadinessState::LoopHealth, ReadinessEvent::Health(healthy)) => if healthy {
            go(ReadinessState::LoopConfirm, ReadinessAction::Inspect)
        } else {
            go(ReadinessState::LoopSleep, ReadinessAction::Sleep)
        },
        (ReadinessState::LoopConfirm, ReadinessEvent::Inspected(latest)) => if latest == ContainerStatus::Running {
            (ReadinessState::Done, ReadinessStep { phase: Some((StartupPhase::Online, latest)), action: ReadinessAction::Succeed })
        } else if latest.is_terminal() {
            (ReadinessState::Done, ReadinessStep {
                phase: Some((StartupPhase::WaitingForGuest, latest)),
                action: ReadinessAction::Fail(BackendErrorCode::ContainerExitedDuringStartup),
            })
        } else {
            go(ReadinessState::LoopSleep, ReadinessAction::Sleep)
        },
        (ReadinessState::LoopSleep, ReadinessEvent::Slept) => go(ReadinessState::LoopDeadline, ReadinessAction::CheckDeadline),
        (ReadinessState::LoopSleep, ReadinessEvent::DeadlineChecked { .. }) => fail_step(BackendErrorCode::GuestStartupTimeout),
        _ => fail_step(BackendErrorCode::OperationFailed),
    }
}

fn after_initial_exec(initial: ContainerStatus) -> (r: (ReadinessState, ReadinessStep))
    ensures
        r == after_initial(initial),
{
    if initial != ContainerStatus::Running && initial != ContainerStatus::Restarting {
        (
            ReadinessState::Starting { initial },
            ReadinessStep { phase: Some((StartupPhase::StartingContainer, initial)), action: ReadinessAction::Start },
        )
    } else {
        (
            ReadinessState::LoopDeadline,
            ReadinessStep { phase: Some((StartupPhase::WaitingForGuest, initial)), action: ReadinessAction::CheckDeadline },
        )
    }
}

fn terminal(status: ContainerStatus) -> (b: bool)
    ensures
        b == status.is_terminal(),
{
    status == ContainerStatus::Exited || status == ContainerStatus::Dead || status == ContainerStatus::NotFound
}

/// Brings the guest up one decision at a time: the caller performs each action, reports
/// what it saw, and applies each reported phase to the attempt registry.
pub struct Readiness {
    state: ReadinessState,
}

impl Readiness {
    pub closed spec fn state_view(&self) -> ReadinessState {
        self.state
    }

    /// A fresh readiness run and its first step: check the deadline.
    pub fn new() -> (r: (Self, ReadinessStep))
        ensures
            r.0.state_view() == ReadinessState::Begin,
            r.1 == (ReadinessStep { phase: None, action: ReadinessAction::CheckDeadline }),
    {
        (Readiness { state: ReadinessState::Begin }, ReadinessStep { phase: None, action: ReadinessAction::CheckDeadline })
    }

    /// Takes the caller's observation and decides the next step.
    pub fn step(&mut self, event: ReadinessEvent) -> (r: ReadinessStep)
        requires
            expects(old(self).state_view(), event),
        ensures
            (final(self).state_view(), r) == readiness_step(old(self).state_view(), event),
    {
        let (next, step) = match (self.state, event) {
            (ReadinessState::Begin, ReadinessEvent::DeadlineChecked { expired }) => if expired {
                (ReadinessState::Done, ReadinessStep { phase: None, action: ReadinessAction::Fail(BackendErrorCode::GuestStartupTimeout) })
            } else {
                (ReadinessState::InitialInspect, ReadinessStep { phase: None, action: ReadinessAction::Inspect })
            },
            (ReadinessState::InitialInspect, ReadinessEvent::Inspected(initial)) => if initial == ContainerStatus::Running {
                (ReadinessState::InitialHealth { initial }, ReadinessStep { phase: None, action: ReadinessAction::Health })
            } else {
                after_initial_exec(initial)
            },
            (ReadinessState::InitialHealth { initial }, ReadinessEvent::Health(healthy)) => if healthy {
                (ReadinessState::InitialConfirm { initial }, ReadinessStep { phase: None, action: ReadinessAction::Inspect })
            } else {
                after_initial_exec(initial)
            },
            (ReadinessState::InitialConfirm { initial }, ReadinessEvent::Inspected(latest)) => if latest == ContainerStatus::Running {
                (ReadinessState::Done, ReadinessStep { phase: Some((StartupPhase::Online, initial)), action: ReadinessAction::Succeed })
            } else {
                after_initial_exec(initial)
            },
            (ReadinessState::Starting { initial }, ReadinessEvent::Started) => (
                ReadinessState::LoopDeadline,
                ReadinessStep { phase: Some((StartupPhase::WaitingForGuest, initial)), action: ReadinessAction::CheckDeadline },
            ),
            (ReadinessState::LoopDeadline, ReadinessEvent::DeadlineChecked { expired }) => if expired {
                (ReadinessState::Done, ReadinessStep { phase: None, action: ReadinessAction::Fail(BackendErrorCode::GuestStartupTimeout) })
            } else {
                (ReadinessState::LoopInspect, ReadinessStep { phase: None, action: ReadinessAction::Inspect })
            },
            (ReadinessState::LoopInspect, ReadinessEvent::Inspected(status)) => if terminal(status) {
                (ReadinessState::Done, ReadinessStep {
                    phase: Some((StartupPhase::WaitingForGuest, status)),
                    action: ReadinessAction::Fail(BackendErrorCode::ContainerExitedDuringStartup),
                })
            } else if status == ContainerStatus::Running {
                (ReadinessState::LoopHealth, ReadinessStep { phase: Some((StartupPhase::WaitingForGuest, status)), action: ReadinessAction::Health })
            } else {
                (ReadinessState::LoopSleep, ReadinessStep { phase: Some((StartupPhase::WaitingForGuest, status)), action: ReadinessAction::Sleep })
            },
            (ReadinessState::LoopHealth, ReadinessEvent::Health(healthy)) => if healthy {
                (ReadinessState::LoopConfirm, ReadinessStep { phase: None, action: ReadinessAction::Inspect })
            } else {
                (ReadinessState::LoopSleep, ReadinessStep { phase: None, action: ReadinessAction::Sleep })
            },
            (ReadinessState::LoopConfirm, ReadinessEvent::Inspected(latest)) => if latest == ContainerStatus::Running {
                (ReadinessState::Done, ReadinessStep { phase: Some((StartupPhase::Online, latest)), action: ReadinessAction::Succeed })
            } else if terminal(latest) {
                (ReadinessState::Done, ReadinessStep {
                    phase: Some((StartupPhase::WaitingForGuest, latest)),
                    action: ReadinessAction::Fail(BackendErrorCode::ContainerExitedDuringStartup),
                })
            } else {
                (ReadinessState::LoopSleep, ReadinessStep { phase: None, action: ReadinessAction::Sleep })
            },
            (ReadinessState::LoopSleep, ReadinessEvent::Slept) => (
                ReadinessState::LoopDeadline,
                ReadinessStep { phase: None, action: ReadinessAction::CheckDeadline },
            ),
            (ReadinessState::LoopSleep, ReadinessEvent::DeadlineChecked { .. }) => (
                ReadinessState::Done,
                ReadinessStep { phase: None, action: ReadinessAction::Fail(BackendErrorCode::GuestStartupTimeout) },
            ),
            _ => (ReadinessState::Done, ReadinessStep { phase: None, action: ReadinessAction::Fail(BackendErrorCode::OperationFailed) }),
        };
        self.state = next;
        step
    }
}

/// Health is the only way to success: the guest is declared online only by a running
/// container inspected right after a healthy answer.
pub proof fn lemma_success_needs_health(state: ReadinessState, event: ReadinessEvent)
    requires
        readiness_step(state, event).1.action == ReadinessAction::Succeed,
    ensures
        event == ReadinessEvent::Inspected(ContainerStatus::Running),
        state is InitialConfirm || state is LoopConfirm,
{
}

/// The confirming states are entered only from a healthy answer.
pub proof fn lemma_confirm_after_health(state: ReadinessState, event: ReadinessEvent)
    requires
        readiness_step(state, event).0 is InitialConfirm || readiness_step(state, event).0 is LoopConfirm,
    ensures
        event == ReadinessEvent::Health(true),
{
}

/// The container is started only when it was found neither running nor restarting.
pub proof fn lemma_start_only_when_stopped(state: ReadinessState, event: ReadinessEvent)
    requires
        readiness_step(state, event).1.action == ReadinessAction::Start,
    ensures
        readiness_step(state, event).1.phase matches Some((phase, status)) && phase == StartupPhase::StartingContainer
            && status != ContainerStatus::Running && status != ContainerStatus::Restarting,
{
}

/// While waiting for the guest, an exited, dead or missing container fails the startup at
/// once instead of waiting for the deadline.
pub proof fn lemma_terminal_fails_at_once(status: ContainerStatus)
    requires
        status.is_terminal(),
    ensures
        readiness_step(ReadinessState::LoopInspect, ReadinessEvent::Inspected(status)).1.action
            == ReadinessAction::Fail(BackendErrorCode::ContainerExitedDuringStartup),
{
}

/// A passed deadline fails the startup with its own timeout code.
pub proof fn lemma_deadline_is_a_distinct_timeout(state: ReadinessState)
    requires
        state is Begin || state is LoopDeadline || state is LoopSleep,
    ensures
        readiness_step(state, ReadinessEvent::DeadlineChecked { expired: true }).1.action
            == ReadinessAction::Fail(BackendErrorCode::GuestStartupTimeout),
{
}

} // verus!
