//! Service registry operations against the Service Control Manager (SCM).
//!
//! Each operation is a small machine: it emits the next SCM call to make
//! (an [`ScmAction`]) and consumes the observed answer (an [`ScmEvent`]),
//! until it is done.  The surrounding binary owns the OS handles and runs
//! the loop: perform the action, hand back the event.  Every decision —
//! which call comes next, when to stop polling, which error to return — is
//! made and verified here.

use vstd::prelude::*;
use crate::lifecycle::ServiceState;

verus! {

/// How long `uninstall` polls for confirmed removal before reporting
/// success anyway.
pub const UNINSTALL_TIMEOUT_MS: u64 = 5000;

/// Pause between two removal polls during `uninstall`.
pub const UNINSTALL_POLL_INTERVAL_MS: u64 = 1000;

/// How long `stop` waits after issuing a stop request.
pub const STOP_WAIT_MS: u64 = 5000;

/// Pause between two status polls while `change_config` waits for the
/// service to stop.
pub const CHANGE_CONFIG_POLL_INTERVAL_MS: u64 = 250;

/// Persisted start configuration of a service.
#[derive(Clone, Copy, PartialEq, Eq, Structural, Debug)]
pub enum StartType {
    BootStart,
    SystemStart,
    AutoStart,
    OnDemand,
    Disabled,
}

/// What kind of program the service runs as.
#[derive(Clone, Copy, PartialEq, Eq, Structural, Debug)]
pub enum ServiceKind {
    OwnProcess,
    ShareProcess,
    KernelDriver,
    FileSystemDriver,
}

/// How the OS treats a failure of the service at boot.
#[derive(Clone, Copy, PartialEq, Eq, Structural, Debug)]
pub enum ErrorControl {
    Ignore,
    Normal,
    Severe,
    Critical,
}

/// A service's configuration as the SCM reports it.  The stored executable
/// path is a full command line and may embed launch arguments.
#[derive(Clone, Debug)]
pub struct ServiceConfigModel {
    pub service_type: ServiceKind,
    pub start_type: StartType,
    pub error_control: ErrorControl,
    pub executable_path: Vec<char>,
    pub display_name: Vec<char>,
    pub dependencies: Vec<Vec<char>>,
    pub account_name: Option<Vec<char>>,
}

/// A service's configuration as handed to the SCM when installing or
/// reconfiguring.
#[derive(Clone, Debug)]
pub struct ServiceInfoModel {
    pub name: Vec<char>,
    pub display_name: Vec<char>,
    pub service_type: ServiceKind,
    pub start_type: StartType,
    pub error_control: ErrorControl,
    pub executable_path: Vec<char>,
    pub launch_arguments: Vec<Vec<char>>,
    pub dependencies: Vec<Vec<char>>,
    pub account_name: Option<Vec<char>>,
    pub account_password: Option<Vec<char>>,
}

/// Errors the registry operations return.
#[derive(Clone, Copy, PartialEq, Eq, Structural, Debug)]
pub enum ServiceError {
    /// The named service is not installed.
    DoesNotExist,
    /// The named service is already installed.
    AlreadyExists,
    /// Connecting to the service manager failed.
    ConnectFailed,
    /// Opening a handle to the service failed.
    OpenFailed,
    /// Querying the service's status failed.
    QueryStatusFailed,
    /// Creating the service failed.
    CreateFailed,
    /// Starting the service failed.
    StartFailed,
    /// Querying the service's configuration failed.
    QueryConfigFailed,
    /// Rewriting the service's configuration failed.
    ChangeConfigFailed,
}

/// The next SCM call an operation asks its driver to make.
#[derive(Clone, Copy, PartialEq, Eq, Structural, Debug)]
pub enum ScmAction {
    /// Ask whether the service is installed.
    CheckExists,
    /// Connect to the service manager.
    Connect,
    /// Open a handle to the service.
    OpenService,
    /// Query the service's current state.
    QueryStatus,
    /// Request that the service stop (best effort).
    IssueStop,
    /// Request that the service be deleted (best effort).
    IssueDelete,
    /// Ask whether the service is gone from the registry.
    PollRemoved,
    /// Sleep for the given number of milliseconds.
    Sleep(u64),
    /// Write the new configuration.
    ApplyConfig,
    /// Request that the service start.
    IssueStart,
    /// Create the service from the given configuration.
    CreateService,
    /// Read the service's configuration.
    QueryConfig,
}

/// What the driver observed when performing the requested action.
#[derive(Clone, Debug)]
pub enum ScmEvent {
    Exists(bool),
    Connected(bool),
    Opened(bool),
    /// The queried state, or `None` if the query failed.
    Status(Option<ServiceState>),
    StopIssued(bool),
    DeleteIssued(bool),
    /// Whether the service is gone from the registry.
    Removed(bool),
    Slept,
    ConfigApplied(bool),
    StartIssued(bool),
    Created(bool),
    /// The queried configuration, or `None` if the query failed.
    Config(Option<ServiceConfigModel>),
}

/// Whether an observed event is the answer to the requested action.
pub open spec fn event_answers(a: ScmAction, ev: ScmEvent) -> bool {
    match (a, ev) {
        (ScmAction::CheckExists, ScmEvent::Exists(_)) => true,
        (ScmAction::Connect, ScmEvent::Connected(_)) => true,
        (ScmAction::OpenService, ScmEvent::Opened(_)) => true,
        (ScmAction::QueryStatus, ScmEvent::Status(_)) => true,
        (ScmAction::IssueStop, ScmEvent::StopIssued(_)) => true,
        (ScmAction::IssueDelete, ScmEvent::DeleteIssued(_)) => true,
        (ScmAction::PollRemoved, ScmEvent::Removed(_)) => true,
        (ScmAction::Sleep(_), ScmEvent::Slept) => true,
        (ScmAction::ApplyConfig, ScmEvent::ConfigApplied(_)) => true,
        (ScmAction::IssueStart, ScmEvent::StartIssued(_)) => true,
        (ScmAction::CreateService, ScmEvent::Created(_)) => true,
        (ScmAction::QueryConfig, ScmEvent::Config(_)) => true,
        _ => false,
    }
}

/// What an operation hands back after a step: the next call to make, or its
/// result.
#[derive(Clone, Copy, PartialEq, Eq, Debug)]
pub enum FlowNext {
    Do(ScmAction),
    Done(Result<(), ServiceError>),
}

// ---------------------------------------------------------------------
// uninstall
// ---------------------------------------------------------------------

/// Where the uninstall operation stands.  The payload of the polling
/// phases is the time in milliseconds already spent waiting.
#[derive(Clone, Copy, PartialEq, Eq, Structural, Debug)]
pub enum UninstallPhase {
    CheckingExists,
    Connecting,
    Opening,
    QueryingStatus,
    Stopping,
    Deleting,
    Polling(u64),
    Sleeping(u64),
    Finished,
}

/// Uninstall a service: refuse if it is missing, stop it if running,
/// delete it, then poll up to [`UNINSTALL_TIMEOUT_MS`] for confirmed
/// removal.  Running out of the polling window is reported as success, not
/// as an error; `removal_confirmed` records whether removal was actually
/// observed.
#[derive(Clone, Copy, PartialEq, Eq, Structural, Debug)]
pub struct UninstallFlow {
    pub phase: UninstallPhase,
    /// Whether a poll observed the service gone.
    pub removal_confirmed: bool,
}

/// The SCM call pending in each phase of the uninstall operation.
pub open spec fn uninstall_action(ph: UninstallPhase) -> ScmAction {
    match ph {
        UninstallPhase::CheckingExists => ScmAction::CheckExists,
        UninstallPhase::Connecting => ScmAction::Connect,
        UninstallPhase::Opening => ScmAction::OpenService,
        UninstallPhase::QueryingStatus => ScmAction::QueryStatus,
        UninstallPhase::Stopping => ScmAction::IssueStop,
        UninstallPhase::Deleting => ScmAction::IssueDelete,
        UninstallPhase::Polling(_) => ScmAction::PollRemoved,
        UninstallPhase::Sleeping(_) => ScmAction::Sleep(UNINSTALL_POLL_INTERVAL_MS),
        UninstallPhase::Finished => ScmAction::CheckExists,
    }
}

/// Time spent polling never exceeds the timeout window.
pub open spec fn uninstall_wf(f: UninstallFlow) -> bool {
    match f.phase {
        UninstallPhase::Polling(w) => w < UNINSTALL_TIMEOUT_MS,
        UninstallPhase::Sleeping(w) => w + UNINSTALL_POLL_INTERVAL_MS < UNINSTALL_TIMEOUT_MS,
        _ => true,
    }
}

/// One transition of the uninstall operation.
pub open spec fn uninstall_transition(f: UninstallFlow, ev: ScmEvent) -> (UninstallFlow, FlowNext) {
    let ph = f.phase;
    match (ph, ev) {
        (UninstallPhase::CheckingExists, ScmEvent::Exists(present)) => {
            if present {
                (
                    UninstallFlow { phase: UninstallPhase::Connecting, ..f },
                    FlowNext::Do(ScmAction::Connect),
                )
            } else {
                (
                    UninstallFlow { phase: UninstallPhase::Finished, ..f },
                    FlowNext::Done(Err(ServiceError::DoesNotExist)),
                )
            }
        },
        (UninstallPhase::Connecting, ScmEvent::Connected(ok)) => {
            if ok {
                (
                    UninstallFlow { phase: UninstallPhase::Opening, ..f },
                    FlowNext::Do(ScmAction::OpenService),
                )
            } else {
                (
                    UninstallFlow { phase: UninstallPhase::Finished, ..f },
                    FlowNext::Done(Err(ServiceError::ConnectFailed)),
                )
            }
        },
        (UninstallPhase::Opening, ScmEvent::Opened(ok)) => {
            if ok {
                (
                    UninstallFlow { phase: UninstallPhase::QueryingStatus, ..f },
                    FlowNext::Do(ScmAction::QueryStatus),
                )
            } else {
                (
                    UninstallFlow { phase: UninstallPhase::Finished, ..f },
                    FlowNext::Done(Err(ServiceError::OpenFailed)),
                )
            }
        },
        (UninstallPhase::QueryingStatus, ScmEvent::Status(st)) => {
            match st {
                None => (
                    UninstallFlow { phase: UninstallPhase::Finished, ..f },
                    FlowNext::Done(Err(ServiceError::QueryStatusFailed)),
                ),
                Some(state) => {
                    if state == ServiceState::Stopped {
                        (
                            UninstallFlow { phase: UninstallPhase::Deleting, ..f },
                            FlowNext::Do(ScmAction::IssueDelete),
                        )
                    } else {
                        (
                            UninstallFlow { phase: UninstallPhase::Stopping, ..f },
                            FlowNext::Do(ScmAction::IssueStop),
                        )
                    }
                },
            }
        },
        (UninstallPhase::Stopping, ScmEvent::StopIssued(_)) => (
            UninstallFlow { phase: UninstallPhase::Deleting, ..f },
            FlowNext::Do(ScmAction::IssueDelete),
        ),
        (UninstallPhase::Deleting, ScmEvent::DeleteIssued(_)) => (
            UninstallFlow { phase: UninstallPhase::Polling(0), ..f },
            FlowNext::Do(ScmAction::PollRemoved),
        ),
        (UninstallPhase::Polling(w), ScmEvent::Removed(gone)) => {
            if gone {
                (
                    UninstallFlow { phase: UninstallPhase::Finished, removal_confirmed: true },
                    FlowNext::Done(Ok(())),
                )
            } else if w + UNINSTALL_POLL_INTERVAL_MS >= UNINSTALL_TIMEOUT_MS {
                (UninstallFlow { phase: UninstallPhase::Finished, ..f }, FlowNext::Done(Ok(())))
            } else {
                (
                    UninstallFlow { phase: UninstallPhase::Sleeping(w), ..f },
                    FlowNext::Do(ScmAction::Sleep(UNINSTALL_POLL_INTERVAL_MS)),
                )
            }
        },
        (UninstallPhase::Sleeping(w), ScmEvent::Slept) => (
            UninstallFlow {
                phase: UninstallPhase::Polling((w + UNINSTALL_POLL_INTERVAL_MS) as u64),
                ..f
            },
            FlowNext::Do(ScmAction::PollRemoved),
        ),
        _ => (f, FlowNext::Done(Err(ServiceError::DoesNotExist))),
    }
}

impl UninstallFlow {
    /// Begin uninstalling: the first call is the existence check.
    pub fn begin() -> (r: (UninstallFlow, ScmAction))
        ensures
            r.0 == (UninstallFlow {
                phase: UninstallPhase::CheckingExists,
                removal_confirmed: false,
            }),
            r.1 == ScmAction::CheckExists,
            uninstall_wf(r.0),
    {
        (
            UninstallFlow { phase: UninstallPhase::CheckingExists, removal_confirmed: false },
            ScmAction::CheckExists,
        )
    }

    /// Consume the answer to the pending call and decide what comes next.
    pub fn step(&mut self, ev: ScmEvent) -> (r: FlowNext)
        requires
            old(self).phase != UninstallPhase::Finished,
            uninstall_wf(*old(self)),
            event_answers(uninstall_action(old(self).phase), ev),
        ensures
            (*final(self), r) == uninstall_transition(*old(self), ev),
            uninstall_wf(*final(self)),
    {
        match (self.phase, ev) {
            (UninstallPhase::CheckingExists, ScmEvent::Exists(present)) => {
                if present {
                    self.phase = UninstallPhase::Connecting;
                    FlowNext::Do(ScmAction::Connect)
                } else {
                    self.phase = UninstallPhase::Finished;
                    FlowNext::Done(Err(ServiceError::DoesNotExist))
                }
            },
            (UninstallPhase::Connecting, ScmEvent::Connected(ok)) => {
                if ok {
                    self.phase = UninstallPhase::Opening;
                    FlowNext::Do(ScmAction::OpenService)
                } else {
                    self.phase = UninstallPhase::Finished;
                    FlowNext::Done(Err(ServiceError::ConnectFailed))
                }
            },
            (UninstallPhase::Opening, ScmEvent::Opened(ok)) => {
                if ok {
                    self.phase = UninstallPhase::QueryingStatus;
                    FlowNext::Do(ScmAction::QueryStatus)
                } else {
                    self.phase = UninstallPhase::Finished;
                    FlowNext::Done(Err(ServiceError::OpenFailed))
                }
            },
            (UninstallPhase::QueryingStatus, ScmEvent::Status(st)) => {
                match st {
                    None => {
                        self.phase = UninstallPhase::Finished;
                        FlowNext::Done(Err(ServiceError::QueryStatusFailed))
                    },
                    Some(state) => {
                        if state == ServiceState::Stopped {
                            self.phase = UninstallPhase::Deleting;
                            FlowNext::Do(ScmAction::IssueDelete)
                        } else {
                            self.phase = UninstallPhase::Stopping;
                            FlowNext::Do(ScmAction::IssueStop)
                        }
                    },
                }
            },
            (UninstallPhase::Stopping, ScmEvent::StopIssued(_)) => {
                self.phase = UninstallPhase::Deleting;
                FlowNext::Do(ScmAction::IssueDelete)
            },
            (UninstallPhase::Deleting, ScmEvent::DeleteIssued(_)) => {
                self.phase = UninstallPhase::Polling(0);
                FlowNext::Do(ScmAction::PollRemoved)
            },
            (UninstallPhase::Polling(w), ScmEvent::Removed(gone)) => {
                if gone {
                    self.phase = UninstallPhase::Finished;
                    self.removal_confirmed = true;
                    FlowNext::Done(Ok(()))
                } else if w >= UNINSTALL_TIMEOUT_MS - UNINSTALL_POLL_INTERVAL_MS {
                    self.phase = UninstallPhase::Finished;
                    FlowNext::Done(Ok(()))
                } else {
                    self.phase = UninstallPhase::Sleeping(w);
                    FlowNext::Do(ScmAction::Sleep(UNINSTALL_POLL_INTERVAL_MS))
                }
            },
            (UninstallPhase::Sleeping(w), ScmEvent::Slept) => {
                self.phase = UninstallPhase::Polling(w + UNINSTALL_POLL_INTERVAL_MS);
                FlowNext::Do(ScmAction::PollRemoved)
            },
            _ => {
                proof {
                    assert(false);
                }
                FlowNext::Done(Err(ServiceError::DoesNotExist))
            },
        }
    }
}


// ---------------------------------------------------------------------
// change_config
// ---------------------------------------------------------------------

/// Where the reconfiguration operation stands.
#[derive(Clone, Copy, PartialEq, Eq, Structural, Debug)]
pub enum ChangeConfigPhase {
    Connecting,
    Opening,
    InitialStatus,
    Stopping,
    PollingStopped,
    Sleeping,
    Applying,
    Finished,
}

/// Rewrite a service's configuration.  A running service is stopped first
/// and its status polled until `Stopped` is observed; the new configuration
/// is never applied while the service runs.
#[derive(Clone, Copy, PartialEq, Eq, Structural, Debug)]
pub struct ChangeConfigFlow {
    pub phase: ChangeConfigPhase,
}

/// The SCM call pending in each phase of the reconfiguration.
pub open spec fn change_config_action(ph: ChangeConfigPhase) -> ScmAction {
    match ph {
        ChangeConfigPhase::Connecting => ScmAction::Connect,
        ChangeConfigPhase::Opening => ScmAction::OpenService,
        ChangeConfigPhase::InitialStatus => ScmAction::QueryStatus,
        ChangeConfigPhase::Stopping => ScmAction::IssueStop,
        ChangeConfigPhase::PollingStopped => ScmAction::QueryStatus,
        ChangeConfigPhase::Sleeping => ScmAction::Sleep(CHANGE_CONFIG_POLL_INTERVAL_MS),
        ChangeConfigPhase::Applying => ScmAction::ApplyConfig,
        ChangeConfigPhase::Finished => ScmAction::Connect,
    }
}

/// One transition of the reconfiguration operation.
pub open spec fn change_config_transition(ph: ChangeConfigPhase, ev: ScmEvent) -> (
    ChangeConfigPhase,
    FlowNext,
) {
    match (ph, ev) {
        (ChangeConfigPhase::Connecting, ScmEvent::Connected(ok)) => {
            if ok {
                (ChangeConfigPhase::Opening, FlowNext::Do(ScmAction::OpenService))
            } else {
                (ChangeConfigPhase::Finished, FlowNext::Done(Err(ServiceError::ConnectFailed)))
            }
        },
        (ChangeConfigPhase::Opening, ScmEvent::Opened(ok)) => {
            if ok {
                (ChangeConfigPhase::InitialStatus, FlowNext::Do(ScmAction::QueryStatus))
            } else {
                (ChangeConfigPhase::Finished, FlowNext::Done(Err(ServiceError::OpenFailed)))
            }
        },
        (ChangeConfigPhase::InitialStatus, ScmEvent::Status(st)) => {
            match st {
                None => (
                    ChangeConfigPhase::Finished,
                    FlowNext::Done(Err(ServiceError::QueryStatusFailed)),
                ),
                Some(state) => {
                    if state == ServiceState::Running {
                        (ChangeConfigPhase::Stopping, FlowNext::Do(ScmAction::IssueStop))
                    } else {
                        (ChangeConfigPhase::Applying, FlowNext::Do(ScmAction::ApplyConfig))
                    }
                },
            }
        },
        (ChangeConfigPhase::Stopping, ScmEvent::StopIssued(_)) => (
            ChangeConfigPhase::PollingStopped,
            FlowNext::Do(ScmAction::QueryStatus),
        ),
        (ChangeConfigPhase::PollingStopped, ScmEvent::Status(st)) => {
            match st {
                None => (
                    ChangeConfigPhase::Finished,
                    FlowNext::Done(Err(ServiceError::QueryStatusFailed)),
                ),
                Some(state) => {
                    if state == ServiceState::Stopped {
                        (ChangeConfigPhase::Applying, FlowNext::Do(ScmAction::ApplyConfig))
                    } else {
                        (
                            ChangeConfigPhase::Sleeping,
                            FlowNext::Do(ScmAction::Sleep(CHANGE_CONFIG_POLL_INTERVAL_MS)),
                        )
                    }
                },
            }
        },
        (ChangeConfigPhase::Sleeping, ScmEvent::Slept) => (
            ChangeConfigPhase::PollingStopped,
            FlowNext::Do(ScmAction::QueryStatus),
        ),
        (ChangeConfigPhase::Applying, ScmEvent::ConfigApplied(ok)) => {
            if ok {
                (ChangeConfigPhase::Finished, FlowNext::Done(Ok(())))
            } else {
                (ChangeConfigPhase::Finished, FlowNext::Done(Err(ServiceError::ChangeConfigFailed)))
            }
        },
        _ => (ph, FlowNext::Done(Err(ServiceError::ChangeConfigFailed))),
    }
}

impl ChangeConfigFlow {
    /// Begin reconfiguring: the first call connects to the service manager.
    pub fn begin() -> (r: (ChangeConfigFlow, ScmAction))
        ensures
            r.0 == (ChangeConfigFlow { phase: ChangeConfigPhase::Connecting }),
            r.1 == ScmAction::Connect,
    {
        (ChangeConfigFlow { phase: ChangeConfigPhase::Connecting }, ScmAction::Connect)
    }

    /// Consume the answer to the pending call and decide what comes next.
    pub fn step(&mut self, ev: ScmEvent) -> (r: FlowNext)
        requires
            old(self).phase != ChangeConfigPhase::Finished,
            event_answers(change_config_action(old(self).phase), ev),
        ensures
            (final(self).phase, r) == change_config_transition(old(self).phase, ev),
    {
        match (self.phase, ev) {
            (ChangeConfigPhase::Connecting, ScmEvent::Connected(ok)) => {
                if ok {
                    self.phase = ChangeConfigPhase::Opening;
                    FlowNext::Do(ScmAction::OpenService)
                } else {
                    self.phase = ChangeConfigPhase::Finished;
                    FlowNext::Done(Err(ServiceError::ConnectFailed))
                }
            },
            (ChangeConfigPhase::Opening, ScmEvent::Opened(ok)) => {
                if ok {
                    self.phase = ChangeConfigPhase::InitialStatus;
                    FlowNext::Do(ScmAction::QueryStatus)
                } else {
                    self.phase = ChangeConfigPhase::Finished;
                    FlowNext::Done(Err(ServiceError::OpenFailed))
                }
            },
            (ChangeConfigPhase::InitialStatus, ScmEvent::Status(st)) => {
                match st {
                    None => {
                        self.phase = ChangeConfigPhase::Finished;
                        FlowNext::Done(Err(ServiceError::QueryStatusFailed))
                    },
                    Some(state) => {
                        if state == ServiceState::Running {
                            self.phase = ChangeConfigPhase::Stopping;
                            FlowNext::Do(ScmAction::IssueStop)
                        } else {
                            self.phase = ChangeConfigPhase::Applying;
                            FlowNext::Do(ScmAction::ApplyConfig)
                        }
                    },
                }
            },
            (ChangeConfigPhase::Stopping, ScmEvent::StopIssued(_)) => {
                self.phase = ChangeConfigPhase::PollingStopped;
                FlowNext::Do(ScmAction::QueryStatus)
            },
            (ChangeConfigPhase::PollingStopped, ScmEvent::Status(st)) => {
                match st {
                    None => {
                        self.phase = ChangeConfigPhase::Finished;
                        FlowNext::Done(Err(ServiceError::QueryStatusFailed))
                    },
                    Some(state) => {
                        if state == ServiceState::Stopped {
                            self.phase = ChangeConfigPhase::Applying;
                            FlowNext::Do(ScmAction::ApplyConfig)
                        } else {
                            self.phase = ChangeConfigPhase::Sleeping;
                            FlowNext::Do(ScmAction::Sleep(CHANGE_CONFIG_POLL_INTERVAL_MS))
                        }
                    },
                }
            },
            (ChangeConfigPhase::Sleeping, ScmEvent::Slept) => {
                self.phase = ChangeConfigPhase::PollingStopped;
                FlowNext::Do(ScmAction::QueryStatus)
            },
            (ChangeConfigPhase::Applying, ScmEvent::ConfigApplied(ok)) => {
                self.phase = ChangeConfigPhase::Finished;
                if ok {
                    FlowNext::Done(Ok(()))
                } else {
                    FlowNext::Done(Err(ServiceError::ChangeConfigFailed))
                }
            },
            _ => {
                proof {
                    assert(false);
                }
                FlowNext::Done(Err(ServiceError::ChangeConfigFailed))
            },
        }
    }
}

// ---------------------------------------------------------------------
// stop
// ---------------------------------------------------------------------

/// Where the stop operation stands.
#[derive(Clone, Copy, PartialEq, Eq, Structural, Debug)]
pub enum StopPhase {
    CheckingExists,
    Connecting,
    Opening,
    Querying,
    Stopping,
    Waiting,
    Finished,
}

/// Stop a service: refuse if it is missing; if it is not already stopped,
/// request the stop and wait a fixed [`STOP_WAIT_MS`] before reporting
/// success.
#[derive(Clone, Copy, PartialEq, Eq, Structural, Debug)]
pub struct StopFlow {
    pub phase: StopPhase,
}

/// The SCM call pending in each phase of the stop operation.
pub open spec fn stop_action(ph: StopPhase) -> ScmAction {
    match ph {
        StopPhase::CheckingExists => ScmAction::CheckExists,
        StopPhase::Connecting => ScmAction::Connect,
        StopPhase::Opening => ScmAction::OpenService,
        StopPhase::Querying => ScmAction::QueryStatus,
        StopPhase::Stopping => ScmAction::IssueStop,
        StopPhase::Waiting => ScmAction::Sleep(STOP_WAIT_MS),
        StopPhase::Finished => ScmAction::CheckExists,
    }
}

/// One transition of the stop operation.
pub open spec fn stop_transition(ph: StopPhase, ev: ScmEvent) -> (StopPhase, FlowNext) {
    match (ph, ev) {
        (StopPhase::CheckingExists, ScmEvent::Exists(present)) => {
            if present {
                (StopPhase::Connecting, FlowNext::Do(ScmAction::Connect))
            } else {
                (StopPhase::Finished, FlowNext::Done(Err(ServiceError::DoesNotExist)))
            }
        },
        (StopPhase::Connecting, ScmEvent::Connected(ok)) => {
            if ok {
                (StopPhase::Opening, FlowNext::Do(ScmAction::OpenService))
            } else {
                (StopPhase::Finished, FlowNext::Done(Err(ServiceError::ConnectFailed)))
            }
        },
        (StopPhase::Opening, ScmEvent::Opened(ok)) => {
            if ok {
                (StopPhase::Querying, FlowNext::Do(ScmAction::QueryStatus))
            } else {
                (StopPhase::Finished, FlowNext::Done(Err(ServiceError::OpenFailed)))
            }
        },
        (StopPhase::Querying, ScmEvent::Status(st)) => {
            match st {
                None => (StopPhase::Finished, FlowNext::Done(Err(ServiceError::QueryStatusFailed))),
                Some(state) => {
                    if state == ServiceState::Stopped {
                        (StopPhase::Finished, FlowNext::Done(Ok(())))
                    } else {
                        (StopPhase::Stopping, FlowNext::Do(ScmAction::IssueStop))
                    }
                },
            }
        },
        (StopPhase::Stopping, ScmEvent::StopIssued(_)) => (
            StopPhase::Waiting,
            FlowNext::Do(ScmAction::Sleep(STOP_WAIT_MS)),
        ),
        (StopPhase::Waiting, ScmEvent::Slept) => (StopPhase::Finished, FlowNext::Done(Ok(()))),
        _ => (ph, FlowNext::Done(Err(ServiceError::DoesNotExist))),
    }
}

impl StopFlow {
    /// Begin stopping: the first call is the existence check.
    pub fn begin() -> (r: (StopFlow, ScmAction))
        ensures
            r.0 == (StopFlow { phase: StopPhase::CheckingExists }),
            r.1 == ScmAction::CheckExists,
    {
        (StopFlow { phase: StopPhase::CheckingExists }, ScmAction::CheckExists)
    }

    /// Consume the answer to the pending call and decide what comes next.
    pub fn step(&mut self, ev: ScmEvent) -> (r: FlowNext)
        requires
            old(self).phase != StopPhase::Finished,
            event_answers(stop_action(old(self).phase), ev),
        ensures
            (final(self).phase, r) == stop_transition(old(self).phase, ev),
    {
        match (self.phase, ev) {
            (StopPhase::CheckingExists, ScmEvent::Exists(present)) => {
                if present {
                    self.phase = StopPhase::Connecting;
                    FlowNext::Do(ScmAction::Connect)
                } else {
                    self.phase = StopPhase::Finished;
                    FlowNext::Done(Err(ServiceError::DoesNotExist))
                }
            },
            (StopPhase::Connecting, ScmEvent::Connected(ok)) => {
                if ok {
                    self.phase = StopPhase::Opening;
                    FlowNext::Do(ScmAction::OpenService)
                } else {
                    self.phase = StopPhase::Finished;
                    FlowNext::Done(Err(ServiceError::ConnectFailed))
                }
            },
            (StopPhase::Opening, ScmEvent::Opened(ok)) => {
                if ok {
                    self.phase = StopPhase::Querying;
                    FlowNext::Do(ScmAction::QueryStatus)
                } else {
                    self.phase = StopPhase::Finished;
                    FlowNext::Done(Err(ServiceError::OpenFailed))
                }
            },
            (StopPhase::Querying, ScmEvent::Status(st)) => {
                match st {
                    None => {
                        self.phase = StopPhase::Finished;
                        FlowNext::Done(Err(ServiceError::QueryStatusFailed))
                    },
                    Some(state) => {
                        if state == ServiceState::Stopped {
                            self.phase = StopPhase::Finished;
                            FlowNext::Done(Ok(()))
                        } else {
                            self.phase = StopPhase::Stopping;
                            FlowNext::Do(ScmAction::IssueStop)
                        }
                    },
                }
            },
            (StopPhase::Stopping, ScmEvent::StopIssued(_)) => {
                self.phase = StopPhase::Waiting;
                FlowNext::Do(ScmAction::Sleep(STOP_WAIT_MS))
            },
            (StopPhase::Waiting, ScmEvent::Slept) => {
                self.phase = StopPhase::Finished;
                FlowNext::Done(Ok(()))
            },
            _ => {
                proof {
                    assert(false);
                }
                FlowNext::Done(Err(ServiceError::DoesNotExist))
            },
        }
    }
}

// ---------------------------------------------------------------------
// start
// ---------------------------------------------------------------------

/// Where the start operation stands.
#[derive(Clone, Copy, PartialEq, Eq, Structural, Debug)]
pub enum StartPhase {
    CheckingExists,
    Connecting,
    Opening,
    Starting,
    Finished,
}

/// Start a service: refuse if it is missing, then request the start.
#[derive(Clone, Copy, PartialEq, Eq, Structural, Debug)]
pub struct StartFlow {
    pub phase: StartPhase,
}

/// The SCM call pending in each phase of the start operation.
pub open spec fn start_action(ph: StartPhase) -> ScmAction {
    match ph {
        StartPhase::CheckingExists => ScmAction::CheckExists,
        StartPhase::Connecting => ScmAction::Connect,
        StartPhase::Opening => ScmAction::OpenService,
        StartPhase::Starting => ScmAction::IssueStart,
        StartPhase::Finished => ScmAction::CheckExists,
    }
}

/// One transition of the start operation.
pub open spec fn start_transition(ph: StartPhase, ev: ScmEvent) -> (StartPhase, FlowNext) {
    match (ph, ev) {
        (StartPhase::CheckingExists, ScmEvent::Exists(present)) => {
            if present {
                (StartPhase::Connecting, FlowNext::Do(ScmAction::Connect))
            } else {
                (StartPhase::Finished, FlowNext::Done(Err(ServiceError::DoesNotExist)))
            }
        },
        (StartPhase::Connecting, ScmEvent::Connected(ok)) => {
            if ok {
                (StartPhase::Opening, FlowNext::Do(ScmAction::OpenService))
            } else {
                (StartPhase::Finished, FlowNext::Done(Err(ServiceError::ConnectFailed)))
            }
        },
        (StartPhase::Opening, ScmEvent::Opened(ok)) => {
            if ok {
                (StartPhase::Starting, FlowNext::Do(ScmAction::IssueStart))
            } else {
                (StartPhase::Finished, FlowNext::Done(Err(ServiceError::OpenFailed)))
            }
        },
        (StartPhase::Starting, ScmEvent::StartIssued(ok)) => {
            if ok {
                (StartPhase::Finished, FlowNext::Done(Ok(())))
            } else {
                (StartPhase::Finished, FlowNext::Done(Err(ServiceError::StartFailed)))
            }
        },
        _ => (ph, FlowNext::Done(Err(ServiceError::DoesNotExist))),
    }
}

impl StartFlow {
    /// Begin starting: the first call is the existence check.
    pub fn begin() -> (r: (StartFlow, ScmAction))
        ensures
            r.0 == (StartFlow { phase: StartPhase::CheckingExists }),
            r.1 == ScmAction::CheckExists,
    {
        (StartFlow { phase: StartPhase::CheckingExists }, ScmAction::CheckExists)
    }

    /// Consume the answer to the pending call and decide what comes next.
    pub fn step(&mut self, ev: ScmEvent) -> (r: FlowNext)
        requires
            old(self).phase != StartPhase::Finished,
            event_answers(start_action(old(self).phase), ev),
        ensures
            (final(self).phase, r) == start_transition(old(self).phase, ev),
    {
        match (self.phase, ev) {
            (StartPhase::CheckingExists, ScmEvent::Exists(present)) => {
                if present {
                    self.phase = StartPhase::Connecting;
                    FlowNext::Do(ScmAction::Connect)
                } else {
                    self.phase = StartPhase::Finished;
                    FlowNext::Done(Err(ServiceError::DoesNotExist))
                }
            },
            (StartPhase::Connecting, ScmEvent::Connected(ok)) => {
                if ok {
                    self.phase = StartPhase::Opening;
                    FlowNext::Do(ScmAction::OpenService)
                } else {
                    self.phase = StartPhase::Finished;
                    FlowNext::Done(Err(ServiceError::ConnectFailed))
                }
            },
            (StartPhase::Opening, ScmEvent::Opened(ok)) => {
                if ok {
                    self.phase = StartPhase::Starting;
                    FlowNext::Do(ScmAction::IssueStart)
                } else {
                    self.phase = StartPhase::Finished;
                    FlowNext::Done(Err(ServiceError::OpenFailed))
                }
            },
            (StartPhase::Starting, ScmEvent::StartIssued(ok)) => {
                self.phase = StartPhase::Finished;
                if ok {
                    FlowNext::Done(Ok(()))
                } else {
                    FlowNext::Done(Err(ServiceError::StartFailed))
                }
            },
            _ => {
                proof {
                    assert(false);
                }
                FlowNext::Done(Err(ServiceError::DoesNotExist))
            },
        }
    }
}

// ---------------------------------------------------------------------
// install
// ---------------------------------------------------------------------

/// Where the install operation stands.
#[derive(Clone, Copy, PartialEq, Eq, Structural, Debug)]
pub enum InstallPhase {
    CheckingExists,
    Connecting,
    Creating,
    Finished,
}

/// Install a service: refuse if one of the name already exists, then create
/// it from the given configuration.
#[derive(Clone, Copy, PartialEq, Eq, Structural, Debug)]
pub struct InstallFlow {
    pub phase: InstallPhase,
}

/// The SCM call pending in each phase of the install operation.
pub open spec fn install_action(ph: InstallPhase) -> ScmAction {
    match ph {
        InstallPhase::CheckingExists => ScmAction::CheckExists,
        InstallPhase::Connecting => ScmAction::Connect,
        InstallPhase::Creating => ScmAction::CreateService,
        InstallPhase::Finished => ScmAction::CheckExists,
    }
}

/// One transition of the install operation.
pub open spec fn install_transition(ph: InstallPhase, ev: ScmEvent) -> (InstallPhase, FlowNext) {
    match (ph, ev) {
        (InstallPhase::CheckingExists, ScmEvent::Exists(present)) => {
            if present {
                (InstallPhase::Finished, FlowNext::Done(Err(ServiceError::AlreadyExists)))
            } else {
                (InstallPhase::Connecting, FlowNext::Do(ScmAction::Connect))
            }
        },
        (InstallPhase::Connecting, ScmEvent::Connected(ok)) => {
            if ok {
                (InstallPhase::Creating, FlowNext::Do(ScmAction::CreateService))
            } else {
                (InstallPhase::Finished, FlowNext::Done(Err(ServiceError::ConnectFailed)))
            }
        },
        (InstallPhase::Creating, ScmEvent::Created(ok)) => {
            if ok {
                (InstallPhase::Finished, FlowNext::Done(Ok(())))
            } else {
                (InstallPhase::Finished, FlowNext::Done(Err(ServiceError::CreateFailed)))
            }
        },
        _ => (ph, FlowNext::Done(Err(ServiceError::CreateFailed))),
    }
}

impl InstallFlow {
    /// Begin installing: the first call is the existence check.
    pub fn begin() -> (r: (InstallFlow, ScmAction))
        ensures
            r.0 == (InstallFlow { phase: InstallPhase::CheckingExists }),
            r.1 == ScmAction::CheckExists,
    {
        (InstallFlow { phase: InstallPhase::CheckingExists }, ScmAction::CheckExists)
    }

    /// Consume the answer to the pending call and decide what comes next.
    pub fn step(&mut self, ev: ScmEvent) -> (r: FlowNext)
        requires
            old(self).phase != InstallPhase::Finished,
            event_answers(install_action(old(self).phase), ev),
        ensures
            (final(self).phase, r) == install_transition(old(self).phase, ev),
    {
        match (self.phase, ev) {
            (InstallPhase::CheckingExists, ScmEvent::Exists(present)) => {
                if present {
                    self.phase = InstallPhase::Finished;
                    FlowNext::Done(Err(ServiceError::AlreadyExists))
                } else {
                    self.phase = InstallPhase::Connecting;
                    FlowNext::Do(ScmAction::Connect)
                }
            },
            (InstallPhase::Connecting, ScmEvent::Connected(ok)) => {
                if ok {
                    self.phase = InstallPhase::Creating;
                    FlowNext::Do(ScmAction::CreateService)
                } else {
                    self.phase = InstallPhase::Finished;
                    FlowNext::Done(Err(ServiceError::ConnectFailed))
                }
            },
            (InstallPhase::Creating, ScmEvent::Created(ok)) => {
                self.phase = InstallPhase::Finished;
                if ok {
                    FlowNext::Done(Ok(()))
                } else {
                    FlowNext::Done(Err(ServiceError::CreateFailed))
                }
            },
            _ => {
                proof {
                    assert(false);
                }
                FlowNext::Done(Err(ServiceError::CreateFailed))
            },
        }
    }
}

// ---------------------------------------------------------------------
// get_config
// ---------------------------------------------------------------------

/// Where the configuration query stands.
#[derive(Clone, Copy, PartialEq, Eq, Structural, Debug)]
pub enum GetConfigPhase {
    CheckingExists,
    Connecting,
    Opening,
    Querying,
    Finished,
}

/// What the configuration query hands back after a step.
#[derive(Debug)]
pub enum GetConfigNext {
    Do(ScmAction),
    Done(Result<ServiceConfigModel, ServiceError>),
}

/// Read a service's configuration: refuse if the service is missing, then
/// query and hand the configuration through unchanged.
#[derive(Clone, Copy, PartialEq, Eq, Structural, Debug)]
pub struct GetConfigFlow {
    pub phase: GetConfigPhase,
}

/// The SCM call pending in each phase of the configuration query.
pub open spec fn get_config_action(ph: GetConfigPhase) -> ScmAction {
    match ph {
        GetConfigPhase::CheckingExists => ScmAction::CheckExists,
        GetConfigPhase::Connecting => ScmAction::Connect,
        GetConfigPhase::Opening => ScmAction::OpenService,
        GetConfigPhase::Querying => ScmAction::QueryConfig,
        GetConfigPhase::Finished => ScmAction::CheckExists,
    }
}

/// One transition of the configuration query.
pub open spec fn get_config_transition(ph: GetConfigPhase, ev: ScmEvent) -> (
    GetConfigPhase,
    GetConfigNext,
) {
    match (ph, ev) {
        (GetConfigPhase::CheckingExists, ScmEvent::Exists(present)) => {
            if present {
                (GetConfigPhase::Connecting, GetConfigNext::Do(ScmAction::Connect))
            } else {
                (GetConfigPhase::Finished, GetConfigNext::Done(Err(ServiceError::DoesNotExist)))
            }
        },
        (GetConfigPhase::Connecting, ScmEvent::Connected(ok)) => {
            if ok {
                (GetConfigPhase::Opening, GetConfigNext::Do(ScmAction::OpenService))
            } else {
                (GetConfigPhase::Finished, GetConfigNext::Done(Err(ServiceError::ConnectFailed)))
            }
        },
        (GetConfigPhase::Opening, ScmEvent::Opened(ok)) => {
            if ok {
                (GetConfigPhase::Querying, GetConfigNext::Do(ScmAction::QueryConfig))
            } else {
                (GetConfigPhase::Finished, GetConfigNext::Done(Err(ServiceError::OpenFailed)))
            }
        },
        (GetConfigPhase::Querying, ScmEvent::Config(c)) => {
            match c {
                Some(config) => (GetConfigPhase::Finished, GetConfigNext::Done(Ok(config))),
                None => (
                    GetConfigPhase::Finished,
                    GetConfigNext::Done(Err(ServiceError::QueryConfigFailed)),
                ),
            }
        },
        _ => (ph, GetConfigNext::Done(Err(ServiceError::QueryConfigFailed))),
    }
}

impl GetConfigFlow {
    /// Begin the query: the first call is the existence check.
    pub fn begin() -> (r: (GetConfigFlow, ScmAction))
        ensures
            r.0 == (GetConfigFlow { phase: GetConfigPhase::CheckingExists }),
            r.1 == ScmAction::CheckExists,
    {
        (GetConfigFlow { phase: GetConfigPhase::CheckingExists }, ScmAction::CheckExists)
    }

    /// Consume the answer to the pending call and decide what comes next.
    pub fn step(&mut self, ev: ScmEvent) -> (r: GetConfigNext)
        requires
            old(self).phase != GetConfigPhase::Finished,
            event_answers(get_config_action(old(self).phase), ev),
        ensures
            (final(self).phase, r) == get_config_transition(old(self).phase, ev),
    {
        match (self.phase, ev) {
            (GetConfigPhase::CheckingExists, ScmEvent::Exists(present)) => {
                if present {
                    self.phase = GetConfigPhase::Connecting;
                    GetConfigNext::Do(ScmAction::Connect)
                } else {
                    self.phase = GetConfigPhase::Finished;
                    GetConfigNext::Done(Err(ServiceError::DoesNotExist))
                }
            },
            (GetConfigPhase::Connecting, ScmEvent::Connected(ok)) => {
                if ok {
                    self.phase = GetConfigPhase::Opening;
                    GetConfigNext::Do(ScmAction::OpenService)
                } else {
                    self.phase = GetConfigPhase::Finished;
                    GetConfigNext::Done(Err(ServiceError::ConnectFailed))
                }
            },
            (GetConfigPhase::Opening, ScmEvent::Opened(ok)) => {
                if ok {
                    self.phase = GetConfigPhase::Querying;
                    GetConfigNext::Do(ScmAction::QueryConfig)
                } else {
                    self.phase = GetConfigPhase::Finished;
                    GetConfigNext::Done(Err(ServiceError::OpenFailed))
                }
            },
            (GetConfigPhase::Querying, ScmEvent::Config(c)) => {
                self.phase = GetConfigPhase::Finished;
                match c {
                    Some(config) => GetConfigNext::Done(Ok(config)),
                    None => GetConfigNext::Done(Err(ServiceError::QueryConfigFailed)),
                }
            },
            _ => {
                proof {
                    assert(false);
                }
                GetConfigNext::Done(Err(ServiceError::QueryConfigFailed))
            },
        }
    }
}

} // verus!
