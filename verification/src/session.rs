//! Session orchestration.
//!
//! `SessionOrchestrator` supervises one full session: the launch sequence,
//! the running phase, the shutdown race between the interrupt, the command
//! task and the node's own termination, and the final cleanup of the
//! persisted run status. Like the launcher it is a state machine: each
//! `step` consumes the outcome of the previous piece of outside work and
//! returns the next action for the driver.
//!
//! Cleanup discipline: the `ClearStatus` action is issued exactly once per
//! session — after the race resolves, or after a failed launch — with one
//! deliberate exception: a launch refused because a node is already running
//! mutates nothing, so there is no record of this session's making to
//! remove, and clearing would erase the running node's own record.

use vstd::prelude::*;

use crate::binder::BindFailure;
use crate::binder::EPHEMERAL_PORT;
use crate::config::RunType;
use crate::config::StartArgs;
use crate::launcher::LaunchAction;
use crate::launcher::LaunchError;
use crate::launcher::LaunchEvent;
use crate::launcher::LaunchState;
use crate::launcher::NodeLauncher;
use crate::race::spec_command_completion;
use crate::race::command_task_completion;
use crate::status::RunStatus;
use crate::status::lemma_status_round_trip;
use crate::status::spec_decode_status;
use crate::status::spec_encode_status;

verus! {

/// The one terminal error a session reports, when it does not succeed.
#[derive(Debug, PartialEq, Eq)]
pub enum SessionError {
    /// A node is already running for this data directory, on the given port.
    AlreadyRunning(u16),
    /// A storage directory could not be created, or the run-status record
    /// could not be persisted to it.
    StorageInit(String),
    /// The secret identity could not be loaded or generated.
    Identity(String),
    /// The control listener could not be bound.
    Bind(BindFailure),
    /// The node itself could not be constructed.
    NodeConstruction(String),
    /// The caller-supplied command failed and won the race.
    Command(String),
    /// The node terminated abnormally on its own, or failed while shutting
    /// down after an interrupt.
    NodeRuntime(String),
}

/// Where the session stands. The shutdown phases spell out, branch by
/// branch, the fixed order of the cleanup work the winning race branch owes.
#[derive(Debug, PartialEq, Eq)]
pub enum SessionPhase {
    /// The launch sequence is in progress.
    Booting,
    /// The node is up, the command task is spawned, the race is open.
    Live,
    /// Interrupt branch: the command task is being aborted.
    InterruptAbortingCommand,
    /// Interrupt branch: the node is being asked to shut down.
    InterruptStoppingNode,
    /// Interrupt branch: waiting for the node to terminate; its result
    /// becomes the session's outcome.
    InterruptAwaitingNode,
    /// Command branch: the node is being asked to shut down; the command's
    /// result is retained as the session's outcome.
    CommandStoppingNode(Result<(), String>),
    /// Command branch: waiting for the node to terminate; its result is
    /// discarded in favour of the command's.
    CommandAwaitingNode(Result<(), String>),
    /// Node branch: the node terminated on its own with the retained result;
    /// the command task is being aborted.
    NodeExitAbortingCommand(Result<(), String>),
    /// The persisted run status is being cleared.
    Clearing,
    /// The session is over; `outcome` holds its one terminal result.
    Done,
}

/// What the driver reports back to the session.
#[derive(Debug, PartialEq, Eq)]
pub enum SessionEvent {
    /// The outcome of a piece of launch work.
    Launch(LaunchEvent),
    /// An external interrupt signal was received.
    Interrupted,
    /// The caller-supplied command finished with the given result.
    CommandFinished(Result<(), String>),
    /// The node terminated with the given result.
    NodeExited(Result<(), String>),
    /// The command task's abort was issued.
    CommandAborted,
    /// The node's shutdown request was issued.
    ShutdownRequested,
    /// The persisted run status was cleared.
    StatusCleared,
}

/// The next piece of outside work the driver must perform for the session.
#[derive(Debug, PartialEq, Eq)]
pub enum SessionAction {
    /// Perform the given piece of launch work.
    Launch(LaunchAction),
    /// Enter the running phase: spawn the command task against the node's
    /// client handle and start listening for interrupts; the control
    /// listener holds the given port.
    SpawnCommand(u16),
    /// Abort the command task, discarding its result; safe to issue at any
    /// point of its execution, and fire-and-forget.
    AbortCommand,
    /// Ask the node to shut down; fire-and-forget, termination is awaited
    /// separately.
    RequestNodeShutdown,
    /// Wait for the node's termination.
    AwaitNodeExit,
    /// Remove the persisted run status; removing an absent record succeeds
    /// silently, and a failure here is logged, never propagated.
    ClearStatus,
    /// The session is over; read its result from `outcome`.
    Finish,
    /// The event called for no work; keep waiting.
    KeepWaiting,
}

/// The session's terminal error for a launch failure.
pub open spec fn spec_error_of_launch(e: LaunchError) -> SessionError {
    match e {
        LaunchError::AlreadyRunning(p) => SessionError::AlreadyRunning(p),
        LaunchError::StorageInit(m) => SessionError::StorageInit(m),
        LaunchError::Identity(m) => SessionError::Identity(m),
        LaunchError::Bind(f) => SessionError::Bind(f),
        LaunchError::NodeConstruction(m) => SessionError::NodeConstruction(m),
    }
}

/// Map a launch failure to the session's terminal error.
pub fn error_of_launch(e: LaunchError) -> (r: SessionError)
    ensures
        r == spec_error_of_launch(e),
{
    match e {
        LaunchError::AlreadyRunning(p) => SessionError::AlreadyRunning(p),
        LaunchError::StorageInit(m) => SessionError::StorageInit(m),
        LaunchError::Identity(m) => SessionError::Identity(m),
        LaunchError::Bind(f) => SessionError::Bind(f),
        LaunchError::NodeConstruction(m) => SessionError::NodeConstruction(m),
    }
}

/// The session's outcome when the node's own termination result decides it.
pub open spec fn spec_outcome_of_node(r: Result<(), String>) -> Result<(), SessionError> {
    match r {
        Result::Ok(()) => Result::Ok(()),
        Result::Err(m) => Result::Err(SessionError::NodeRuntime(m)),
    }
}

/// Map the node's termination result to the session's outcome.
pub fn outcome_of_node(r: Result<(), String>) -> (out: Result<(), SessionError>)
    ensures
        out == spec_outcome_of_node(r),
{
    match r {
        Result::Ok(()) => Result::Ok(()),
        Result::Err(m) => Result::Err(SessionError::NodeRuntime(m)),
    }
}

/// The session's outcome when the command's result decides it.
pub open spec fn spec_outcome_of_command(r: Result<(), String>) -> Result<(), SessionError> {
    match r {
        Result::Ok(()) => Result::Ok(()),
        Result::Err(m) => Result::Err(SessionError::Command(m)),
    }
}

/// Map the command's result to the session's outcome.
pub fn outcome_of_command(r: Result<(), String>) -> (out: Result<(), SessionError>)
    ensures
        out == spec_outcome_of_command(r),
{
    match r {
        Result::Ok(()) => Result::Ok(()),
        Result::Err(m) => Result::Err(SessionError::Command(m)),
    }
}

/// One session, from launch attempt to final cleanup. `clear_requests`
/// counts the `ClearStatus` actions issued, so that the cleanup discipline
/// is a stated, provable fact rather than a reading of the code.
#[derive(Debug, PartialEq, Eq)]
pub struct SessionOrchestrator {
    /// Whether the command's success ends the session.
    pub mode: RunType,
    /// Where the session stands.
    pub phase: SessionPhase,
    /// The launch attempt this session began with.
    pub launcher: NodeLauncher,
    /// The control port, once the launch has succeeded.
    pub control_port: Option<u16>,
    /// The session's one terminal result, once it is decided.
    pub outcome: Option<Result<(), SessionError>>,
    /// How many `ClearStatus` actions this session has issued.
    pub clear_requests: u64,
}

impl SessionOrchestrator {
    /// Well-formedness: cleanup is still owed exactly while the session is
    /// unresolved, happens at most once, and a finished session either
    /// cleared exactly once or was refused as already running and mutated
    /// nothing.
    pub open spec fn inv(self) -> bool {
        &&& self.launcher.inv()
        &&& self.clear_requests <= 1
        &&& match self.phase {
            SessionPhase::Booting => self.clear_requests == 0 && self.outcome is None,
            SessionPhase::Live => {
                &&& self.clear_requests == 0
                &&& self.outcome is None
                &&& self.control_port matches Option::Some(p) && self.launcher.state
                    == LaunchState::Launched(p)
            },
            SessionPhase::InterruptAbortingCommand => self.clear_requests == 0
                && self.outcome is None,
            SessionPhase::InterruptStoppingNode => self.clear_requests == 0
                && self.outcome is None,
            SessionPhase::InterruptAwaitingNode => self.clear_requests == 0
                && self.outcome is None,
            SessionPhase::CommandStoppingNode(_) => self.clear_requests == 0
                && self.outcome is None,
            SessionPhase::CommandAwaitingNode(_) => self.clear_requests == 0
                && self.outcome is None,
            SessionPhase::NodeExitAbortingCommand(_) => self.clear_requests == 0
                && self.outcome is None,
            SessionPhase::Clearing => self.clear_requests == 1 && self.outcome is Some,
            SessionPhase::Done => self.outcome matches Option::Some(out) && (self.clear_requests
                == 1 || (self.clear_requests == 0 && out matches Result::Err(
                SessionError::AlreadyRunning(_),
            ))),
        }
    }

    /// The session a fresh run starts from, with its first action.
    pub open spec fn spec_new(preferred_port: u16, mode: RunType) -> (
        SessionOrchestrator,
        SessionAction,
    ) {
        let (l, a) = NodeLauncher::spec_new(preferred_port);
        (
            SessionOrchestrator {
                mode,
                phase: SessionPhase::Booting,
                launcher: l,
                control_port: Option::None,
                outcome: Option::None,
                clear_requests: 0,
            },
            SessionAction::Launch(a),
        )
    }

    /// Begin a session for the given launch configuration and run mode. The
    /// returned action opens the launch sequence.
    pub fn new(args: &StartArgs, mode: RunType) -> (r: (SessionOrchestrator, SessionAction))
        ensures
            r == SessionOrchestrator::spec_new(args.rpc_port, mode),
            r.0.inv(),
    {
        let (l, a) = NodeLauncher::new(args.rpc_port);
        (
            SessionOrchestrator {
                mode,
                phase: SessionPhase::Booting,
                launcher: l,
                control_port: Option::None,
                outcome: Option::None,
                clear_requests: 0,
            },
            SessionAction::Launch(a),
        )
    }

    /// The transition relation of a session. While booting, launch events
    /// are delegated to the launcher; a refused launch (`AlreadyRunning`)
    /// ends the session with no cleanup, any other launch failure goes
    /// through cleanup first. While live, the three race sources are
    /// resolved as the shutdown-race table prescribes. An event that calls
    /// for no work leaves the session unchanged.
    pub open spec fn spec_step(self, event: SessionEvent) -> (SessionOrchestrator, SessionAction) {
        let SessionOrchestrator { mode, phase, launcher, control_port, outcome, clear_requests } =
            self;
        match (phase, event) {
            (SessionPhase::Booting, SessionEvent::Launch(le)) => {
                let (l2, act) = launcher.spec_step(le);
                match act {
                    LaunchAction::Succeed(p) => (
                        SessionOrchestrator {
                            mode,
                            phase: SessionPhase::Live,
                            launcher: l2,
                            control_port: Option::Some(p),
                            outcome,
                            clear_requests,
                        },
                        SessionAction::SpawnCommand(p),
                    ),
                    LaunchAction::Fail(LaunchError::AlreadyRunning(p)) => (
                        SessionOrchestrator {
                            mode,
                            phase: SessionPhase::Done,
                            launcher: l2,
                            control_port,
                            outcome: Option::Some(
                                Result::Err(SessionError::AlreadyRunning(p)),
                            ),
                            clear_requests,
                        },
                        SessionAction::Finish,
                    ),
                    LaunchAction::Fail(e) => (
                        SessionOrchestrator {
                            mode,
                            phase: SessionPhase::Clearing,
                            launcher: l2,
                            control_port,
                            outcome: Option::Some(Result::Err(spec_error_of_launch(e))),
                            clear_requests: (clear_requests + 1) as u64,
                        },
                        SessionAction::ClearStatus,
                    ),
                    a => (
                        SessionOrchestrator {
                            mode,
                            phase: SessionPhase::Booting,
                            launcher: l2,
                            control_port,
                            outcome,
                            clear_requests,
                        },
                        SessionAction::Launch(a),
                    ),
                }
            },
            (SessionPhase::Live, SessionEvent::Interrupted) => (
                SessionOrchestrator {
                    mode,
                    phase: SessionPhase::InterruptAbortingCommand,
                    launcher,
                    control_port,
                    outcome,
                    clear_requests,
                },
                SessionAction::AbortCommand,
            ),
            (SessionPhase::Live, SessionEvent::CommandFinished(res)) => {
                match spec_command_completion(mode, res) {
                    Option::None => (
                        SessionOrchestrator {
                            mode,
                            phase: SessionPhase::Live,
                            launcher,
                            control_port,
                            outcome,
                            clear_requests,
                        },
                        SessionAction::KeepWaiting,
                    ),
                    Option::Some(done) => (
                        SessionOrchestrator {
                            mode,
                            phase: SessionPhase::CommandStoppingNode(done),
                            launcher,
                            control_port,
                            outcome,
                            clear_requests,
                        },
                        SessionAction::RequestNodeShutdown,
                    ),
                }
            },
            (SessionPhase::Live, SessionEvent::NodeExited(r)) => (
                SessionOrchestrator {
                    mode,
                    phase: SessionPhase::NodeExitAbortingCommand(r),
                    launcher,
                    control_port,
                    outcome,
                    clear_requests,
                },
                SessionAction::AbortCommand,
            ),
            (SessionPhase::InterruptAbortingCommand, SessionEvent::CommandAborted) => (
                SessionOrchestrator {
                    mode,
                    phase: SessionPhase::InterruptStoppingNode,
                    launcher,
                    control_port,
                    outcome,
                    clear_requests,
                },
                SessionAction::RequestNodeShutdown,
            ),
            (SessionPhase::InterruptStoppingNode, SessionEvent::ShutdownRequested) => (
                SessionOrchestrator {
                    mode,
                    phase: SessionPhase::InterruptAwaitingNode,
                    launcher,
                    control_port,
                    outcome,
                    clear_requests,
                },
                SessionAction::AwaitNodeExit,
            ),
            (SessionPhase::InterruptAwaitingNode, SessionEvent::NodeExited(r)) => (
                SessionOrchestrator {
                    mode,
                    phase: SessionPhase::Clearing,
                    launcher,
                    control_port,
                    outcome: Option::Some(spec_outcome_of_node(r)),
                    clear_requests: (clear_requests + 1) as u64,
                },
                SessionAction::ClearStatus,
            ),
            (SessionPhase::CommandStoppingNode(c), SessionEvent::ShutdownRequested) => (
                SessionOrchestrator {
                    mode,
                    phase: SessionPhase::CommandAwaitingNode(c),
                    launcher,
                    control_port,
                    outcome,
                    clear_requests,
                },
                SessionAction::AwaitNodeExit,
            ),
            (SessionPhase::CommandAwaitingNode(c), SessionEvent::NodeExited(_)) => (
                SessionOrchestrator {
                    mode,
                    phase: SessionPhase::Clearing,
                    launcher,
                    control_port,
                    outcome: Option::Some(spec_outcome_of_command(c)),
                    clear_requests: (clear_requests + 1) as u64,
                },
                SessionAction::ClearStatus,
            ),
            (SessionPhase::NodeExitAbortingCommand(r), SessionEvent::CommandAborted) => (
                SessionOrchestrator {
                    mode,
                    phase: SessionPhase::Clearing,
                    launcher,
                    control_port,
                    outcome: Option::Some(spec_outcome_of_node(r)),
                    clear_requests: (clear_requests + 1) as u64,
                },
                SessionAction::ClearStatus,
            ),
            (SessionPhase::Clearing, SessionEvent::StatusCleared) => (
                SessionOrchestrator {
                    mode,
                    phase: SessionPhase::Done,
                    launcher,
                    control_port,
                    outcome,
                    clear_requests,
                },
                SessionAction::Finish,
            ),
            (phase, _) => (
                SessionOrchestrator {
                    mode,
                    phase,
                    launcher,
                    control_port,
                    outcome,
                    clear_requests,
                },
                SessionAction::KeepWaiting,
            ),
        }
    }

    /// Advance the session by one outcome of outside work.
    pub fn step(self, event: SessionEvent) -> (r: (SessionOrchestrator, SessionAction))
        requires
            self.inv(),
        ensures
            r == self.spec_step(event),
            r.0.inv(),
    {
        let SessionOrchestrator { mode, phase, launcher, control_port, outcome, clear_requests } =
            self;
        match (phase, event) {
            (SessionPhase::Booting, SessionEvent::Launch(le)) => {
                let (l2, act) = launcher.step(le);
                match act {
                    LaunchAction::Succeed(p) => (
                        SessionOrchestrator {
                            mode,
                            phase: SessionPhase::Live,
                            launcher: l2,
                            control_port: Option::Some(p),
                            outcome,
                            clear_requests,
                        },
                        SessionAction::SpawnCommand(p),
                    ),
                    LaunchAction::Fail(LaunchError::AlreadyRunning(p)) => (
                        SessionOrchestrator {
                            mode,
                            phase: SessionPhase::Done,
                            launcher: l2,
                            control_port,
                            outcome: Option::Some(
                                Result::Err(SessionError::AlreadyRunning(p)),
                            ),
                            clear_requests,
                        },
                        SessionAction::Finish,
                    ),
                    LaunchAction::Fail(e) => (
                        SessionOrchestrator {
                            mode,
                            phase: SessionPhase::Clearing,
                            launcher: l2,
                            control_port,
                            outcome: Option::Some(Result::Err(error_of_launch(e))),
                            clear_requests: clear_requests + 1,
                        },
                        SessionAction::ClearStatus,
                    ),
                    a => (
                        SessionOrchestrator {
                            mode,
                            phase: SessionPhase::Booting,
                            launcher: l2,
                            control_port,
                            outcome,
                            clear_requests,
                        },
                        SessionAction::Launch(a),
                    ),
                }
            },
            (SessionPhase::Live, SessionEvent::Interrupted) => (
                SessionOrchestrator {
                    mode,
                    phase: SessionPhase::InterruptAbortingCommand,
                    launcher,
                    control_port,
                    outcome,
                    clear_requests,
                },
                SessionAction::AbortCommand,
            ),
            (SessionPhase::Live, SessionEvent::CommandFinished(res)) => {
                match command_task_completion(mode, res) {
                    Option::None => (
                        SessionOrchestrator {
                            mode,
                            phase: SessionPhase::Live,
                            launcher,
                            control_port,
                            outcome,
                            clear_requests,
                        },
                        SessionAction::KeepWaiting,
                    ),
                    Option::Some(done) => (
                        SessionOrchestrator {
                            mode,
                            phase: SessionPhase::CommandStoppingNode(done),
                            launcher,
                            control_port,
                            outcome,
                            clear_requests,
                        },
                        SessionAction::RequestNodeShutdown,
                    ),
                }
            },
            (SessionPhase::Live, SessionEvent::NodeExited(r)) => (
                SessionOrchestrator {
                    mode,
                    phase: SessionPhase::NodeExitAbortingCommand(r),
                    launcher,
                    control_port,
                    outcome,
                    clear_requests,
                },
                SessionAction::AbortCommand,
            ),
            (SessionPhase::InterruptAbortingCommand, SessionEvent::CommandAborted) => (
                SessionOrchestrator {
                    mode,
                    phase: SessionPhase::InterruptStoppingNode,
                    launcher,
                    control_port,
                    outcome,
                    clear_requests,
                },
                SessionAction::RequestNodeShutdown,
            ),
            (SessionPhase::InterruptStoppingNode, SessionEvent::ShutdownRequested) => (
                SessionOrchestrator {
                    mode,
                    phase: SessionPhase::InterruptAwaitingNode,
                    launcher,
                    control_port,
                    outcome,
                    clear_requests,
                },
                SessionAction::AwaitNodeExit,
            ),
            (SessionPhase::InterruptAwaitingNode, SessionEvent::NodeExited(r)) => (
                SessionOrchestrator {
                    mode,
                    phase: SessionPhase::Clearing,
                    launcher,
                    control_port,
                    outcome: Option::Some(outcome_of_node(r)),
                    clear_requests: clear_requests + 1,
                },
                SessionAction::ClearStatus,
            ),
            (SessionPhase::CommandStoppingNode(c), SessionEvent::ShutdownRequested) => (
                SessionOrchestrator {
                    mode,
                    phase: SessionPhase::CommandAwaitingNode(c),
                    launcher,
                    control_port,
                    outcome,
                    clear_requests,
                },
                SessionAction::AwaitNodeExit,
            ),
            (SessionPhase::CommandAwaitingNode(c), SessionEvent::NodeExited(_)) => (
                SessionOrchestrator {
                    mode,
                    phase: SessionPhase::Clearing,
                    launcher,
                    control_port,
                    outcome: Option::Some(outcome_of_command(c)),
                    clear_requests: clear_requests + 1,
                },
                SessionAction::ClearStatus,
            ),
            (SessionPhase::NodeExitAbortingCommand(r), SessionEvent::CommandAborted) => (
                SessionOrchestrator {
                    mode,
                    phase: SessionPhase::Clearing,
                    launcher,
                    control_port,
                    outcome: Option::Some(outcome_of_node(r)),
                    clear_requests: clear_requests + 1,
                },
                SessionAction::ClearStatus,
            ),
            (SessionPhase::Clearing, SessionEvent::StatusCleared) => (
                SessionOrchestrator {
                    mode,
                    phase: SessionPhase::Done,
                    launcher,
                    control_port,
                    outcome,
                    clear_requests,
                },
                SessionAction::Finish,
            ),
            (phase, _) => (
                SessionOrchestrator {
                    mode,
                    phase,
                    launcher,
                    control_port,
                    outcome,
                    clear_requests,
                },
                SessionAction::KeepWaiting,
            ),
        }
    }
}

/// What one session action does to the persisted record when the driver
/// performs it: a store writes the encoded `Running` record, a clear removes
/// it, and no other action touches it.
pub open spec fn spec_apply_to_record(record: Option<Seq<u8>>, a: SessionAction) -> Option<
    Seq<u8>,
> {
    match a {
        SessionAction::Launch(LaunchAction::StoreStatus(p)) => Option::Some(
            spec_encode_status(p),
        ),
        SessionAction::ClearStatus => Option::None,
        _ => record,
    }
}

/// A launch attempt against a data directory whose persisted status is
/// `Running(p)` is refused with `AlreadyRunning(p)` and has zero side
/// effects: no listener was bound, the persisted record was neither
/// overwritten nor cleared.
pub proof fn lemma_already_running_refused_without_side_effects(
    preferred_port: u16,
    mode: RunType,
    p: u16,
)
    ensures
        ({
            let (s0, a0) = SessionOrchestrator::spec_new(preferred_port, mode);
            let (s1, a1) = s0.spec_step(
                SessionEvent::Launch(LaunchEvent::StatusLoaded(RunStatus::Running(p))),
            );
            &&& a0 == SessionAction::Launch(LaunchAction::LoadStatus)
            &&& a1 == SessionAction::Finish
            &&& s1.phase == SessionPhase::Done
            &&& s1.outcome == Option::Some(
                Result::<(), SessionError>::Err(SessionError::AlreadyRunning(p)),
            )
            &&& s1.launcher.bind_requests == 0
            &&& s1.launcher.store_requests == 0
            &&& s1.clear_requests == 0
        }),
{
}

/// A refused launch leaves any persisted record exactly as it was: neither
/// of the two actions such a session ever issues touches the record, so the
/// running node's own `Running` record survives untouched.
pub proof fn lemma_refused_launch_preserves_record(
    preferred_port: u16,
    mode: RunType,
    p: u16,
    record: Option<Seq<u8>>,
)
    ensures
        ({
            let (s0, a0) = SessionOrchestrator::spec_new(preferred_port, mode);
            let (s1, a1) = s0.spec_step(
                SessionEvent::Launch(LaunchEvent::StatusLoaded(RunStatus::Running(p))),
            );
            spec_apply_to_record(spec_apply_to_record(record, a0), a1) == record
        }),
{
}

/// When the preferred port is occupied and the ephemeral retry is granted a
/// port, the record the session persists is the encoded `Running` record for
/// the granted port: it reads back as `Running(granted)` and — the occupied
/// preferred port being one the retry cannot be granted — never as `Running`
/// on the preferred port.
pub proof fn lemma_conflict_session_persists_granted_port(
    s: SessionOrchestrator,
    granted: u16,
    record: Option<Seq<u8>>,
)
    requires
        s.inv(),
        s.phase == SessionPhase::Booting,
        s.launcher.state == LaunchState::BindingPreferred,
        granted != s.launcher.preferred_port,
    ensures
        ({
            let (s1, a1) = s.spec_step(
                SessionEvent::Launch(
                    LaunchEvent::BindFinished(Result::Err(BindFailure::AddrInUse)),
                ),
            );
            let (s2, a2) = s1.spec_step(
                SessionEvent::Launch(LaunchEvent::BindFinished(Result::Ok(granted))),
            );
            let stored = spec_apply_to_record(spec_apply_to_record(record, a1), a2);
            &&& a1 == SessionAction::Launch(LaunchAction::BindControl(EPHEMERAL_PORT))
            &&& a2 == SessionAction::Launch(LaunchAction::StoreStatus(granted))
            &&& stored == Option::Some(spec_encode_status(granted))
            &&& spec_decode_status(stored) == RunStatus::Running(granted)
            &&& spec_decode_status(stored) != RunStatus::Running(s.launcher.preferred_port)
        }),
{
    lemma_status_round_trip(granted);
}

/// Whatever record a session holds when its race resolves or its launch
/// fails, the cleanup pass leaves none: after the `ClearStatus` action the
/// record is absent and reads back as `Stopped`.
pub proof fn lemma_cleared_record_reads_stopped(record: Option<Seq<u8>>)
    ensures
        ({
            let cleared = spec_apply_to_record(record, SessionAction::ClearStatus);
            &&& cleared is None
            &&& spec_decode_status(cleared) == RunStatus::Stopped
        }),
{
}

/// A preferred-port bind failure other than an in-use conflict fails the
/// launch with the bind error, without ever persisting `Running`: whatever
/// status the directory held before the attempt — absent or `Stopped` — is
/// what the attempt leaves behind, and the one cleanup pass follows.
pub proof fn lemma_other_bind_failure_fails_launch(s: SessionOrchestrator, m: String)
    requires
        s.inv(),
        s.phase == SessionPhase::Booting,
        s.launcher.state == LaunchState::BindingPreferred,
    ensures
        ({
            let (s1, a1) = s.spec_step(
                SessionEvent::Launch(
                    LaunchEvent::BindFinished(Result::Err(BindFailure::OtherFailure(m))),
                ),
            );
            &&& a1 == SessionAction::ClearStatus
            &&& s1.phase == SessionPhase::Clearing
            &&& s1.outcome == Option::Some(
                Result::<(), SessionError>::Err(
                    SessionError::Bind(BindFailure::OtherFailure(m)),
                ),
            )
            &&& s1.launcher.store_requests == 0
        }),
{
}

/// Under `SingleCommand`, a command that completes successfully ends the
/// session: the node is asked to shut down, its termination result is
/// discarded in favour of the command's success, and after the one cleanup
/// pass the session reports success.
pub proof fn lemma_single_command_success_ends_session(
    s: SessionOrchestrator,
    node_res: Result<(), String>,
)
    requires
        s.inv(),
        s.phase == SessionPhase::Live,
        s.mode == RunType::SingleCommand,
    ensures
        ({
            let (s1, a1) = s.spec_step(SessionEvent::CommandFinished(Result::Ok(())));
            let (s2, a2) = s1.spec_step(SessionEvent::ShutdownRequested);
            let (s3, a3) = s2.spec_step(SessionEvent::NodeExited(node_res));
            let (s4, a4) = s3.spec_step(SessionEvent::StatusCleared);
            &&& a1 == SessionAction::RequestNodeShutdown
            &&& a2 == SessionAction::AwaitNodeExit
            &&& a3 == SessionAction::ClearStatus
            &&& a4 == SessionAction::Finish
            &&& s4.phase == SessionPhase::Done
            &&& s4.outcome == Option::Some(Result::<(), SessionError>::Ok(()))
            &&& s4.clear_requests == 1
        }),
{
}

/// Under `UntilStopped`, a command that completes successfully does not end
/// the session: the session is left exactly as it was, still live, and no
/// shutdown work is asked for. Only an interrupt or the node's own exit can
/// end it.
pub proof fn lemma_until_stopped_outlives_command_success(s: SessionOrchestrator)
    requires
        s.inv(),
        s.phase == SessionPhase::Live,
        s.mode == RunType::UntilStopped,
    ensures
        s.spec_step(SessionEvent::CommandFinished(Result::Ok(()))) == (
            s,
            SessionAction::KeepWaiting,
        ),
{
}

/// An interrupt received while the session is live always runs the full
/// shutdown order: the command task is aborted first, then the node is asked
/// to shut down, its termination is awaited and its result becomes the
/// session's outcome, and the persisted status is cleared exactly once.
pub proof fn lemma_interrupt_always_cleans_up(
    s: SessionOrchestrator,
    node_res: Result<(), String>,
)
    requires
        s.inv(),
        s.phase == SessionPhase::Live,
    ensures
        ({
            let (s1, a1) = s.spec_step(SessionEvent::Interrupted);
            let (s2, a2) = s1.spec_step(SessionEvent::CommandAborted);
            let (s3, a3) = s2.spec_step(SessionEvent::ShutdownRequested);
            let (s4, a4) = s3.spec_step(SessionEvent::NodeExited(node_res));
            let (s5, a5) = s4.spec_step(SessionEvent::StatusCleared);
            &&& a1 == SessionAction::AbortCommand
            &&& a2 == SessionAction::RequestNodeShutdown
            &&& a3 == SessionAction::AwaitNodeExit
            &&& a4 == SessionAction::ClearStatus
            &&& a5 == SessionAction::Finish
            &&& s5.phase == SessionPhase::Done
            &&& s5.outcome == Option::Some(spec_outcome_of_node(node_res))
            &&& s5.clear_requests == 1
        }),
{
}

/// Cleanup strictly follows resolution: a session that has asked for its
/// status record to be cleared has already decided its one terminal outcome,
/// so the record is never removed while the session's end is still open.
pub proof fn lemma_clear_follows_resolution(s: SessionOrchestrator)
    requires
        s.inv(),
        s.clear_requests == 1,
    ensures
        s.outcome is Some,
{
}

/// Cleanup happens exactly once. A step issues `ClearStatus` exactly when it
/// increments `clear_requests`, which never decreases; and a finished
/// session has issued it exactly once — except for a launch refused as
/// already running, which by design mutates nothing.
pub proof fn lemma_cleanup_exactly_once(s: SessionOrchestrator, event: SessionEvent)
    requires
        s.inv(),
    ensures
        ({
            let (s2, a) = s.spec_step(event);
            &&& s2.clear_requests == s.clear_requests + (
            if a == SessionAction::ClearStatus {
                1int
            } else {
                0int
            })
            &&& s2.clear_requests <= 1
        }),
        s.phase == SessionPhase::Done && !(s.outcome matches Option::Some(Result::Err(
            SessionError::AlreadyRunning(_),
        ))) ==> s.clear_requests == 1,
{
}

} // verus!
