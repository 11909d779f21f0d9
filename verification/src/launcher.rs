//! Launch sequencing.
//!
//! `NodeLauncher` drives one launch attempt as a state machine: check the
//! persisted run status, prepare storage directories, acquire the node's
//! secret identity, bind the control listener (with the one ephemeral
//! fallback), persist the bound port, and construct the node. Each `step`
//! consumes the outcome of the previous piece of outside work and returns
//! the next action for the driver to perform. A launch refused because a
//! node is already running mutates nothing: the abort happens before any
//! directory, bind or store action is ever issued.

use vstd::prelude::*;

use crate::binder::BindFailure;
use crate::binder::EPHEMERAL_PORT;
use crate::binder::BindDirective;
use crate::binder::preferred_bind_directive;
use crate::binder::ephemeral_bind_directive;
use crate::binder::spec_preferred_directive;
use crate::binder::spec_ephemeral_directive;
use crate::status::RunStatus;

verus! {

/// Where a launch attempt stands: each non-terminal state waits for the
/// outcome of exactly one piece of outside work.
#[derive(Debug, PartialEq, Eq, Clone)]
pub enum LaunchState {
    /// Waiting for the persisted run status to be read.
    LoadingStatus,
    /// Waiting for the storage directories to be created.
    CreatingDirs,
    /// Waiting for the secret identity to be loaded or generated.
    AcquiringIdentity,
    /// Waiting for the bind attempt against the preferred port.
    BindingPreferred,
    /// Waiting for the bind attempt against an OS-assigned ephemeral port.
    BindingEphemeral,
    /// Waiting for `Running(port)` to be persisted; `port` is the port the
    /// listener was actually granted.
    StoringStatus(u16),
    /// Waiting for the node itself to be constructed on `port`.
    StartingNode(u16),
    /// The node is up and its control port is persisted.
    Launched(u16),
    /// The launch failed; the error went out with the failing action.
    Aborted,
}

/// The outcome of one piece of outside work, fed back by the driver.
#[derive(Debug, PartialEq, Eq)]
pub enum LaunchEvent {
    /// The persisted run status was read.
    StatusLoaded(RunStatus),
    /// The storage directories exist.
    DirsCreated,
    /// Creating a storage directory failed.
    DirsFailed(String),
    /// The secret identity is available.
    IdentityAcquired,
    /// Loading or generating the secret identity failed.
    IdentityFailed(String),
    /// A bind attempt finished, with the granted port or the failure.
    BindFinished(Result<u16, BindFailure>),
    /// The `Running` record was persisted.
    StatusStored,
    /// Persisting the `Running` record failed.
    StoreFailed(String),
    /// The node was constructed and is running.
    NodeStarted,
    /// Constructing the node failed.
    NodeFailed(String),
}

/// The next piece of outside work the driver must perform.
#[derive(Debug, PartialEq, Eq, Clone)]
pub enum LaunchAction {
    /// Read the persisted run status.
    LoadStatus,
    /// Ensure the storage directories exist.
    CreateDirs,
    /// Load or generate the secret identity.
    AcquireIdentity,
    /// Bind the control listener to the given port on loopback.
    BindControl(u16),
    /// Persist `Running` with the given port.
    StoreStatus(u16),
    /// Construct the node; its control listener holds the given port.
    StartNode(u16),
    /// The launch is complete on the given port.
    Succeed(u16),
    /// The launch failed; abort it.
    Fail(LaunchError),
    /// The event did not answer the pending action; nothing to do.
    HoldLaunch,
}

/// Why a launch attempt failed.
#[derive(Debug, PartialEq, Eq, Clone)]
pub enum LaunchError {
    /// A node is already running for this data directory, on the given port.
    AlreadyRunning(u16),
    /// A storage directory could not be created, or the run-status record
    /// could not be persisted to it.
    StorageInit(String),
    /// The secret identity could not be loaded or generated.
    Identity(String),
    /// The control listener could not be bound.
    Bind(BindFailure),
    /// The node itself could not be constructed.
    NodeConstruction(String),
}

/// One launch attempt. `bind_requests` and `store_requests` count the
/// `BindControl` and `StoreStatus` actions issued so far, so that callers
/// can state that a refused or failed launch never touched the listener or
/// the persisted record.
#[derive(Debug, PartialEq, Eq, Clone)]
pub struct NodeLauncher {
    /// Where the attempt stands.
    pub state: LaunchState,
    /// The port the caller asked the control listener to use.
    pub preferred_port: u16,
    /// How many `BindControl` actions this attempt has issued.
    pub bind_requests: u64,
    /// How many `StoreStatus` actions this attempt has issued.
    pub store_requests: u64,
}

impl NodeLauncher {
    /// Well-formedness: the counters match the progress the state implies.
    /// In particular nothing is bound or stored before the status check
    /// passes, and the `Running` record is written exactly once, only after
    /// a successful bind.
    pub open spec fn inv(self) -> bool {
        &&& self.bind_requests <= 2
        &&& self.store_requests <= 1
        &&& match self.state {
            LaunchState::LoadingStatus => self.bind_requests == 0 && self.store_requests == 0,
            LaunchState::CreatingDirs => self.bind_requests == 0 && self.store_requests == 0,
            LaunchState::AcquiringIdentity => self.bind_requests == 0 && self.store_requests == 0,
            LaunchState::BindingPreferred => self.bind_requests == 1 && self.store_requests == 0,
            LaunchState::BindingEphemeral => self.bind_requests == 2 && self.store_requests == 0,
            LaunchState::StoringStatus(_) => self.bind_requests >= 1 && self.store_requests == 1,
            LaunchState::StartingNode(_) => self.bind_requests >= 1 && self.store_requests == 1,
            LaunchState::Launched(_) => self.bind_requests >= 1 && self.store_requests == 1,
            LaunchState::Aborted => true,
        }
    }

    /// The launcher a fresh attempt starts from, together with its first
    /// action.
    pub open spec fn spec_new(preferred_port: u16) -> (NodeLauncher, LaunchAction) {
        (
            NodeLauncher {
                state: LaunchState::LoadingStatus,
                preferred_port,
                bind_requests: 0,
                store_requests: 0,
            },
            LaunchAction::LoadStatus,
        )
    }

    /// Begin a launch attempt against the given preferred control port. The
    /// returned action asks the driver to read the persisted run status.
    pub fn new(preferred_port: u16) -> (r: (NodeLauncher, LaunchAction))
        ensures
            r == NodeLauncher::spec_new(preferred_port),
            r.0.inv(),
    {
        (
            NodeLauncher {
                state: LaunchState::LoadingStatus,
                preferred_port,
                bind_requests: 0,
                store_requests: 0,
            },
            LaunchAction::LoadStatus,
        )
    }

    /// The transition relation of a launch attempt: from a launcher and the
    /// outcome of the pending work, the successor launcher and the next
    /// action. An event that does not answer the pending action leaves the
    /// launcher unchanged and asks for nothing.
    pub open spec fn spec_step(self, event: LaunchEvent) -> (NodeLauncher, LaunchAction) {
        let NodeLauncher { state, preferred_port, bind_requests, store_requests } = self;
        match (state, event) {
            (LaunchState::LoadingStatus, LaunchEvent::StatusLoaded(RunStatus::Stopped)) => (
                NodeLauncher { state: LaunchState::CreatingDirs, preferred_port, bind_requests, store_requests },
                LaunchAction::CreateDirs,
            ),
            (LaunchState::LoadingStatus, LaunchEvent::StatusLoaded(RunStatus::Running(p))) => (
                NodeLauncher { state: LaunchState::Aborted, preferred_port, bind_requests, store_requests },
                LaunchAction::Fail(LaunchError::AlreadyRunning(p)),
            ),
            (LaunchState::CreatingDirs, LaunchEvent::DirsCreated) => (
                NodeLauncher { state: LaunchState::AcquiringIdentity, preferred_port, bind_requests, store_requests },
                LaunchAction::AcquireIdentity,
            ),
            (LaunchState::CreatingDirs, LaunchEvent::DirsFailed(m)) => (
                NodeLauncher { state: LaunchState::Aborted, preferred_port, bind_requests, store_requests },
                LaunchAction::Fail(LaunchError::StorageInit(m)),
            ),
            (LaunchState::AcquiringIdentity, LaunchEvent::IdentityAcquired) => (
                NodeLauncher { state: LaunchState::BindingPreferred, preferred_port, bind_requests: (bind_requests + 1) as u64, store_requests },
                LaunchAction::BindControl(preferred_port),
            ),
            (LaunchState::AcquiringIdentity, LaunchEvent::IdentityFailed(m)) => (
                NodeLauncher { state: LaunchState::Aborted, preferred_port, bind_requests, store_requests },
                LaunchAction::Fail(LaunchError::Identity(m)),
            ),
            (LaunchState::BindingPreferred, LaunchEvent::BindFinished(outcome)) => {
                match spec_preferred_directive(outcome) {
                    BindDirective::AcceptPort(p) => (
                        NodeLauncher { state: LaunchState::StoringStatus(p), preferred_port, bind_requests, store_requests: (store_requests + 1) as u64 },
                        LaunchAction::StoreStatus(p),
                    ),
                    BindDirective::RetryEphemeral => (
                        NodeLauncher { state: LaunchState::BindingEphemeral, preferred_port, bind_requests: (bind_requests + 1) as u64, store_requests },
                        LaunchAction::BindControl(EPHEMERAL_PORT),
                    ),
                    BindDirective::FailBind(f) => (
                        NodeLauncher { state: LaunchState::Aborted, preferred_port, bind_requests, store_requests },
                        LaunchAction::Fail(LaunchError::Bind(f)),
                    ),
                }
            },
            (LaunchState::BindingEphemeral, LaunchEvent::BindFinished(outcome)) => {
                match spec_ephemeral_directive(outcome) {
                    BindDirective::AcceptPort(p) => (
                        NodeLauncher { state: LaunchState::StoringStatus(p), preferred_port, bind_requests, store_requests: (store_requests + 1) as u64 },
                        LaunchAction::StoreStatus(p),
                    ),
                    BindDirective::RetryEphemeral => (
                        NodeLauncher { state: LaunchState::BindingEphemeral, preferred_port, bind_requests, store_requests },
                        LaunchAction::HoldLaunch,
                    ),
                    BindDirective::FailBind(f) => (
                        NodeLauncher { state: LaunchState::Aborted, preferred_port, bind_requests, store_requests },
                        LaunchAction::Fail(LaunchError::Bind(f)),
                    ),
                }
            },
            (LaunchState::StoringStatus(p), LaunchEvent::StatusStored) => (
                NodeLauncher { state: LaunchState::StartingNode(p), preferred_port, bind_requests, store_requests },
                LaunchAction::StartNode(p),
            ),
            (LaunchState::StoringStatus(_), LaunchEvent::StoreFailed(m)) => (
                NodeLauncher { state: LaunchState::Aborted, preferred_port, bind_requests, store_requests },
                LaunchAction::Fail(LaunchError::StorageInit(m)),
            ),
            (LaunchState::StartingNode(p), LaunchEvent::NodeStarted) => (
                NodeLauncher { state: LaunchState::Launched(p), preferred_port, bind_requests, store_requests },
                LaunchAction::Succeed(p),
            ),
            (LaunchState::StartingNode(_), LaunchEvent::NodeFailed(m)) => (
                NodeLauncher { state: LaunchState::Aborted, preferred_port, bind_requests, store_requests },
                LaunchAction::Fail(LaunchError::NodeConstruction(m)),
            ),
            (state, _) => (
                NodeLauncher { state, preferred_port, bind_requests, store_requests },
                LaunchAction::HoldLaunch,
            ),
        }
    }

    /// Advance the attempt by one outcome of outside work.
    pub fn step(self, event: LaunchEvent) -> (r: (NodeLauncher, LaunchAction))
        requires
            self.inv(),
        ensures
            r == self.spec_step(event),
            r.0.inv(),
            r.0.preferred_port == self.preferred_port,
    {
        let NodeLauncher { state, preferred_port, bind_requests, store_requests } = self;
        match (state, event) {
            (LaunchState::LoadingStatus, LaunchEvent::StatusLoaded(RunStatus::Stopped)) => (
                NodeLauncher { state: LaunchState::CreatingDirs, preferred_port, bind_requests, store_requests },
                LaunchAction::CreateDirs,
            ),
            (LaunchState::LoadingStatus, LaunchEvent::StatusLoaded(RunStatus::Running(p))) => (
                NodeLauncher { state: LaunchState::Aborted, preferred_port, bind_requests, store_requests },
                LaunchAction::Fail(LaunchError::AlreadyRunning(p)),
            ),
            (LaunchState::CreatingDirs, LaunchEvent::DirsCreated) => (
                NodeLauncher { state: LaunchState::AcquiringIdentity, preferred_port, bind_requests, store_requests },
                LaunchAction::AcquireIdentity,
            ),
            (LaunchState::CreatingDirs, LaunchEvent::DirsFailed(m)) => (
                NodeLauncher { state: LaunchState::Aborted, preferred_port, bind_requests, store_requests },
                LaunchAction::Fail(LaunchError::StorageInit(m)),
            ),
            (LaunchState::AcquiringIdentity, LaunchEvent::IdentityAcquired) => (
                NodeLauncher { state: LaunchState::BindingPreferred, preferred_port, bind_requests: bind_requests + 1, store_requests },
                LaunchAction::BindControl(preferred_port),
            ),
            (LaunchState::AcquiringIdentity, LaunchEvent::IdentityFailed(m)) => (
                NodeLauncher { state: LaunchState::Aborted, preferred_port, bind_requests, store_requests },
                LaunchAction::Fail(LaunchError::Identity(m)),
            ),
            (LaunchState::BindingPreferred, LaunchEvent::BindFinished(outcome)) => {
                match preferred_bind_directive(outcome) {
                    BindDirective::AcceptPort(p) => (
                        NodeLauncher { state: LaunchState::StoringStatus(p), preferred_port, bind_requests, store_requests: store_requests + 1 },
                        LaunchAction::StoreStatus(p),
                    ),
                    BindDirective::RetryEphemeral => (
                        NodeLauncher { state: LaunchState::BindingEphemeral, preferred_port, bind_requests: bind_requests + 1, store_requests },
                        LaunchAction::BindControl(EPHEMERAL_PORT),
                    ),
                    BindDirective::FailBind(f) => (
                        NodeLauncher { state: LaunchState::Aborted, preferred_port, bind_requests, store_requests },
                        LaunchAction::Fail(LaunchError::Bind(f)),
                    ),
                }
            },
            (LaunchState::BindingEphemeral, LaunchEvent::BindFinished(outcome)) => {
                match ephemeral_bind_directive(outcome) {
                    BindDirective::AcceptPort(p) => (
                        NodeLauncher { state: LaunchState::StoringStatus(p), preferred_port, bind_requests, store_requests: store_requests + 1 },
                        LaunchAction::StoreStatus(p),
                    ),
                    BindDirective::RetryEphemeral => (
                        NodeLauncher { state: LaunchState::BindingEphemeral, preferred_port, bind_requests, store_requests },
                        LaunchAction::HoldLaunch,
                    ),
                    BindDirective::FailBind(f) => (
                        NodeLauncher { state: LaunchState::Aborted, preferred_port, bind_requests, store_requests },
                        LaunchAction::Fail(LaunchError::Bind(f)),
                    ),
                }
            },
            (LaunchState::StoringStatus(p), LaunchEvent::StatusStored) => (
                NodeLauncher { state: LaunchState::StartingNode(p), preferred_port, bind_requests, store_requests },
                LaunchAction::StartNode(p),
            ),
            (LaunchState::StoringStatus(_), LaunchEvent::StoreFailed(m)) => (
                NodeLauncher { state: LaunchState::Aborted, preferred_port, bind_requests, store_requests },
                LaunchAction::Fail(LaunchError::StorageInit(m)),
            ),
            (LaunchState::StartingNode(p), LaunchEvent::NodeStarted) => (
                NodeLauncher { state: LaunchState::Launched(p), preferred_port, bind_requests, store_requests },
                LaunchAction::Succeed(p),
            ),
            (LaunchState::StartingNode(_), LaunchEvent::NodeFailed(m)) => (
                NodeLauncher { state: LaunchState::Aborted, preferred_port, bind_requests, store_requests },
                LaunchAction::Fail(LaunchError::NodeConstruction(m)),
            ),
            (state, _) => (
                NodeLauncher { state, preferred_port, bind_requests, store_requests },
                LaunchAction::HoldLaunch,
            ),
        }
    }
}

/// A persisted `Running(p)` record refuses a fresh launch with
/// `AlreadyRunning(p)`, and the refused attempt has issued no bind and no
/// store: the persisted record and the listener are untouched.
pub proof fn lemma_already_running_refused(preferred_port: u16, p: u16)
    ensures
        ({
            let (l0, a0) = NodeLauncher::spec_new(preferred_port);
            let (l1, a1) = l0.spec_step(LaunchEvent::StatusLoaded(RunStatus::Running(p)));
            &&& a0 == LaunchAction::LoadStatus
            &&& a1 == LaunchAction::Fail(LaunchError::AlreadyRunning(p))
            &&& l1.state == LaunchState::Aborted
            &&& l1.bind_requests == 0
            &&& l1.store_requests == 0
        }),
{
}

/// When the preferred port is occupied, the attempt retries once against an
/// ephemeral port, and the port it then persists is exactly the port the
/// retry was granted. The OS cannot grant the occupied preferred port, so
/// the granted port — here `granted` — differs from the preferred one, and
/// so therefore does the persisted port.
pub proof fn lemma_port_conflict_falls_back(l: NodeLauncher, granted: u16)
    requires
        l.inv(),
        l.state == LaunchState::BindingPreferred,
        granted != l.preferred_port,
    ensures
        ({
            let (l1, a1) = l.spec_step(LaunchEvent::BindFinished(Result::Err(BindFailure::AddrInUse)));
            let (l2, a2) = l1.spec_step(LaunchEvent::BindFinished(Result::Ok(granted)));
            &&& a1 == LaunchAction::BindControl(EPHEMERAL_PORT)
            &&& l1.state == LaunchState::BindingEphemeral
            &&& a2 == LaunchAction::StoreStatus(granted)
            &&& l2.state == LaunchState::StoringStatus(granted)
            &&& (a2 matches LaunchAction::StoreStatus(stored) && stored != l.preferred_port)
        }),
{
}

/// The listener is bound and the `Running` record persisted before the node
/// itself is constructed or considered started: a well-formed attempt that
/// has reached node construction has issued its one store, after a bind.
pub proof fn lemma_store_precedes_start(l: NodeLauncher)
    requires
        l.inv(),
        l.state matches LaunchState::StartingNode(_) || l.state matches LaunchState::Launched(_),
    ensures
        l.store_requests == 1,
        l.bind_requests >= 1,
{
}

/// A preferred-port bind failure other than an in-use conflict aborts the
/// launch at once: no retry, no store — the persisted status never becomes
/// `Running`.
pub proof fn lemma_other_bind_failure_aborts(l: NodeLauncher, m: String)
    requires
        l.inv(),
        l.state == LaunchState::BindingPreferred,
    ensures
        ({
            let (l1, a1) = l.spec_step(LaunchEvent::BindFinished(Result::Err(BindFailure::OtherFailure(m))));
            &&& a1 == LaunchAction::Fail(LaunchError::Bind(BindFailure::OtherFailure(m)))
            &&& l1.state == LaunchState::Aborted
            &&& l1.store_requests == 0
        }),
{
}

} // verus!
