use iroh_start::binder::BindFailure;
use iroh_start::launcher::{
    LaunchAction, LaunchError, LaunchEvent, LaunchState, NodeLauncher,
};
use iroh_start::status::RunStatus;

#[test]
fn happy_path_on_preferred_port() {
    let (l, a) = NodeLauncher::new(4919);
    assert_eq!(a, LaunchAction::LoadStatus);

    let (l, a) = l.step(LaunchEvent::StatusLoaded(RunStatus::Stopped));
    assert_eq!(a, LaunchAction::CreateDirs);

    let (l, a) = l.step(LaunchEvent::DirsCreated);
    assert_eq!(a, LaunchAction::AcquireIdentity);

    let (l, a) = l.step(LaunchEvent::IdentityAcquired);
    assert_eq!(a, LaunchAction::BindControl(4919));

    let (l, a) = l.step(LaunchEvent::BindFinished(Ok(4919)));
    assert_eq!(a, LaunchAction::StoreStatus(4919));

    let (l, a) = l.step(LaunchEvent::StatusStored);
    assert_eq!(a, LaunchAction::StartNode(4919));

    let (l, a) = l.step(LaunchEvent::NodeStarted);
    assert_eq!(a, LaunchAction::Succeed(4919));
    assert_eq!(l.state, LaunchState::Launched(4919));
    assert_eq!(l.bind_requests, 1);
    assert_eq!(l.store_requests, 1);
}

#[test]
fn already_running_refuses_with_port_and_touches_nothing() {
    let (l, _) = NodeLauncher::new(4919);
    let (l, a) = l.step(LaunchEvent::StatusLoaded(RunStatus::Running(4919)));
    assert_eq!(a, LaunchAction::Fail(LaunchError::AlreadyRunning(4919)));
    assert_eq!(l.state, LaunchState::Aborted);
    assert_eq!(l.bind_requests, 0);
    assert_eq!(l.store_requests, 0);
}

#[test]
fn dir_creation_failure_is_fatal() {
    let (l, _) = NodeLauncher::new(4919);
    let (l, _) = l.step(LaunchEvent::StatusLoaded(RunStatus::Stopped));
    let (l, a) = l.step(LaunchEvent::DirsFailed(String::from("read-only filesystem")));
    assert_eq!(
        a,
        LaunchAction::Fail(LaunchError::StorageInit(String::from(
            "read-only filesystem"
        )))
    );
    assert_eq!(l.state, LaunchState::Aborted);
    assert_eq!(l.store_requests, 0);
}

#[test]
fn identity_failure_is_fatal() {
    let (l, _) = NodeLauncher::new(4919);
    let (l, _) = l.step(LaunchEvent::StatusLoaded(RunStatus::Stopped));
    let (l, _) = l.step(LaunchEvent::DirsCreated);
    let (l, a) = l.step(LaunchEvent::IdentityFailed(String::from("corrupt key file")));
    assert_eq!(
        a,
        LaunchAction::Fail(LaunchError::Identity(String::from("corrupt key file")))
    );
    assert_eq!(l.state, LaunchState::Aborted);
    assert_eq!(l.bind_requests, 0);
}

#[test]
fn port_conflict_falls_back_to_ephemeral_once() {
    let (l, _) = NodeLauncher::new(4919);
    let (l, _) = l.step(LaunchEvent::StatusLoaded(RunStatus::Stopped));
    let (l, _) = l.step(LaunchEvent::DirsCreated);
    let (l, a) = l.step(LaunchEvent::IdentityAcquired);
    assert_eq!(a, LaunchAction::BindControl(4919));

    let (l, a) = l.step(LaunchEvent::BindFinished(Err(BindFailure::AddrInUse)));
    assert_eq!(a, LaunchAction::BindControl(0));
    assert_eq!(l.state, LaunchState::BindingEphemeral);

    let (l, a) = l.step(LaunchEvent::BindFinished(Ok(50321)));
    assert_eq!(a, LaunchAction::StoreStatus(50321));
    assert_eq!(l.state, LaunchState::StoringStatus(50321));
    assert_eq!(l.bind_requests, 2);
}

#[test]
fn non_conflict_bind_failure_aborts_without_retry() {
    let (l, _) = NodeLauncher::new(4919);
    let (l, _) = l.step(LaunchEvent::StatusLoaded(RunStatus::Stopped));
    let (l, _) = l.step(LaunchEvent::DirsCreated);
    let (l, _) = l.step(LaunchEvent::IdentityAcquired);
    let (l, a) = l.step(LaunchEvent::BindFinished(Err(BindFailure::OtherFailure(
        String::from("permission denied"),
    ))));
    assert_eq!(
        a,
        LaunchAction::Fail(LaunchError::Bind(BindFailure::OtherFailure(String::from(
            "permission denied"
        ))))
    );
    assert_eq!(l.state, LaunchState::Aborted);
    assert_eq!(l.store_requests, 0);
}

#[test]
fn ephemeral_bind_failure_is_fatal() {
    let (l, _) = NodeLauncher::new(4919);
    let (l, _) = l.step(LaunchEvent::StatusLoaded(RunStatus::Stopped));
    let (l, _) = l.step(LaunchEvent::DirsCreated);
    let (l, _) = l.step(LaunchEvent::IdentityAcquired);
    let (l, _) = l.step(LaunchEvent::BindFinished(Err(BindFailure::AddrInUse)));
    let (l, a) = l.step(LaunchEvent::BindFinished(Err(BindFailure::AddrInUse)));
    assert_eq!(a, LaunchAction::Fail(LaunchError::Bind(BindFailure::AddrInUse)));
    assert_eq!(l.state, LaunchState::Aborted);
    assert_eq!(l.store_requests, 0);
}

#[test]
fn store_failure_is_fatal() {
    let (l, _) = NodeLauncher::new(4919);
    let (l, _) = l.step(LaunchEvent::StatusLoaded(RunStatus::Stopped));
    let (l, _) = l.step(LaunchEvent::DirsCreated);
    let (l, _) = l.step(LaunchEvent::IdentityAcquired);
    let (l, _) = l.step(LaunchEvent::BindFinished(Ok(4919)));
    let (l, a) = l.step(LaunchEvent::StoreFailed(String::from("disk full")));
    assert_eq!(
        a,
        LaunchAction::Fail(LaunchError::StorageInit(String::from("disk full")))
    );
    assert_eq!(l.state, LaunchState::Aborted);
}

#[test]
fn node_construction_failure_comes_after_store() {
    let (l, _) = NodeLauncher::new(4919);
    let (l, _) = l.step(LaunchEvent::StatusLoaded(RunStatus::Stopped));
    let (l, _) = l.step(LaunchEvent::DirsCreated);
    let (l, _) = l.step(LaunchEvent::IdentityAcquired);
    let (l, _) = l.step(LaunchEvent::BindFinished(Ok(4919)));
    let (l, _) = l.step(LaunchEvent::StatusStored);
    let (l, a) = l.step(LaunchEvent::NodeFailed(String::from("spawn failed")));
    assert_eq!(
        a,
        LaunchAction::Fail(LaunchError::NodeConstruction(String::from("spawn failed")))
    );
    assert_eq!(l.state, LaunchState::Aborted);
    // the Running record was already persisted; the session must still clear it
    assert_eq!(l.store_requests, 1);
}
