use iroh_start::binder::{
    ephemeral_bind_directive, preferred_bind_directive, BindDirective, BindFailure,
    EPHEMERAL_PORT,
};
use iroh_start::config::{
    identity_source, IdentitySource, RequestTokenOptions, RunType, StartArgs, DEFAULT_RPC_PORT,
};
use iroh_start::race::{command_task_completion, pick_branch, RaceBranch};

#[test]
fn preferred_bind_success_is_accepted() {
    assert_eq!(
        preferred_bind_directive(Ok(4919)),
        BindDirective::AcceptPort(4919)
    );
}

#[test]
fn preferred_bind_conflict_retries_ephemeral() {
    assert_eq!(
        preferred_bind_directive(Err(BindFailure::AddrInUse)),
        BindDirective::RetryEphemeral
    );
    assert_eq!(EPHEMERAL_PORT, 0);
}

#[test]
fn preferred_bind_other_failure_is_fatal() {
    let err = BindFailure::OtherFailure(String::from("permission denied"));
    assert_eq!(
        preferred_bind_directive(Err(err.clone())),
        BindDirective::FailBind(err)
    );
}

#[test]
fn ephemeral_bind_never_retries() {
    assert_eq!(
        ephemeral_bind_directive(Ok(50000)),
        BindDirective::AcceptPort(50000)
    );
    assert_eq!(
        ephemeral_bind_directive(Err(BindFailure::AddrInUse)),
        BindDirective::FailBind(BindFailure::AddrInUse)
    );
    let err = BindFailure::OtherFailure(String::from("out of descriptors"));
    assert_eq!(
        ephemeral_bind_directive(Err(err.clone())),
        BindDirective::FailBind(err)
    );
}

#[test]
fn race_bias_interrupt_first_then_command_then_node() {
    for command in [false, true] {
        for node in [false, true] {
            assert_eq!(
                pick_branch(true, command, node),
                Some(RaceBranch::InterruptBranch)
            );
        }
    }
    for node in [false, true] {
        assert_eq!(pick_branch(false, true, node), Some(RaceBranch::CommandBranch));
    }
    assert_eq!(pick_branch(false, false, true), Some(RaceBranch::NodeBranch));
    assert_eq!(pick_branch(false, false, false), None);
}

#[test]
fn command_completion_follows_run_mode() {
    assert_eq!(
        command_task_completion(RunType::SingleCommand, Ok(())),
        Some(Ok(()))
    );
    assert_eq!(command_task_completion(RunType::UntilStopped, Ok(())), None);
    assert_eq!(
        command_task_completion(RunType::SingleCommand, Err(String::from("boom"))),
        Some(Err(String::from("boom")))
    );
    assert_eq!(
        command_task_completion(RunType::UntilStopped, Err(String::from("boom"))),
        Some(Err(String::from("boom")))
    );
}

#[test]
fn default_control_port() {
    assert_eq!(DEFAULT_RPC_PORT, 4919);
}

#[test]
fn identity_comes_from_path_or_is_ephemeral() {
    assert_eq!(
        identity_source(Some(String::from("/data/keypair"))),
        IdentitySource::LoadFromPath(String::from("/data/keypair"))
    );
    assert_eq!(identity_source(None), IdentitySource::GenerateEphemeral);
}

#[test]
fn request_token_resolution() {
    let none = StartArgs { rpc_port: 4919, request_token: None };
    assert_eq!(none.request_token(vec![9, 9, 9]), None);

    let random = StartArgs {
        rpc_port: 4919,
        request_token: Some(RequestTokenOptions::Random),
    };
    assert_eq!(random.request_token(vec![9, 9, 9]), Some(vec![9, 9, 9]));

    let fixed = StartArgs {
        rpc_port: 4919,
        request_token: Some(RequestTokenOptions::Token(vec![1, 2, 3])),
    };
    assert_eq!(fixed.request_token(vec![9, 9, 9]), Some(vec![1, 2, 3]));
}
