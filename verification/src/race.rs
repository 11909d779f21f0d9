//! The shutdown race.
//!
//! A running session ends when the first of three sources fires: an external
//! interrupt, the caller-supplied command task, or the node terminating on
//! its own. When more than one is ready at the same instant, a fixed bias
//! decides: interrupt first, then the command, then the node. The command
//! task itself is shaped by the run mode: under `UntilStopped` a command
//! that succeeds never completes the task, so that only an interrupt or a
//! node failure can end the session.

use vstd::prelude::*;

use crate::config::RunType;

verus! {

/// Which of the three termination sources won the race.
#[derive(Clone, Copy, Debug, PartialEq, Eq, Structural)]
pub enum RaceBranch {
    /// An external interrupt signal was received.
    InterruptBranch,
    /// The command task completed.
    CommandBranch,
    /// The node terminated on its own.
    NodeBranch,
}

/// The race's bias: interrupt beats the command, the command beats the node;
/// no winner while nothing is ready.
pub open spec fn spec_pick_branch(
    interrupt_ready: bool,
    command_ready: bool,
    node_ready: bool,
) -> Option<RaceBranch> {
    if interrupt_ready {
        Option::Some(RaceBranch::InterruptBranch)
    } else if command_ready {
        Option::Some(RaceBranch::CommandBranch)
    } else if node_ready {
        Option::Some(RaceBranch::NodeBranch)
    } else {
        Option::None
    }
}

/// Resolve one round of the race from the readiness of the three sources.
pub fn pick_branch(interrupt_ready: bool, command_ready: bool, node_ready: bool) -> (r: Option<
    RaceBranch,
>)
    ensures
        r == spec_pick_branch(interrupt_ready, command_ready, node_ready),
{
    if interrupt_ready {
        Option::Some(RaceBranch::InterruptBranch)
    } else if command_ready {
        Option::Some(RaceBranch::CommandBranch)
    } else if node_ready {
        Option::Some(RaceBranch::NodeBranch)
    } else {
        Option::None
    }
}

/// The bias is static: a ready interrupt always wins, a ready command loses
/// only to the interrupt, and the node's own exit is heard only when it is
/// alone; the race never resolves while nothing is ready.
pub proof fn lemma_race_bias(interrupt_ready: bool, command_ready: bool, node_ready: bool)
    ensures
        interrupt_ready ==> spec_pick_branch(interrupt_ready, command_ready, node_ready)
            == Option::Some(RaceBranch::InterruptBranch),
        !interrupt_ready && command_ready ==> spec_pick_branch(
            interrupt_ready,
            command_ready,
            node_ready,
        ) == Option::Some(RaceBranch::CommandBranch),
        !interrupt_ready && !command_ready && node_ready ==> spec_pick_branch(
            interrupt_ready,
            command_ready,
            node_ready,
        ) == Option::Some(RaceBranch::NodeBranch),
        !interrupt_ready && !command_ready && !node_ready ==> spec_pick_branch(
            interrupt_ready,
            command_ready,
            node_ready,
        ) is None,
{
}

/// How the command task ends, given the run mode and the command's own
/// result: a failure always completes the task at once; a success completes
/// it under `SingleCommand` and suspends it forever (`None`) under
/// `UntilStopped`.
pub open spec fn spec_command_completion(mode: RunType, res: Result<(), String>) -> Option<
    Result<(), String>,
> {
    match res {
        Result::Err(m) => Option::Some(Result::Err(m)),
        Result::Ok(()) => match mode {
            RunType::SingleCommand => Option::Some(Result::Ok(())),
            RunType::UntilStopped => Option::None,
        },
    }
}

/// Decide whether the command task completes: `Some` is the task's result,
/// `None` means the task enters an unbounded suspended wait and never
/// completes.
pub fn command_task_completion(mode: RunType, res: Result<(), String>) -> (r: Option<
    Result<(), String>,
>)
    ensures
        r == spec_command_completion(mode, res),
{
    match res {
        Result::Err(m) => Option::Some(Result::Err(m)),
        Result::Ok(()) => match mode {
            RunType::SingleCommand => Option::Some(Result::Ok(())),
            RunType::UntilStopped => Option::None,
        },
    }
}

/// Under `UntilStopped`, a successful command never completes the task, so
/// the command branch of the race can fire only on a command failure.
pub proof fn lemma_until_stopped_success_never_completes(res: Result<(), String>)
    ensures
        spec_command_completion(RunType::UntilStopped, Result::Ok(())) is None,
        spec_command_completion(RunType::UntilStopped, res) matches Option::Some(done) ==> (
        res is Err && done == res),
{
}

} // verus!
