//! Control-listener bind policy.
//!
//! The control listener is bound on the loopback interface. If the preferred
//! port is already in use, the policy retries exactly once against an
//! OS-assigned ephemeral port; any other bind failure is fatal and is
//! propagated without a retry. The bind syscall itself is the driver's work;
//! these functions decide what to do with its outcome.

use vstd::prelude::*;

verus! {

/// Port number that asks the OS to assign an ephemeral port.
pub const EPHEMERAL_PORT: u16 = 0;

/// Why a single bind attempt failed, as the driver observed it.
#[derive(Debug, PartialEq, Eq, Clone)]
pub enum BindFailure {
    /// The requested address is already in use.
    AddrInUse,
    /// Any other failure (permissions, invalid address, exhaustion), with
    /// the driver's description of it.
    OtherFailure(String),
}

/// What to do after a bind attempt.
#[derive(Debug, PartialEq, Eq, Clone)]
pub enum BindDirective {
    /// The listener is bound; `port` is the port actually granted.
    AcceptPort(u16),
    /// Retry once against an OS-assigned ephemeral port.
    RetryEphemeral,
    /// Give up and propagate the failure.
    FailBind(BindFailure),
}

/// Policy for the first attempt, against the preferred port: an in-use
/// conflict earns the one ephemeral retry; everything else is fatal.
pub open spec fn spec_preferred_directive(outcome: Result<u16, BindFailure>) -> BindDirective {
    match outcome {
        Result::Ok(port) => BindDirective::AcceptPort(port),
        Result::Err(BindFailure::AddrInUse) => BindDirective::RetryEphemeral,
        Result::Err(f) => BindDirective::FailBind(f),
    }
}

/// Policy for the ephemeral retry: there is no second retry, so any failure
/// is fatal.
pub open spec fn spec_ephemeral_directive(outcome: Result<u16, BindFailure>) -> BindDirective {
    match outcome {
        Result::Ok(port) => BindDirective::AcceptPort(port),
        Result::Err(f) => BindDirective::FailBind(f),
    }
}

/// Decide what follows the bind attempt against the preferred port.
pub fn preferred_bind_directive(outcome: Result<u16, BindFailure>) -> (d: BindDirective)
    ensures
        d == spec_preferred_directive(outcome),
{
    match outcome {
        Result::Ok(port) => BindDirective::AcceptPort(port),
        Result::Err(BindFailure::AddrInUse) => BindDirective::RetryEphemeral,
        Result::Err(f) => BindDirective::FailBind(f),
    }
}

/// Decide what follows the bind attempt against the ephemeral port.
pub fn ephemeral_bind_directive(outcome: Result<u16, BindFailure>) -> (d: BindDirective)
    ensures
        d == spec_ephemeral_directive(outcome),
{
    match outcome {
        Result::Ok(port) => BindDirective::AcceptPort(port),
        Result::Err(f) => BindDirective::FailBind(f),
    }
}

/// The ephemeral retry is taken exactly on an address-in-use conflict, and
/// never after the retry itself.
pub proof fn lemma_retry_only_on_addr_in_use(outcome: Result<u16, BindFailure>)
    ensures
        spec_preferred_directive(outcome) == BindDirective::RetryEphemeral
            <==> outcome == Result::<u16, BindFailure>::Err(BindFailure::AddrInUse),
        spec_ephemeral_directive(outcome) != BindDirective::RetryEphemeral,
{
}

} // verus!
