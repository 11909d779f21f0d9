//! Launch configuration.
//!
//! `StartArgs` carries the inputs the lifecycle logic reads: the preferred
//! control port and the request-token policy. The bind address, relay
//! topology and the node's storage paths are opaque collaborator concerns
//! that the embedding driver passes straight through to the node.

use vstd::prelude::*;

verus! {

/// The control port used when the caller does not choose one.
pub const DEFAULT_RPC_PORT: u16 = 0x1337;

/// Whether to stop the node after running a command or run forever until
/// stopped.
#[derive(Clone, Copy, Debug, PartialEq, Eq, Structural)]
pub enum RunType {
    /// Run a single command, and then shut the node down.
    SingleCommand,
    /// Run until manually stopped (interrupt or shutdown request).
    UntilStopped,
}

/// Policy for the token that gates data-plane requests.
#[derive(Debug, Clone, PartialEq, Eq)]
pub enum RequestTokenOptions {
    /// Generate a fresh random token for this session.
    Random,
    /// Use the given token bytes.
    Token(Vec<u8>),
}

/// Immutable inputs to a launch.
#[derive(Debug, Clone, PartialEq, Eq)]
pub struct StartArgs {
    /// The control port the node should try to listen on.
    pub rpc_port: u16,
    /// Request-token policy; `None` leaves requests unauthenticated.
    pub request_token: Option<RequestTokenOptions>,
}

/// View of an optional token as an optional byte sequence.
pub open spec fn opt_token_view(token: Option<Vec<u8>>) -> Option<Seq<u8>> {
    match token {
        Option::None => Option::None,
        Option::Some(t) => Option::Some(t@),
    }
}

/// The token a session uses, given the configured policy and a freshly
/// generated candidate: no policy means no token, `Random` adopts the fresh
/// candidate, `Token` uses the configured bytes.
pub open spec fn spec_request_token(
    opt: Option<RequestTokenOptions>,
    fresh: Seq<u8>,
) -> Option<Seq<u8>> {
    match opt {
        Option::None => Option::None,
        Option::Some(RequestTokenOptions::Random) => Option::Some(fresh),
        Option::Some(RequestTokenOptions::Token(t)) => Option::Some(t@),
    }
}

/// Where the node's secret identity comes from.
#[derive(Debug, PartialEq, Eq)]
pub enum IdentitySource {
    /// Load the identity persisted at the given path.
    LoadFromPath(String),
    /// No path is configured: generate a fresh ephemeral identity.
    GenerateEphemeral,
}

/// The identity-acquisition decision: a configured path is loaded, an
/// unconfigured one means a fresh ephemeral identity.
pub open spec fn spec_identity_source(key_path: Option<String>) -> IdentitySource {
    match key_path {
        Option::Some(p) => IdentitySource::LoadFromPath(p),
        Option::None => IdentitySource::GenerateEphemeral,
    }
}

/// Decide how the node's secret identity is acquired.
pub fn identity_source(key_path: Option<String>) -> (r: IdentitySource)
    ensures
        r == spec_identity_source(key_path),
{
    match key_path {
        Option::Some(p) => IdentitySource::LoadFromPath(p),
        Option::None => IdentitySource::GenerateEphemeral,
    }
}

impl StartArgs {
    /// Resolve the request-token policy to the token this session will use.
    ///
    /// Random bytes cannot be drawn here, so the driver supplies a freshly
    /// generated candidate in `fresh`; it is adopted only under the `Random`
    /// policy.
    pub fn request_token(self, fresh: Vec<u8>) -> (r: Option<Vec<u8>>)
        ensures
            opt_token_view(r) == spec_request_token(self.request_token, fresh@),
    {
        match self.request_token {
            Option::None => Option::None,
            Option::Some(RequestTokenOptions::Random) => Option::Some(fresh),
            Option::Some(RequestTokenOptions::Token(t)) => Option::Some(t),
        }
    }
}

} // verus!
