//! Persisted run-status record.
//!
//! One session of the node persists a single record saying whether a node is
//! active for the data directory and on which control port. The byte format
//! is a fixed three-byte record; a missing or unparsable record always reads
//! back as `Stopped`, never as an error, since absence is the common case.

use vstd::prelude::*;

verus! {

/// Whether a node is currently active for a data directory, and if so on
/// which control port.
#[derive(Clone, Copy, Debug, PartialEq, Eq, Structural)]
pub enum RunStatus {
    /// No node is active; a launch may proceed.
    Stopped,
    /// A node is active and its control listener is bound to the given port.
    Running(u16),
}

/// Leading byte of a well-formed persisted record.
pub const STATUS_TAG: u8 = 0x52;

/// The bytes that persist `Running(port)`: a tag byte followed by the port
/// in big-endian order.
pub open spec fn spec_encode_status(port: u16) -> Seq<u8> {
    seq![STATUS_TAG, (port / 256) as u8, (port % 256) as u8]
}

/// The status that a persisted record denotes. `None` models a missing
/// record; any byte string that is not a well-formed record reads as
/// `Stopped`.
pub open spec fn spec_decode_status(bytes: Option<Seq<u8>>) -> RunStatus {
    match bytes {
        Option::None => RunStatus::Stopped,
        Option::Some(b) => {
            if b.len() == 3 && b[0] == STATUS_TAG {
                RunStatus::Running(((b[1] as int) * 256 + (b[2] as int)) as u16)
            } else {
                RunStatus::Stopped
            }
        },
    }
}

/// View of an optional byte buffer as an optional byte sequence.
pub open spec fn opt_bytes_view(bytes: Option<Vec<u8>>) -> Option<Seq<u8>> {
    match bytes {
        Option::None => Option::None,
        Option::Some(b) => Option::Some(b@),
    }
}

/// Serialize `Running(port)` for persistence.
pub fn encode_status(port: u16) -> (r: Vec<u8>)
    ensures
        r@ == spec_encode_status(port),
{
    let mut v: Vec<u8> = Vec::new();
    v.push(STATUS_TAG);
    v.push((port / 256) as u8);
    v.push((port % 256) as u8);
    proof {
        assert(v@ =~= spec_encode_status(port));
    }
    v
}

/// Read a persisted record back. A missing (`None`) or unparsable record is
/// `Stopped`; this function never fails.
pub fn decode_status(bytes: &Option<Vec<u8>>) -> (r: RunStatus)
    ensures
        r == spec_decode_status(opt_bytes_view(*bytes)),
{
    match bytes {
        Option::None => RunStatus::Stopped,
        Option::Some(b) => {
            if b.len() == 3 && b[0] == STATUS_TAG {
                let hi = b[1] as u16;
                let lo = b[2] as u16;
                RunStatus::Running(hi * 256 + lo)
            } else {
                RunStatus::Stopped
            }
        },
    }
}

/// A record written for `port` always reads back as `Running(port)`.
pub proof fn lemma_status_round_trip(port: u16)
    ensures
        spec_decode_status(Option::Some(spec_encode_status(port))) == RunStatus::Running(port),
{
    vstd::arithmetic::div_mod::lemma_fundamental_div_mod(port as int, 256);
}

/// A missing record, or any byte string that is not a well-formed record,
/// reads as `Stopped`: an unparsable record never blocks a launch.
pub proof fn lemma_missing_or_malformed_is_stopped(bytes: Option<Seq<u8>>)
    requires
        bytes matches Option::Some(b) ==> !(b.len() == 3 && b[0] == STATUS_TAG),
    ensures
        spec_decode_status(bytes) == RunStatus::Stopped,
{
}

} // verus!
