//! Lifecycle supervision for a long-running networked node.
//!
//! The crate decides, step by step, how one session of a node is started,
//! raced against its three termination sources, and cleaned up. All I/O is
//! left to the driver that embeds this library: each state machine here
//! returns an action describing the next piece of outside work, and the
//! driver feeds the result back as an event.

pub mod binder;
pub mod config;
pub mod launcher;
pub mod race;
pub mod session;
pub mod status;

pub use config::RunType;
pub use config::StartArgs;
pub use status::RunStatus;
