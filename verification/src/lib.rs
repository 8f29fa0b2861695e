//! Message model of the dispatcher throughput benchmark: the one-byte
//! commands, the fixed-size frames exchanged over TCP, the RFC 3339
//! timestamps carried in frames, and the per-message decisions of the
//! generator, connector, dispatcher and receiver roles.
use vstd::prelude::*;

pub mod command;
pub mod timestamp;
pub mod frame;
pub mod routing;
pub mod connector;
pub mod dispatcher;
pub mod generator;
pub mod pipeline;
pub mod report;
pub mod flow;

pub use command::Command;

verus! {

/// Length in bytes of every frame exchanged between generator, server and receiver.
pub const MSG_LEN: usize = 500;

/// Length of an RFC 3339 timestamp with microseconds, e.g. `2020-09-20T03:31:02.361565Z`.
pub const TIMESTAMP_LEN: usize = 27;

} // verus!
