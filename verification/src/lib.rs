//! A verified model of one WebSocket session: its heartbeat/timeout state
//! machine, its periodic random-integer generator, and its inbound frame
//! dispatch. The surrounding server (listener, routing, the actor runtime
//! that drives the timers) lives outside this crate and only feeds plain
//! values in and carries the returned actions out.

use vstd::prelude::*;

pub mod codec;
pub mod laws;
pub mod model;
pub mod rng;
pub mod session;

pub use codec::encode_random_integer;
pub use model::{ActionModel, CloseReasonModel, InboundModel, Phase, SessionModel};
pub use session::{Action, CloseReason, Inbound, MyWebSocket};

verus! {

/// How often heartbeat pings are sent, in milliseconds.
pub const HEARTBEAT_INTERVAL_MS: u64 = 5000;

/// How long without a liveness signal before the session disconnects, in
/// milliseconds. Equal to twice the heartbeat interval, so the peer gets at
/// least one missed-ping grace period before the strict comparison trips.
pub const CLIENT_TIMEOUT_MS: u64 = 10000;

/// How often generated integers are sent, in milliseconds.
pub const RANDOM_NUMBER_INTERVAL_MS: u64 = 1000;

/// Lower bound (inclusive) of the generated integers.
pub const RANDOM_LOW: u8 = 1;

/// Upper bound (exclusive) of the generated integers.
pub const RANDOM_HIGH: u8 = 10;

} // verus!
