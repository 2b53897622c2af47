//! The mathematical model of a session: ghost mirror types for the session
//! state, inbound frames and outbound actions, and the spec-level transition
//! functions that the executable methods are proved to follow.

use vstd::prelude::*;

use crate::codec::{spec_greeting, spec_sentinel};
use crate::CLIENT_TIMEOUT_MS;

verus! {

/// Lifecycle of a session. A session starts `Active`; any close (peer close,
/// protocol error, unrecognized frame, or heartbeat timeout) moves it to the
/// terminal `Closed` state. Closing happens in one step — the transition that
/// closes also disarms both schedules, so no intermediate closing state is
/// observable. Once `Closed`, no transition produces an action.
#[derive(Clone, Copy, PartialEq, Eq, Structural, Debug)]
pub enum Phase {
    Active,
    Closed,
}

/// Ghost state of one session: the time (in milliseconds on the driver's
/// monotonic clock) of the last liveness signal, and the lifecycle phase.
pub struct SessionModel {
    pub last_alive_ms: u64,
    pub phase: Phase,
}

/// Ghost mirror of a close reason: a numeric status code and an optional
/// descriptive text.
pub struct CloseReasonModel {
    pub code: u16,
    pub description: Option<Seq<char>>,
}

/// Ghost mirror of everything the transport can hand the session: the five
/// recognized frame kinds, any other frame kind (`Unsupported`), and a
/// transport-level protocol error (`TransportError`).
pub enum InboundModel {
    Ping(Seq<u8>),
    Pong(Seq<u8>),
    Text(Seq<char>),
    Binary(Seq<u8>),
    Close(Option<CloseReasonModel>),
    Unsupported,
    TransportError,
}

/// Ghost mirror of an outbound frame the driver must write to the
/// connection.
pub enum ActionModel {
    Ping(Seq<u8>),
    Pong(Seq<u8>),
    Text(Seq<char>),
    Binary(Seq<u8>),
    Close(Option<CloseReasonModel>),
}

/// Milliseconds since the last liveness signal, saturating at zero when the
/// clock reading predates it.
pub open spec fn spec_elapsed_ms(last_alive_ms: u64, now_ms: u64) -> int {
    if now_ms >= last_alive_ms {
        now_ms - last_alive_ms
    } else {
        0
    }
}

/// The dispatch transition: what one inbound frame, received at `now_ms`,
/// does to the session and what single reply (if any) it produces.
///
/// - `Ping` refreshes the liveness clock and is answered with a `Pong`
///   carrying the identical payload.
/// - `Pong` refreshes the liveness clock and is not answered.
/// - `Text` equal to the sentinel is answered with the canned greeting; any
///   other text is echoed verbatim. Neither refreshes the liveness clock:
///   only protocol-level heartbeat frames count as liveness.
/// - `Binary` is echoed verbatim.
/// - `Close` is acknowledged with the same reason and closes the session.
/// - Anything else closes the session with no reply.
/// - A `Closed` session ignores everything and stays as it is.
pub open spec fn spec_handle(s: SessionModel, msg: InboundModel, now_ms: u64) -> (SessionModel,
    Option<ActionModel>) {
    if s.phase is Closed {
        (s, None)
    } else {
        match msg {
            InboundModel::Ping(p) => (
                SessionModel { last_alive_ms: now_ms, phase: s.phase },
                Some(ActionModel::Pong(p)),
            ),
            InboundModel::Pong(_) => (
                SessionModel { last_alive_ms: now_ms, phase: s.phase },
                None,
            ),
            InboundModel::Text(t) => (
                s,
                Some(
                    ActionModel::Text(
                        if t == spec_sentinel() {
                            spec_greeting()
                        } else {
                            t
                        },
                    ),
                ),
            ),
            InboundModel::Binary(b) => (s, Some(ActionModel::Binary(b))),
            InboundModel::Close(r) => (
                SessionModel { last_alive_ms: s.last_alive_ms, phase: Phase::Closed },
                Some(ActionModel::Close(r)),
            ),
            InboundModel::Unsupported => (
                SessionModel { last_alive_ms: s.last_alive_ms, phase: Phase::Closed },
                None,
            ),
            InboundModel::TransportError => (
                SessionModel { last_alive_ms: s.last_alive_ms, phase: Phase::Closed },
                None,
            ),
        }
    }
}

/// The heartbeat transition: what one tick of the heartbeat schedule at
/// `now_ms` does. A live session whose peer has been silent for strictly
/// longer than the timeout closes with no further traffic; otherwise an
/// empty `Ping` probe is sent. A `Closed` session does nothing.
pub open spec fn spec_heartbeat_tick(s: SessionModel, now_ms: u64) -> (SessionModel, Option<
    ActionModel,
>) {
    if s.phase is Closed {
        (s, None)
    } else if spec_elapsed_ms(s.last_alive_ms, now_ms) > CLIENT_TIMEOUT_MS {
        (SessionModel { last_alive_ms: s.last_alive_ms, phase: Phase::Closed }, None)
    } else {
        (s, Some(ActionModel::Ping(Seq::empty())))
    }
}

} // verus!
