//! The per-connection session state machine: construction, inbound frame
//! dispatch, the heartbeat/timeout check, and the periodic integer generator.

use vstd::prelude::*;

use crate::codec::{
    encode_random_integer, greeting_text, spec_random_integer_message, text_is_sentinel,
};
use crate::model::{
    spec_handle, spec_heartbeat_tick, ActionModel, CloseReasonModel, InboundModel, Phase,
    SessionModel,
};
use crate::rng::sample_uniform;
use crate::{CLIENT_TIMEOUT_MS, RANDOM_HIGH, RANDOM_LOW};

verus! {

/// A close reason as the session sees it: the numeric status code from the
/// wire and an optional descriptive text. The driver converts between this
/// and the transport's own representation.
#[derive(Debug, Clone, PartialEq, Eq)]
pub struct CloseReason {
    pub code: u16,
    pub description: Option<String>,
}

impl View for CloseReason {
    type V = CloseReasonModel;

    open spec fn view(&self) -> CloseReasonModel {
        CloseReasonModel {
            code: self.code,
            description: match self.description {
                Some(d) => Some(d@),
                None => None,
            },
        }
    }
}

/// Everything the transport can hand the session: the five recognized frame
/// kinds, any other frame kind (`Unsupported`), and a transport-level
/// protocol error (`TransportError`).
#[derive(Debug, Clone, PartialEq, Eq)]
pub enum Inbound {
    Ping(Vec<u8>),
    Pong(Vec<u8>),
    Text(String),
    Binary(Vec<u8>),
    Close(Option<CloseReason>),
    Unsupported,
    TransportError,
}

impl View for Inbound {
    type V = InboundModel;

    open spec fn view(&self) -> InboundModel {
        match self {
            Inbound::Ping(p) => InboundModel::Ping(p@),
            Inbound::Pong(p) => InboundModel::Pong(p@),
            Inbound::Text(t) => InboundModel::Text(t@),
            Inbound::Binary(b) => InboundModel::Binary(b@),
            Inbound::Close(r) => InboundModel::Close(
                match r {
                    Some(c) => Some(c@),
                    None => None,
                },
            ),
            Inbound::Unsupported => InboundModel::Unsupported,
            Inbound::TransportError => InboundModel::TransportError,
        }
    }
}

/// An outbound frame the driver must write to the connection on the
/// session's behalf.
#[derive(Debug, Clone, PartialEq, Eq)]
pub enum Action {
    Ping(Vec<u8>),
    Pong(Vec<u8>),
    Text(String),
    Binary(Vec<u8>),
    Close(Option<CloseReason>),
}

impl View for Action {
    type V = ActionModel;

    open spec fn view(&self) -> ActionModel {
        match self {
            Action::Ping(p) => ActionModel::Ping(p@),
            Action::Pong(p) => ActionModel::Pong(p@),
            Action::Text(t) => ActionModel::Text(t@),
            Action::Binary(b) => ActionModel::Binary(b@),
            Action::Close(r) => ActionModel::Close(
                match r {
                    Some(c) => Some(c@),
                    None => None,
                },
            ),
        }
    }
}

/// The model of an optional reply.
pub open spec fn opt_action_view(r: Option<Action>) -> Option<ActionModel> {
    match r {
        Some(a) => Some(a@),
        None => None,
    }
}

/// One WebSocket session. It owns no connection handle itself: the driver
/// feeds it inbound frames and clock readings, and performs the actions it
/// returns on the actual connection. Its phase turning `Closed` is the
/// driver's signal to stop the connection and cancel both schedules.
pub struct MyWebSocket {
    /// Time of the last liveness signal (inbound ping or pong), on the
    /// driver's monotonic millisecond clock.
    last_alive_ms: u64,
    /// Lifecycle phase; `Closed` is terminal.
    phase: Phase,
}

impl View for MyWebSocket {
    type V = SessionModel;

    closed spec fn view(&self) -> SessionModel {
        SessionModel { last_alive_ms: self.last_alive_ms, phase: self.phase }
    }
}

impl MyWebSocket {
    /// A fresh session: active, with the current time recorded as the last
    /// liveness signal.
    pub fn new(now_ms: u64) -> (s: Self)
        ensures
            s@ == (SessionModel { last_alive_ms: now_ms, phase: Phase::Active }),
    {
        Self { last_alive_ms: now_ms, phase: Phase::Active }
    }

    /// Whether the session is still in its `Active` phase. The driver stops
    /// the connection as soon as this turns false.
    pub fn is_active(&self) -> (r: bool)
        ensures
            r == (self@.phase is Active),
    {
        match self.phase {
            Phase::Active => true,
            Phase::Closed => false,
        }
    }

    /// Time of the last liveness signal, on the driver's clock.
    pub fn last_alive_ms(&self) -> (t: u64)
        ensures
            t == self@.last_alive_ms,
    {
        self.last_alive_ms
    }

    /// Dispatch one inbound frame received at `now_ms`. The session changes
    /// state and replies exactly as the dispatch transition of the model
    /// says.
    pub fn handle(&mut self, msg: Inbound, now_ms: u64) -> (reply: Option<Action>)
        ensures
            final(self)@ == spec_handle(old(self)@, msg@, now_ms).0,
            opt_action_view(reply) == spec_handle(old(self)@, msg@, now_ms).1,
    {
        match self.phase {
            Phase::Closed => None,
            Phase::Active => match msg {
                Inbound::Ping(p) => {
                    self.last_alive_ms = now_ms;
                    Some(Action::Pong(p))
                },
                Inbound::Pong(_) => {
                    self.last_alive_ms = now_ms;
                    None
                },
                Inbound::Text(t) => {
                    if text_is_sentinel(&t) {
                        Some(Action::Text(greeting_text()))
                    } else {
                        Some(Action::Text(t))
                    }
                },
                Inbound::Binary(b) => Some(Action::Binary(b)),
                Inbound::Close(r) => {
                    self.phase = Phase::Closed;
                    Some(Action::Close(r))
                },
                Inbound::Unsupported => {
                    self.phase = Phase::Closed;
                    None
                },
                Inbound::TransportError => {
                    self.phase = Phase::Closed;
                    None
                },
            },
        }
    }

    /// One tick of the heartbeat schedule at `now_ms`: close the session if
    /// the peer has been silent for strictly longer than the timeout,
    /// otherwise probe it with an empty ping.
    pub fn heartbeat_tick(&mut self, now_ms: u64) -> (probe: Option<Action>)
        ensures
            final(self)@ == spec_heartbeat_tick(old(self)@, now_ms).0,
            opt_action_view(probe) == spec_heartbeat_tick(old(self)@, now_ms).1,
    {
        match self.phase {
            Phase::Closed => None,
            Phase::Active => {
                let elapsed: u64 = if now_ms >= self.last_alive_ms {
                    now_ms - self.last_alive_ms
                } else {
                    0
                };
                if elapsed > CLIENT_TIMEOUT_MS {
                    self.phase = Phase::Closed;
                    None
                } else {
                    let empty: Vec<u8> = Vec::new();
                    proof {
                        assert(empty@ =~= Seq::<u8>::empty());
                    }
                    Some(Action::Ping(empty))
                }
            },
        }
    }

    /// One tick of the data-generation schedule: draw one integer uniformly
    /// from `[RANDOM_LOW, RANDOM_HIGH)` and wrap it in its wire message. A
    /// closed session generates nothing, so no tick can write after close.
    pub fn generator_tick(&self) -> (msg: Option<String>)
        ensures
            self@.phase is Closed ==> msg is None,
            self@.phase is Active ==> (msg matches Some(m) && (exists|v: u8|
                RANDOM_LOW <= v < RANDOM_HIGH && m@ == #[trigger] spec_random_integer_message(v))),
    {
        match self.phase {
            Phase::Closed => None,
            Phase::Active => {
                let v = sample_uniform(RANDOM_LOW, RANDOM_HIGH);
                let m = encode_random_integer(v);
                proof {
                    assert(RANDOM_LOW <= v < RANDOM_HIGH && m@ == spec_random_integer_message(v));
                }
                Some(m)
            },
        }
    }
}

} // verus!
