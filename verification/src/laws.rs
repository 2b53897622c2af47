//! The session's guarantees, stated and proved over the model transitions.
//!
//! Each proof function here is part of the library's public statement: it
//! pins down one behaviour of the session state machine for every input the
//! statement speaks of, not just for the values any one run happens to see.

use vstd::prelude::*;

use crate::codec::{spec_greeting, spec_sentinel};
use crate::model::{
    spec_handle, spec_heartbeat_tick, ActionModel, CloseReasonModel, InboundModel, SessionModel,
};
use crate::{CLIENT_TIMEOUT_MS, HEARTBEAT_INTERVAL_MS};

verus! {

/// Ping/pong symmetry: a live session answers an inbound ping with exactly
/// one pong carrying the identical payload, stays live, and refreshes its
/// liveness clock to the arrival time.
pub proof fn lemma_ping_pong(s: SessionModel, payload: Seq<u8>, now_ms: u64)
    requires
        s.phase is Active,
    ensures
        ({
            let (s2, reply) = spec_handle(s, InboundModel::Ping(payload), now_ms);
            &&& s2.phase is Active
            &&& s2.last_alive_ms == now_ms
            &&& reply == Some(ActionModel::Pong(payload))
        }),
{
}

/// An inbound pong also counts as a liveness signal: it refreshes the clock
/// and is not answered.
pub proof fn lemma_pong_refreshes(s: SessionModel, payload: Seq<u8>, now_ms: u64)
    requires
        s.phase is Active,
    ensures
        ({
            let (s2, reply) = spec_handle(s, InboundModel::Pong(payload), now_ms);
            &&& s2.phase is Active
            &&& s2.last_alive_ms == now_ms
            &&& reply is None
        }),
{
}

/// Echo idempotence for text: any inbound text other than the sentinel is
/// echoed back verbatim, and the session state — the liveness clock
/// included — is left exactly as it was.
pub proof fn lemma_echo_text(s: SessionModel, text: Seq<char>, now_ms: u64)
    requires
        s.phase is Active,
        text != spec_sentinel(),
    ensures
        spec_handle(s, InboundModel::Text(text), now_ms).0 == s,
        spec_handle(s, InboundModel::Text(text), now_ms).1 == Some(ActionModel::Text(text)),
{
}

/// Echo idempotence for binary: any inbound binary payload is echoed back
/// verbatim, and the session state is left exactly as it was.
pub proof fn lemma_echo_binary(s: SessionModel, payload: Seq<u8>, now_ms: u64)
    requires
        s.phase is Active,
    ensures
        spec_handle(s, InboundModel::Binary(payload), now_ms).0 == s,
        spec_handle(s, InboundModel::Binary(payload), now_ms).1 == Some(
            ActionModel::Binary(payload),
        ),
{
}

/// Sentinel override: the sentinel text is never echoed; the reply is always
/// the fixed greeting, which differs from the sentinel itself.
pub proof fn lemma_sentinel_override(s: SessionModel, now_ms: u64)
    requires
        s.phase is Active,
    ensures
        spec_handle(s, InboundModel::Text(spec_sentinel()), now_ms).1 == Some(
            ActionModel::Text(spec_greeting()),
        ),
        spec_greeting() != spec_sentinel(),
{
    reveal_strlit("Hello");
    reveal_strlit("Hello World! from Actix Web");
    assert(spec_sentinel().len() == 5);
    assert(spec_greeting().len() == 27);
}

/// Close symmetry: an inbound close with reason `r` is always acknowledged
/// with an outbound close carrying the same `r`, and the session is closed
/// from that point on, so (by `lemma_cancellation_safety`) nothing further
/// is ever sent.
pub proof fn lemma_close_symmetry(
    s: SessionModel,
    reason: Option<CloseReasonModel>,
    now_ms: u64,
)
    requires
        s.phase is Active,
    ensures
        spec_handle(s, InboundModel::Close(reason), now_ms).0.phase is Closed,
        spec_handle(s, InboundModel::Close(reason), now_ms).1 == Some(ActionModel::Close(reason)),
{
}

/// Cancellation safety: once a session is closed, no inbound frame and no
/// heartbeat tick changes it or produces any outbound action. (The
/// generator's own contract states the same for generator ticks: a closed
/// session generates nothing.)
pub proof fn lemma_cancellation_safety(s: SessionModel, msg: InboundModel, now_ms: u64)
    requires
        s.phase is Closed,
    ensures
        spec_handle(s, msg, now_ms).0 == s,
        spec_handle(s, msg, now_ms).1 is None,
        spec_heartbeat_tick(s, now_ms).0 == s,
        spec_heartbeat_tick(s, now_ms).1 is None,
{
}

/// A heartbeat tick that does not close the session leaves its state exactly
/// as it was and probes the peer with an empty ping; in particular the
/// session's own probes never refresh its liveness clock.
pub proof fn lemma_heartbeat_probe(s: SessionModel, now_ms: u64)
    requires
        s.phase is Active,
        now_ms <= s.last_alive_ms + CLIENT_TIMEOUT_MS,
    ensures
        spec_heartbeat_tick(s, now_ms).0 == s,
        spec_heartbeat_tick(s, now_ms).1 == Some(ActionModel::Ping(Seq::<u8>::empty())),
{
}

/// Heartbeat timeout: if the peer goes silent — no liveness signal after
/// `last_alive_ms` — then whatever the phase of the tick schedule, the
/// session is closed within two further ticks of the first tick after the
/// silence began. The three ticks below are consecutive ticks of the
/// schedule; since the timeout equals two heartbeat intervals, the third at
/// the latest finds strictly more than the timeout elapsed.
pub proof fn lemma_heartbeat_timeout(s: SessionModel, t1: u64)
    requires
        s.phase is Active,
        s.last_alive_ms < t1,
        t1 + 2 * HEARTBEAT_INTERVAL_MS <= u64::MAX,
    ensures
        ({
            let s1 = spec_heartbeat_tick(s, t1).0;
            let s2 = spec_heartbeat_tick(s1, (t1 + HEARTBEAT_INTERVAL_MS) as u64).0;
            let s3 = spec_heartbeat_tick(s2, (t1 + 2 * HEARTBEAT_INTERVAL_MS) as u64).0;
            s3.phase is Closed
        }),
{
}

/// A closing tick sends nothing: when the timeout has been exceeded, the
/// tick closes the session and produces no action at all — the unilateral
/// disconnect is silent on the wire.
pub proof fn lemma_timeout_is_silent(s: SessionModel, now_ms: u64)
    requires
        s.phase is Active,
        now_ms > s.last_alive_ms + CLIENT_TIMEOUT_MS,
    ensures
        spec_heartbeat_tick(s, now_ms).0.phase is Closed,
        spec_heartbeat_tick(s, now_ms).0.last_alive_ms == s.last_alive_ms,
        spec_heartbeat_tick(s, now_ms).1 is None,
{
}

} // verus!
