use ws_session::{Action, CloseReason, Inbound, MyWebSocket};

#[test]
fn ping_pong_symmetry() {
    let mut s = MyWebSocket::new(0);
    let reply = s.handle(Inbound::Ping(vec![1, 2, 3]), 100);
    assert_eq!(reply, Some(Action::Pong(vec![1, 2, 3])));
    assert!(s.is_active());
    assert_eq!(s.last_alive_ms(), 100);
}

#[test]
fn ping_with_empty_payload() {
    let mut s = MyWebSocket::new(0);
    let reply = s.handle(Inbound::Ping(vec![]), 42);
    assert_eq!(reply, Some(Action::Pong(vec![])));
    assert_eq!(s.last_alive_ms(), 42);
}

#[test]
fn pong_refreshes_liveness_without_reply() {
    let mut s = MyWebSocket::new(0);
    let reply = s.handle(Inbound::Pong(vec![9]), 7000);
    assert_eq!(reply, None);
    assert!(s.is_active());
    assert_eq!(s.last_alive_ms(), 7000);
}

#[test]
fn echo_text_verbatim() {
    let mut s = MyWebSocket::new(0);
    let reply = s.handle(Inbound::Text("hello there".to_string()), 100);
    assert_eq!(reply, Some(Action::Text("hello there".to_string())));
    assert!(s.is_active());
}

#[test]
fn echo_binary_verbatim() {
    let mut s = MyWebSocket::new(0);
    let reply = s.handle(Inbound::Binary(vec![0, 255, 128]), 100);
    assert_eq!(reply, Some(Action::Binary(vec![0, 255, 128])));
    assert!(s.is_active());
}

#[test]
fn sentinel_override() {
    let mut s = MyWebSocket::new(0);
    let reply = s.handle(Inbound::Text("Hello".to_string()), 100);
    assert_eq!(
        reply,
        Some(Action::Text("Hello World! from Actix Web".to_string()))
    );
}

#[test]
fn near_sentinel_is_still_echoed() {
    let mut s = MyWebSocket::new(0);
    let reply = s.handle(Inbound::Text("hello".to_string()), 100);
    assert_eq!(reply, Some(Action::Text("hello".to_string())));
    let reply = s.handle(Inbound::Text("Hello ".to_string()), 100);
    assert_eq!(reply, Some(Action::Text("Hello ".to_string())));
    let reply = s.handle(Inbound::Text(String::new()), 100);
    assert_eq!(reply, Some(Action::Text(String::new())));
}

#[test]
fn text_does_not_refresh_liveness() {
    let mut s = MyWebSocket::new(0);
    s.handle(Inbound::Text("chatter".to_string()), 3000);
    s.handle(Inbound::Binary(vec![1]), 4000);
    assert_eq!(s.last_alive_ms(), 0);
}

#[test]
fn close_symmetry_with_reason() {
    let mut s = MyWebSocket::new(0);
    let reason = CloseReason {
        code: 1000,
        description: Some("bye".to_string()),
    };
    let reply = s.handle(Inbound::Close(Some(reason.clone())), 100);
    assert_eq!(reply, Some(Action::Close(Some(reason))));
    assert!(!s.is_active());
}

#[test]
fn close_symmetry_without_reason() {
    let mut s = MyWebSocket::new(0);
    let reply = s.handle(Inbound::Close(None), 100);
    assert_eq!(reply, Some(Action::Close(None)));
    assert!(!s.is_active());
}

#[test]
fn unsupported_frame_closes_silently() {
    let mut s = MyWebSocket::new(0);
    let reply = s.handle(Inbound::Unsupported, 100);
    assert_eq!(reply, None);
    assert!(!s.is_active());
}

#[test]
fn transport_error_closes_silently() {
    let mut s = MyWebSocket::new(0);
    let reply = s.handle(Inbound::TransportError, 100);
    assert_eq!(reply, None);
    assert!(!s.is_active());
}

#[test]
fn closed_session_ignores_everything() {
    let mut s = MyWebSocket::new(0);
    s.handle(Inbound::Close(None), 100);
    assert!(!s.is_active());
    assert_eq!(s.handle(Inbound::Ping(vec![1]), 200), None);
    assert_eq!(s.handle(Inbound::Text("Hello".to_string()), 300), None);
    assert_eq!(s.handle(Inbound::Binary(vec![2]), 400), None);
    assert_eq!(s.heartbeat_tick(20000), None);
    assert_eq!(s.generator_tick(), None);
    assert_eq!(s.last_alive_ms(), 0);
}

#[test]
fn heartbeat_probes_before_timeout() {
    let mut s = MyWebSocket::new(0);
    let probe = s.heartbeat_tick(5000);
    assert_eq!(probe, Some(Action::Ping(vec![])));
    assert!(s.is_active());
}

#[test]
fn heartbeat_at_exact_timeout_still_probes() {
    let mut s = MyWebSocket::new(0);
    let probe = s.heartbeat_tick(10000);
    assert_eq!(probe, Some(Action::Ping(vec![])));
    assert!(s.is_active());
}

#[test]
fn heartbeat_past_timeout_closes_silently() {
    let mut s = MyWebSocket::new(0);
    let probe = s.heartbeat_tick(10001);
    assert_eq!(probe, None);
    assert!(!s.is_active());
}

#[test]
fn heartbeat_with_clock_behind_probes() {
    let mut s = MyWebSocket::new(5000);
    let probe = s.heartbeat_tick(0);
    assert_eq!(probe, Some(Action::Ping(vec![])));
    assert!(s.is_active());
}

#[test]
fn silence_closes_within_two_further_ticks() {
    let mut s = MyWebSocket::new(0);
    assert_eq!(s.heartbeat_tick(5000), Some(Action::Ping(vec![])));
    assert_eq!(s.heartbeat_tick(10000), Some(Action::Ping(vec![])));
    assert_eq!(s.heartbeat_tick(15000), None);
    assert!(!s.is_active());
}

#[test]
fn liveness_signal_defers_timeout() {
    let mut s = MyWebSocket::new(0);
    s.handle(Inbound::Pong(vec![]), 9000);
    assert_eq!(s.heartbeat_tick(15000), Some(Action::Ping(vec![])));
    assert!(s.is_active());
    assert_eq!(s.heartbeat_tick(19001), None);
    assert!(!s.is_active());
}
