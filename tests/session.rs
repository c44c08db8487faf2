use game_gateway::network::{
    FrameKind, FrameReply, HeartbeatAction, Phase, WsSession, CLIENT_TIMEOUT_MS, HEARTBEAT_INTERVAL_MS,
};

fn active(id: usize, now: u64) -> WsSession {
    let mut s = WsSession::new(CLIENT_TIMEOUT_MS);
    assert!(s.authenticate(id));
    assert!(s.activate(now));
    s
}

#[test]
fn reference_timings() {
    assert_eq!(HEARTBEAT_INTERVAL_MS, 5000);
    assert_eq!(CLIENT_TIMEOUT_MS, 10000);
}

#[test]
fn session_goes_through_its_phases() {
    let mut s = WsSession::new(CLIENT_TIMEOUT_MS);
    assert_eq!(s.phase(), Phase::Connecting);
    assert!(!s.activate(0));
    assert!(s.authenticate(3));
    assert_eq!(s.phase(), Phase::Authenticated);
    assert!(!s.authenticate(4));
    assert_eq!(s.id(), 3);
    assert!(s.activate(1000));
    assert_eq!(s.phase(), Phase::Active);
    assert_eq!(s.last_seen(), 1000);
}

#[test]
fn silent_connection_is_disconnected_exactly_once() {
    let mut s = active(3, 1000);
    assert_eq!(s.tick(6000), HeartbeatAction::Ping);
    assert_eq!(s.tick(11000), HeartbeatAction::Ping);
    assert_eq!(s.tick(11001), HeartbeatAction::Disconnect(3));
    assert_eq!(s.phase(), Phase::Closing);
    assert_eq!(s.tick(16001), HeartbeatAction::Stop);
    assert_eq!(s.on_frame(FrameKind::Ping, 16002), FrameReply::Nothing);
    assert_eq!(s.tick(21001), HeartbeatAction::Stop);
    s.cancel();
    assert_eq!(s.finish(), Some(3));
    assert_eq!(s.phase(), Phase::Closed);
    assert_eq!(s.finish(), None);
    assert_eq!(s.tick(30000), HeartbeatAction::Stop);
}

#[test]
fn any_inbound_frame_is_liveness_evidence() {
    let mut s = active(1, 0);
    assert_eq!(s.on_frame(FrameKind::Ping, 4000), FrameReply::Pong);
    assert_eq!(s.last_seen(), 4000);
    assert_eq!(s.on_frame(FrameKind::Pong, 8000), FrameReply::Nothing);
    assert_eq!(s.on_frame(FrameKind::Text, 12000), FrameReply::Nothing);
    assert_eq!(s.last_seen(), 12000);
    assert_eq!(s.tick(20000), HeartbeatAction::Ping);
    assert_eq!(s.tick(22001), HeartbeatAction::Disconnect(1));
}

#[test]
fn close_frame_closes_without_notification() {
    let mut s = active(2, 0);
    assert_eq!(s.on_frame(FrameKind::Close, 100), FrameReply::Close);
    assert_eq!(s.phase(), Phase::Closing);
    assert_eq!(s.tick(50_000), HeartbeatAction::Stop);
    assert_eq!(s.finish(), Some(2));
}

#[test]
fn cancellation_stops_the_heartbeat() {
    let mut s = active(6, 0);
    s.cancel();
    assert_eq!(s.phase(), Phase::Closing);
    assert_eq!(s.tick(100_000), HeartbeatAction::Stop);
    assert_eq!(s.finish(), Some(6));
}

#[test]
fn session_without_identity_releases_nothing() {
    let mut s = WsSession::new(CLIENT_TIMEOUT_MS);
    s.cancel();
    assert_eq!(s.finish(), None);
    assert_eq!(s.phase(), Phase::Closed);
}

#[test]
fn clock_going_back_is_not_a_timeout() {
    let mut s = active(1, 50_000);
    assert_eq!(s.tick(10), HeartbeatAction::Ping);
    assert_eq!(s.on_frame(FrameKind::Pong, 10), FrameReply::Nothing);
    assert_eq!(s.last_seen(), 50_000);
}

#[test]
fn largest_clock_values() {
    let mut s = active(1, 0);
    assert_eq!(s.tick(u64::MAX), HeartbeatAction::Disconnect(1));
    let mut t = WsSession::new(u64::MAX);
    t.authenticate(9);
    t.activate(0);
    assert_eq!(t.tick(u64::MAX), HeartbeatAction::Ping);
}
