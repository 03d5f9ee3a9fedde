use camera_mux::session::{
    PeerSession, SessionAction, SessionEvent, SessionPhase, CONNECT_TIMEOUT_MS,
    SAMPLE_DURATION_MS,
};

#[test]
fn connect_timeout_tears_down_silently() {
    let mut s = PeerSession::new();
    assert_eq!(s.phase, SessionPhase::AwaitingConnection);
    let action = s.step(SessionEvent::ConnectTimeout);
    assert!(matches!(action, SessionAction::StopSilently));
    assert_eq!(s.phase, SessionPhase::Ended);
}

#[test]
fn connect_wait_is_five_seconds() {
    assert_eq!(CONNECT_TIMEOUT_MS, 5000);
}

#[test]
fn frames_become_samples_with_fixed_duration() {
    let mut s = PeerSession::new();
    assert!(matches!(s.step(SessionEvent::IceConnected), SessionAction::Proceed));
    assert_eq!(s.phase, SessionPhase::Streaming);
    match s.step(SessionEvent::FrameTaken(vec![1, 2, 3])) {
        SessionAction::WriteSample { data, duration_ms } => {
            assert_eq!(data, vec![1, 2, 3]);
            assert_eq!(duration_ms, SAMPLE_DURATION_MS);
            assert_eq!(duration_ms, 20);
        },
        _ => panic!("expected a sample write"),
    }
    assert_eq!(s.phase, SessionPhase::Streaming);
}

#[test]
fn peer_disconnect_closes_on_next_frame() {
    let mut s = PeerSession::new();
    s.step(SessionEvent::IceConnected);
    assert!(matches!(s.step(SessionEvent::PeerDisconnected), SessionAction::Proceed));
    assert!(s.peer_dead);
    assert_eq!(s.phase, SessionPhase::Streaming);
    let action = s.step(SessionEvent::FrameTaken(vec![9]));
    assert!(matches!(action, SessionAction::ClosePeerAndStop));
    assert_eq!(s.phase, SessionPhase::Ended);
}

#[test]
fn sink_closure_ends_the_session() {
    let mut s = PeerSession::new();
    s.step(SessionEvent::IceConnected);
    let action = s.step(SessionEvent::SinkClosed);
    assert!(matches!(action, SessionAction::StopSilently));
    assert_eq!(s.phase, SessionPhase::Ended);
}

#[test]
fn disconnect_while_waiting_still_waits() {
    let mut s = PeerSession::new();
    assert!(matches!(s.step(SessionEvent::PeerDisconnected), SessionAction::Proceed));
    assert!(s.peer_dead);
    assert_eq!(s.phase, SessionPhase::AwaitingConnection);
}
