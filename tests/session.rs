use rust_gateway::session::{MyWebSocket, SessionAction, SessionEvent, SessionState};

fn active(id: usize) -> MyWebSocket {
    let mut s = MyWebSocket::new(5);
    assert!(s.step(SessionEvent::Registered(id), 6).is_empty());
    s
}

#[test]
fn new_session_waits_for_hub() {
    let s = MyWebSocket::new(5);
    assert_eq!(s.state(), SessionState::Connecting);
    assert_eq!(s.id(), 0);
    assert_eq!(s.last_beat(), 5);
}

#[test]
fn registration_activates_with_id() {
    let s = active(42);
    assert_eq!(s.state(), SessionState::Active);
    assert_eq!(s.id(), 42);
}

#[test]
fn failed_registration_closes_without_leaving() {
    let mut s = MyWebSocket::new(0);
    let acts = s.step(SessionEvent::RegistrationFailed, 1);
    assert!(matches!(acts.as_slice(), [SessionAction::Stop]));
    assert_eq!(s.state(), SessionState::Closed);
    assert!(s.step(SessionEvent::Stopped, 2).is_empty());
}

#[test]
fn ping_refreshes_and_answers() {
    let mut s = active(1);
    let acts = s.step(SessionEvent::Ping(vec![1, 2, 3]), 99);
    match acts.as_slice() {
        [SessionAction::SendPong(p)] => assert_eq!(p, &vec![1, 2, 3]),
        _ => panic!("expected one pong"),
    }
    assert_eq!(s.last_beat(), 99);
    assert!(s.step(SessionEvent::Pong, 120).is_empty());
    assert_eq!(s.last_beat(), 120);
}

#[test]
fn text_is_accepted_and_ignored() {
    let mut s = active(1);
    assert!(s.step(SessionEvent::Text("hello".to_string()), 7).is_empty());
    assert_eq!(s.state(), SessionState::Active);
    assert_eq!(s.last_beat(), 5);
}

#[test]
fn broadcast_written_verbatim_while_active() {
    let mut s = active(1);
    let acts = s.step(SessionEvent::Broadcast("AUTH: x".to_string()), 7);
    match acts.as_slice() {
        [SessionAction::SendText(t)] => assert_eq!(t, "AUTH: x"),
        _ => panic!("expected one text frame"),
    }
}

#[test]
fn close_then_stop_leaves_hub_once() {
    let mut s = active(8);
    let acts = s.step(SessionEvent::Close, 7);
    assert!(matches!(acts.as_slice(), [SessionAction::SendClose, SessionAction::Stop]));
    assert_eq!(s.state(), SessionState::Closing);
    assert!(s.step(SessionEvent::Broadcast("late".to_string()), 8).is_empty());
    let acts = s.step(SessionEvent::Stopped, 9);
    assert!(matches!(acts.as_slice(), [SessionAction::Leave(8)]));
    assert_eq!(s.state(), SessionState::Closed);
    assert!(s.step(SessionEvent::Stopped, 10).is_empty());
    assert!(s.step(SessionEvent::Broadcast("later".to_string()), 11).is_empty());
}

#[test]
fn protocol_error_stops_session() {
    let mut s = active(3);
    let acts = s.step(SessionEvent::ProtocolError, 7);
    assert!(matches!(acts.as_slice(), [SessionAction::Stop]));
    let acts = s.step(SessionEvent::Stopped, 8);
    assert!(matches!(acts.as_slice(), [SessionAction::Leave(3)]));
}

#[test]
fn abrupt_stop_while_active_leaves_hub() {
    let mut s = active(4);
    let acts = s.step(SessionEvent::Stopped, 7);
    assert!(matches!(acts.as_slice(), [SessionAction::Leave(4)]));
    assert_eq!(s.state(), SessionState::Closed);
}
