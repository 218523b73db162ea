use rust_gateway::hub::{ClientMessage, Connect, Disconnect, Lobby};

#[test]
fn connect_registers_fresh_ids() {
    let mut lobby: Lobby<u32> = Lobby::new();
    let a = lobby.connect(Connect { addr: 1 });
    let b = lobby.connect(Connect { addr: 2 });
    assert_ne!(a, b);
    assert_eq!(lobby.len(), 2);
    assert_eq!(lobby.handle_of(a), Some(&1));
    assert_eq!(lobby.handle_of(b), Some(&2));
}

#[test]
fn connect_with_takes_free_draw() {
    let mut lobby: Lobby<u32> = Lobby::new();
    assert_eq!(lobby.connect_with(77, 5), 77);
    assert!(lobby.is_registered(77));
}

#[test]
fn connect_with_collision_takes_least_free_id() {
    let mut lobby: Lobby<u32> = Lobby::new();
    assert_eq!(lobby.connect_with(0, 10), 0);
    assert_eq!(lobby.connect_with(1, 11), 1);
    assert_eq!(lobby.connect_with(3, 13), 3);
    assert_eq!(lobby.connect_with(0, 20), 2);
    assert_eq!(lobby.connect_with(1, 21), 4);
    assert_eq!(lobby.handle_of(0), Some(&10));
    assert_eq!(lobby.len(), 5);
}

#[test]
fn replay_keeps_exactly_live_sessions() {
    let mut lobby: Lobby<u32> = Lobby::new();
    let a = lobby.connect(Connect { addr: 1 });
    let b = lobby.connect(Connect { addr: 2 });
    let _ = lobby.publish(&ClientMessage { msg: "x".to_string() });
    lobby.disconnect(Disconnect { id: a });
    let c = lobby.connect(Connect { addr: 3 });
    assert!(!lobby.is_registered(a));
    assert!(lobby.is_registered(b));
    assert!(lobby.is_registered(c));
    assert_eq!(lobby.len(), 2);
}

#[test]
fn disconnect_twice_is_harmless() {
    let mut lobby: Lobby<u32> = Lobby::new();
    let a = lobby.connect_with(4, 1);
    let b = lobby.connect_with(9, 2);
    lobby.disconnect(Disconnect { id: a });
    lobby.disconnect(Disconnect { id: a });
    assert_eq!(lobby.len(), 1);
    assert!(lobby.is_registered(b));
}

#[test]
fn disconnect_unknown_id_changes_nothing() {
    let mut lobby: Lobby<u32> = Lobby::new();
    lobby.connect_with(4, 1);
    lobby.disconnect(Disconnect { id: 12345 });
    assert_eq!(lobby.len(), 1);
    assert_eq!(lobby.handle_of(4), Some(&1));
}

#[test]
fn publish_reaches_every_registered_session_once() {
    let mut lobby: Lobby<u32> = Lobby::new();
    lobby.connect_with(1, 10);
    lobby.connect_with(2, 20);
    lobby.connect_with(3, 30);
    lobby.disconnect(Disconnect { id: 2 });
    let ds = lobby.publish(&ClientMessage { msg: "user X did Y".to_string() });
    let mut ids: Vec<usize> = ds.iter().map(|d| d.to).collect();
    ids.sort();
    assert_eq!(ids, vec![1, 3]);
    for d in &ds {
        assert_eq!(d.message.0, "user X did Y");
    }
}

#[test]
fn publish_on_empty_hub_delivers_nothing() {
    let lobby: Lobby<u32> = Lobby::new();
    assert!(lobby.publish(&ClientMessage { msg: "hi".to_string() }).is_empty());
}

#[test]
fn later_session_misses_earlier_publish() {
    let mut lobby: Lobby<u32> = Lobby::new();
    lobby.connect_with(1, 10);
    let ds = lobby.publish(&ClientMessage { msg: "first".to_string() });
    let late = lobby.connect(Connect { addr: 11 });
    assert_eq!(ds.len(), 1);
    assert!(ds.iter().all(|d| d.to != late));
}
