use share_mouse::network::{NetworkHub, NetworkMessage, PeerAction, PeerEvent, DEFAULT_PORT};
use share_mouse::protocol::InputEvent;

fn started(addr: &str) -> PeerEvent {
    PeerEvent::Started { addr: Some(addr.to_string()) }
}

#[test]
fn the_port_is_fixed() {
    assert_eq!(DEFAULT_PORT, 24800);
}

#[test]
fn a_fresh_hub_has_no_peers() {
    let hub = NetworkHub::new();
    assert!(hub.get_peers().is_empty());
    assert!(hub.broadcast(&InputEvent::Ping).is_empty());
    assert!(hub.send_to(&1, InputEvent::Ping).is_none());
}

#[test]
fn peers_come_and_go() {
    let mut hub = NetworkHub::new();
    let actions = hub.handle_peer(1, started("10.0.0.1:9"));
    assert_eq!(actions.len(), 2);
    assert!(matches!(actions[0], PeerAction::StartWriter));
    assert!(matches!(actions[1], PeerAction::StartReader));
    hub.handle_peer(2, PeerEvent::Started { addr: None });
    let mut peers = hub.get_peers();
    peers.sort();
    assert_eq!(peers, vec![(1, "10.0.0.1:9".to_string()), (2, "0.0.0.0:0".to_string())]);

    let actions = hub.handle_peer(1, PeerEvent::ReaderStopped);
    assert_eq!(actions.len(), 2);
    assert!(matches!(
        actions[0],
        PeerAction::Announce { message: NetworkMessage::PeerDisconnected { id: 1 } }
    ));
    assert!(matches!(actions[1], PeerAction::StopWriter));
    assert_eq!(hub.get_peers(), vec![(2, "0.0.0.0:0".to_string())]);

    let actions = hub.handle_peer(2, PeerEvent::WriterStopped);
    assert_eq!(actions.len(), 1);
    assert!(matches!(
        actions[0],
        PeerAction::Announce { message: NetworkMessage::PeerDisconnected { id: 2 } }
    ));
    assert!(hub.get_peers().is_empty());
}

#[test]
fn a_second_stop_changes_nothing() {
    let mut hub = NetworkHub::new();
    hub.handle_peer(1, started("a"));
    hub.handle_peer(2, started("b"));
    hub.handle_peer(1, PeerEvent::WriterStopped);
    hub.handle_peer(1, PeerEvent::ReaderStopped);
    assert_eq!(hub.get_peers(), vec![(2, "b".to_string())]);
}

#[test]
fn events_go_to_connected_peers_only() {
    let mut hub = NetworkHub::new();
    hub.handle_peer(7, started("a"));
    let sent = hub.send_to(&7, InputEvent::MouseMove { dx: 1, dy: 2 });
    assert!(matches!(sent, Some(InputEvent::MouseMove { dx: 1, dy: 2 })));
    assert!(hub.send_to(&8, InputEvent::Ping).is_none());
}

#[test]
fn broadcast_reaches_every_peer_once() {
    let mut hub = NetworkHub::new();
    for id in 0..5u128 {
        hub.handle_peer(id, started("a"));
    }
    let sends = hub.broadcast(&InputEvent::Clipboard { data: vec![1, 2] });
    let mut ids: Vec<u128> = sends.iter().map(|(id, _)| *id).collect();
    ids.sort();
    assert_eq!(ids, vec![0, 1, 2, 3, 4]);
    for (_, event) in &sends {
        assert!(matches!(event, InputEvent::Clipboard { data } if data == &vec![1, 2]));
    }
}

#[test]
fn a_fresh_connection_gets_a_random_id() {
    let (first, message) = NetworkHub::greet("1.2.3.4:5".to_string());
    assert_eq!(first >> 76 & 0xf, 4);
    assert_eq!(first >> 62 & 0x3, 2);
    match message {
        NetworkMessage::PeerConnected { id, addr } => {
            assert_eq!(id, first);
            assert_eq!(addr, "1.2.3.4:5");
        }
        other => panic!("{:?}", other),
    }
    let (second, _) = NetworkHub::greet("1.2.3.4:5".to_string());
    assert_ne!(first, second);
}

#[test]
fn the_server_tells_where_it_listens() {
    let message = NetworkHub::listening("0.0.0.0:24800".to_string());
    assert!(matches!(message, NetworkMessage::Listening { addr } if addr == "0.0.0.0:24800"));
}
