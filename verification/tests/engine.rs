use share_mouse::codec::EventCodec;
use share_mouse::engine::{CursorOwner, Engine, EngineAction, Role};
use share_mouse::protocol::{InputEvent, Modifiers, MouseButton};
use share_mouse::screen::{Fraction, ScreenInfo, ScreenLayout, ScreenRect};
use share_mouse::stream::{EventReader, ReadOutcome};

const PEER: u128 = 0x67e5_5044_10b1_426f_9247_bb68_0e5f_e0c8;

fn screen(id: &str, x: i32, peer_id: Option<&str>) -> ScreenInfo {
    ScreenInfo {
        id: id.to_string(),
        name: id.to_string(),
        rect: ScreenRect { x, y: 0, width: 100, height: 200 },
        peer_id: peer_id.map(|p| p.to_string()),
        width: 100,
        height: 200,
        dpi: 96,
    }
}

fn host(peer_id: Option<&str>) -> Engine {
    let mut engine = Engine::new("local".to_string());
    engine.set_layout(ScreenLayout {
        screens: vec![screen("local", 0, None), screen("remote", 100, peer_id)],
    });
    engine.set_role(Role::Host);
    engine
}

fn at(x: u32, y: u32) -> InputEvent {
    InputEvent::MouseMoveAbsolute { x, y }
}

fn crosses(peer_id: &str) -> Option<u128> {
    let mut engine = host(Some(peer_id));
    engine.handle_captured_event(&at(1, 2), 99, 50);
    match engine.get_cursor_owner() {
        CursorOwner::Remote(id) => Some(id),
        CursorOwner::Local => None,
    }
}

#[test]
fn a_fresh_engine_is_a_local_client() {
    let engine = Engine::new("me".to_string());
    assert_eq!(engine.get_role(), Role::Client);
    assert_eq!(engine.get_cursor_owner(), CursorOwner::Local);
    assert_eq!(engine.get_receiving_from(), None);
    assert_eq!(engine.get_local_screen_id(), "me");
    assert!(engine.get_layout().screens.is_empty());
    assert!(engine.get_local_rect().is_none());
    assert!(engine.start().is_empty());
}

#[test]
fn a_host_starts_capturing() {
    let engine = host(None);
    let actions = engine.start();
    assert_eq!(actions.len(), 1);
    assert!(matches!(actions[0], EngineAction::StartCapture));
    let actions = engine.stop();
    assert_eq!(actions.len(), 2);
    assert!(matches!(actions[0], EngineAction::StopCapture));
    assert!(matches!(actions[1], EngineAction::ShowCursor));
}

#[test]
fn crossing_hands_over_to_the_peer() {
    let mut engine = host(Some("67e55044-10b1-426f-9247-bb680e5fe0c8"));
    assert!(engine.can_handle_captured_event(&at(7, 8), 99, 50));
    let rect = engine.get_local_rect().unwrap();
    assert_eq!(rect, ScreenRect { x: 0, y: 0, width: 100, height: 200 });
    let actions = engine.handle_captured_event(&at(7, 8), 99, 50);
    assert_eq!(actions.len(), 3);
    match &actions[0] {
        EngineAction::SendCursorEnter { to, entry } => {
            assert_eq!(*to, PEER);
            assert_eq!(entry.x, Fraction { pos: 0, len: 1 });
            assert_eq!(entry.y, Fraction { pos: 50, len: 200 });
        }
        other => panic!("{:?}", other),
    }
    assert!(matches!(
        &actions[1],
        EngineAction::Send { to: PEER, event: InputEvent::MouseMoveAbsolute { x: 7, y: 8 } }
    ));
    assert!(matches!(actions[2], EngineAction::HideCursor));
    assert_eq!(engine.get_cursor_owner(), CursorOwner::Remote(PEER));
}

#[test]
fn a_remote_cursor_forwards_every_event() {
    let mut engine = host(Some("67e55044-10b1-426f-9247-bb680e5fe0c8"));
    engine.handle_captured_event(&at(7, 8), 99, 50);
    let actions = engine.handle_captured_event(
        &InputEvent::KeyDown { keycode: 4, modifiers: Modifiers::from_bits_retain(1) },
        0,
        0,
    );
    assert_eq!(actions.len(), 1);
    assert!(matches!(
        &actions[0],
        EngineAction::Send { to: PEER, event: InputEvent::KeyDown { keycode: 4, .. } }
    ));
    let actions = engine.handle_captured_event(&at(1, 1), 50, 50);
    assert_eq!(actions.len(), 1);
    assert!(matches!(&actions[0], EngineAction::Send { to: PEER, .. }));
    assert_eq!(engine.get_cursor_owner(), CursorOwner::Remote(PEER));
}

#[test]
fn input_inside_the_screen_stays_local() {
    let mut engine = host(Some("67e55044-10b1-426f-9247-bb680e5fe0c8"));
    assert!(engine.handle_captured_event(&at(7, 8), 50, 50).is_empty());
    let click = InputEvent::MouseDown { button: MouseButton::Left };
    assert!(engine.handle_captured_event(&click, 99, 50).is_empty());
    assert_eq!(engine.get_cursor_owner(), CursorOwner::Local);
}

#[test]
fn a_client_ignores_captured_input() {
    let mut engine = host(Some("67e55044-10b1-426f-9247-bb680e5fe0c8"));
    engine.set_role(Role::Client);
    assert!(engine.handle_captured_event(&at(7, 8), 99, 50).is_empty());
    assert_eq!(engine.get_cursor_owner(), CursorOwner::Local);
}

#[test]
fn a_neighbor_without_peer_is_no_crossing() {
    let mut engine = host(None);
    assert!(engine.handle_captured_event(&at(7, 8), 99, 50).is_empty());
    assert_eq!(engine.get_cursor_owner(), CursorOwner::Local);
}

#[test]
fn an_unreadable_peer_only_hides_the_cursor() {
    let mut engine = host(Some("nobody"));
    let actions = engine.handle_captured_event(&at(7, 8), 99, 50);
    assert_eq!(actions.len(), 1);
    assert!(matches!(actions[0], EngineAction::HideCursor));
    assert_eq!(engine.get_cursor_owner(), CursorOwner::Local);
}

#[test]
fn peer_ids_are_read_in_four_forms() {
    assert_eq!(crosses("67e55044-10b1-426f-9247-bb680e5fe0c8"), Some(PEER));
    assert_eq!(crosses("67E55044-10B1-426F-9247-BB680E5FE0C8"), Some(PEER));
    assert_eq!(crosses("67e5504410b1426f9247bb680e5fe0c8"), Some(PEER));
    assert_eq!(crosses("{67e55044-10b1-426f-9247-bb680e5fe0c8}"), Some(PEER));
    assert_eq!(crosses("urn:uuid:67e55044-10b1-426f-9247-bb680e5fe0c8"), Some(PEER));
    assert_eq!(crosses("URN:UUID:67e55044-10b1-426f-9247-bb680e5fe0c8"), Some(PEER));
}

#[test]
fn other_peer_texts_are_refused() {
    assert_eq!(crosses(""), None);
    assert_eq!(crosses("67e5504410b1426f9247bb680e5fe0c"), None);
    assert_eq!(crosses("67e5504410b1426f9247bb680e5fe0cg"), None);
    assert_eq!(crosses("67e55044-10b1-426f-9247bb680e5fe0c8-"), None);
    assert_eq!(crosses("67e55044-10b1-426f-9247-bb680e5fe0c8 "), None);
    assert_eq!(crosses("(67e55044-10b1-426f-9247-bb680e5fe0c8)"), None);
    assert_eq!(crosses("{67e5504410b1426f9247bb680e5fe0c8}"), None);
    assert_eq!(crosses("urn:uuie:67e55044-10b1-426f-9247-bb680e5fe0c8"), None);
    assert_eq!(crosses("67e55044-10b1-426f-9247-bb680e5fe\u{e9}c"), None);
}

#[test]
fn entering_and_leaving() {
    let mut engine = Engine::new("me".to_string());
    let actions = engine.handle_network_event(5, &InputEvent::CursorEnter { x: 3, y: 4 });
    assert_eq!(actions.len(), 2);
    assert!(matches!(actions[0], EngineAction::ShowCursor));
    assert!(matches!(
        actions[1],
        EngineAction::Inject { event: InputEvent::MouseMoveAbsolute { x: 3, y: 4 } }
    ));
    assert_eq!(engine.get_cursor_owner(), CursorOwner::Local);
    assert_eq!(engine.get_receiving_from(), Some(5));
    let actions = engine.handle_network_event(5, &InputEvent::Scroll { dx: 1, dy: 2 });
    assert_eq!(actions.len(), 1);
    assert!(matches!(
        actions[0],
        EngineAction::Inject { event: InputEvent::Scroll { dx: 1, dy: 2 } }
    ));
    let actions = engine.handle_network_event(5, &InputEvent::CursorLeave);
    assert_eq!(actions.len(), 1);
    assert!(matches!(actions[0], EngineAction::HideCursor));
    assert_eq!(engine.get_cursor_owner(), CursorOwner::Remote(5));
    assert_eq!(engine.get_receiving_from(), None);
    assert!(engine.handle_network_event(5, &InputEvent::Ping).is_empty());
}

#[test]
fn a_cursor_that_comes_back_is_local() {
    let mut engine = host(Some("67e55044-10b1-426f-9247-bb680e5fe0c8"));
    engine.handle_captured_event(&at(7, 8), 99, 50);
    assert_eq!(engine.get_cursor_owner(), CursorOwner::Remote(PEER));
    engine.handle_network_event(PEER, &InputEvent::CursorEnter { x: 0, y: 0 });
    assert_eq!(engine.get_cursor_owner(), CursorOwner::Local);
    assert_eq!(engine.get_receiving_from(), Some(PEER));
}

#[test]
fn a_crossing_lets_network_events_in() {
    let mut engine = host(Some("67e55044-10b1-426f-9247-bb680e5fe0c8"));
    assert!(engine.handle_network_event(PEER, &InputEvent::Ping).is_empty());
    engine.handle_captured_event(&at(7, 8), 99, 50);
    assert_eq!(engine.get_receiving_from(), Some(PEER));
    for from in [PEER, 4] {
        let actions = engine.handle_network_event(from, &InputEvent::MouseMove { dx: 1, dy: 2 });
        assert_eq!(actions.len(), 1);
        assert!(matches!(
            actions[0],
            EngineAction::Inject { event: InputEvent::MouseMove { dx: 1, dy: 2 } }
        ));
    }
    engine.handle_network_event(PEER, &InputEvent::CursorLeave);
    assert!(engine.handle_network_event(PEER, &InputEvent::Ping).is_empty());
}

#[test]
fn nothing_is_injected_before_a_cursor_enters_or_crosses() {
    let mut engine = Engine::new("me".to_string());
    let actions = engine.handle_network_event(5, &InputEvent::MouseMove { dx: 1, dy: 2 });
    assert!(actions.is_empty());
    assert_eq!(engine.get_cursor_owner(), CursorOwner::Local);
}

#[test]
fn captured_input_is_injected_at_the_peer() {
    let mut sender = host(Some("67e55044-10b1-426f-9247-bb680e5fe0c8"));
    sender.handle_captured_event(&at(7, 8), 99, 50);
    let mut receiver = Engine::new("there".to_string());
    receiver.handle_network_event(3, &InputEvent::CursorEnter { x: 0, y: 0 });

    let captured = vec![
        InputEvent::MouseMove { dx: 4, dy: -5 },
        InputEvent::MouseDown { button: MouseButton::Other(6) },
        InputEvent::Scroll { dx: 0, dy: 1 },
    ];
    let mut wire = Vec::new();
    for event in &captured {
        for action in sender.handle_captured_event(event, 0, 0) {
            match action {
                EngineAction::Send { to, event } => {
                    assert_eq!(to, PEER);
                    wire.extend(EventCodec::encode(&event).unwrap());
                }
                other => panic!("{:?}", other),
            }
        }
    }

    let mut reader = EventReader::new();
    let mut injected = Vec::new();
    for part in wire.chunks(5) {
        let (events, outcome) = reader.read_step(part);
        assert_eq!(outcome, ReadOutcome::Continue);
        for event in events {
            for action in receiver.handle_network_event(3, &event) {
                match action {
                    EngineAction::Inject { event } => injected.push(format!("{:?}", event)),
                    other => panic!("{:?}", other),
                }
            }
        }
    }
    let expected: Vec<String> = captured.iter().map(|e| format!("{:?}", e)).collect();
    assert_eq!(injected, expected);
}

#[test]
fn only_local_moves_of_a_host_need_coordinates() {
    let mut engine = Engine::new("local".to_string());
    engine.set_layout(ScreenLayout { screens: vec![screen("local", i32::MAX, None)] });
    assert!(engine.can_handle_captured_event(&at(1, 1), 0, 0));
    engine.set_role(Role::Host);
    assert!(!engine.can_handle_captured_event(&at(1, 1), 0, 0));
    assert!(engine.can_handle_captured_event(&InputEvent::Ping, 0, 0));
}
