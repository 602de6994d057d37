use share_mouse::commands::{
    connect_to_host, get_cursor_state, get_peers, get_role, get_screen_layout, local_screen_id,
    set_role_client, set_role_host, set_screen_layout, stop_engine, AppState,
};
use share_mouse::engine::EngineAction;
use share_mouse::network::PeerEvent;
use share_mouse::protocol::InputEvent;
use share_mouse::screen::{ScreenInfo, ScreenLayout, ScreenRect};

const ID: u128 = 0x67e5_5044_10b1_426f_9247_bb68_0e5f_e0c8;

#[test]
fn roles_have_names() {
    let mut state = AppState::new();
    assert_eq!(get_role(&state).role, "client");
    let change = set_role_host(&mut state);
    assert_eq!(get_role(&state).role, "host");
    assert_eq!(change.serve, Some(24800));
    assert_eq!(change.actions.len(), 1);
    assert!(matches!(change.actions[0], EngineAction::StartCapture));
    let change = set_role_client(&mut state);
    assert_eq!(get_role(&state).role, "client");
    assert_eq!(change.serve, None);
    assert_eq!(change.actions.len(), 1);
    assert!(matches!(change.actions[0], EngineAction::StopCapture));
}

#[test]
fn local_screen_ids_are_random() {
    let first = AppState::new().engine.get_local_screen_id();
    let second = AppState::new().engine.get_local_screen_id();
    assert!(first.starts_with("local-"));
    assert_eq!(first.len(), 42);
    assert_ne!(first, second);
    assert_eq!(local_screen_id(ID), "local-67e55044-10b1-426f-9247-bb680e5fe0c8");
}

#[test]
fn the_layout_is_read_back() {
    let mut state = AppState::new();
    assert!(get_screen_layout(&state).screens.is_empty());
    let screen = ScreenInfo {
        id: "a".to_string(),
        name: "b".to_string(),
        rect: ScreenRect { x: 1, y: 2, width: 3, height: 4 },
        peer_id: Some("c".to_string()),
        width: 5,
        height: 6,
        dpi: 7,
    };
    set_screen_layout(&mut state, ScreenLayout { screens: vec![screen.clone()] });
    let layout = get_screen_layout(&state);
    assert_eq!(layout.screens.len(), 1);
    assert_eq!(format!("{:?}", layout.screens[0]), format!("{:?}", screen));
}

#[test]
fn the_cursor_state_names_the_peer() {
    let mut state = AppState::new();
    let info = get_cursor_state(&state);
    assert_eq!(info.owner, "local");
    assert_eq!(info.peer_id, None);
    state.engine.handle_network_event(ID, &InputEvent::CursorEnter { x: 0, y: 0 });
    let info = get_cursor_state(&state);
    assert_eq!(info.owner, "local");
    assert_eq!(info.peer_id, None);
    state.engine.handle_network_event(ID, &InputEvent::CursorLeave);
    let info = get_cursor_state(&state);
    assert_eq!(info.owner, "remote");
    assert_eq!(info.peer_id, Some("67e55044-10b1-426f-9247-bb680e5fe0c8".to_string()));
}

#[test]
fn peers_are_described() {
    let mut state = AppState::new();
    assert!(get_peers(&state).is_empty());
    state.network.handle_peer(5, PeerEvent::Started { addr: Some("10.0.0.2:77".to_string()) });
    let infos = get_peers(&state);
    assert_eq!(infos.len(), 1);
    assert_eq!(infos[0].id, "00000000-0000-0000-0000-000000000005");
    assert_eq!(infos[0].addr, "10.0.0.2:77");
}

#[test]
fn connecting_tells_the_peer_or_the_reason() {
    assert_eq!(
        connect_to_host(Ok(ID)),
        Ok("67e55044-10b1-426f-9247-bb680e5fe0c8".to_string())
    );
    assert_eq!(connect_to_host(Err("refused".to_string())), Err("refused".to_string()));
}

#[test]
fn stopping_shows_the_cursor_and_disconnects() {
    let mut state = AppState::new();
    for id in [3, 5, 8] {
        state.network.handle_peer(id, PeerEvent::Started { addr: None });
    }
    set_role_host(&mut state);
    let stop = stop_engine(&mut state);
    assert_eq!(stop.actions.len(), 2);
    assert!(matches!(stop.actions[0], EngineAction::StopCapture));
    assert!(matches!(stop.actions[1], EngineAction::ShowCursor));
    let mut peers = stop.disconnect;
    peers.sort();
    assert_eq!(peers, vec![3, 5, 8]);
    assert!(get_peers(&state).is_empty());
    assert_eq!(get_role(&state).role, "host");
    assert!(stop_engine(&mut state).disconnect.is_empty());
}
