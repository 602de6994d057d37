use share_mouse::platform::windows::{
    keyboard_hook_callback, mac_keycode_to_win_vk, mouse_hook_callback, send_key_event,
    send_mouse_event, KeyInput, MouseInput, WinInjection, WindowsInput, MOUSEEVENTF_MOVE,
    MOUSEEVENTF_MOVE_NOCOALESCE, RELATIVE_MOVE, VK_ADD, VK_LWIN, VK_NUMLOCK, VK_RWIN,
    VK_SUBTRACT, VK_VOLUME_DOWN, VK_VOLUME_UP,
};
use share_mouse::protocol::{InputEvent, Modifiers, MouseButton};

fn mouse(flags: u32, dx: i32, dy: i32, mouse_data: u32) -> WinInjection {
    WinInjection::Mouse(MouseInput { dx, dy, mouse_data, flags })
}

#[test]
fn letters_and_digits_are_translated() {
    assert_eq!(mac_keycode_to_win_vk(0x00), 0x41);
    assert_eq!(mac_keycode_to_win_vk(0x2e), 0x4d);
    assert_eq!(mac_keycode_to_win_vk(0x12), 0x31);
    assert_eq!(mac_keycode_to_win_vk(0x1d), 0x30);
    assert_eq!(mac_keycode_to_win_vk(0x17), 0x35);
}

#[test]
fn special_keys_are_translated() {
    assert_eq!(mac_keycode_to_win_vk(0x24), 0x0d);
    assert_eq!(mac_keycode_to_win_vk(0x31), 0x20);
    assert_eq!(mac_keycode_to_win_vk(0x37), 0xa2);
    assert_eq!(mac_keycode_to_win_vk(0x36), 0xa3);
    assert_eq!(mac_keycode_to_win_vk(0x3b), 0x5b);
    assert_eq!(mac_keycode_to_win_vk(0x3e), 0x5c);
    assert_eq!(mac_keycode_to_win_vk(0x45), 0x6b);
    assert_eq!(mac_keycode_to_win_vk(0x4e), 0x6d);
    assert_eq!(mac_keycode_to_win_vk(0x47), 0x90);
    assert_eq!(mac_keycode_to_win_vk(0x48), 0xaf);
    assert_eq!(mac_keycode_to_win_vk(0x49), 0xae);
    assert_eq!(mac_keycode_to_win_vk(0x4a), 0xad);
    assert_eq!(mac_keycode_to_win_vk(0x72), 0x2d);
    assert_eq!(mac_keycode_to_win_vk(0x73), 0x2e);
    assert_eq!(mac_keycode_to_win_vk(0x7a), 0x70);
    assert_eq!(mac_keycode_to_win_vk(0x6f), 0x7b);
    assert_eq!(mac_keycode_to_win_vk(0x7e), 0x26);
    assert_eq!(mac_keycode_to_win_vk(0x5c), 0x69);
    assert_eq!(mac_keycode_to_win_vk(0x79), 0x03);
}

#[test]
fn named_keys_have_their_numbers() {
    assert_eq!((VK_LWIN, VK_RWIN), (0x5b, 0x5c));
    assert_eq!((VK_ADD, VK_SUBTRACT, VK_NUMLOCK), (0x6b, 0x6d, 0x90));
    assert_eq!((VK_VOLUME_DOWN, VK_VOLUME_UP), (0xae, 0xaf));
}

#[test]
fn other_keys_keep_their_number() {
    assert_eq!(mac_keycode_to_win_vk(0x0a), 0x0a);
    assert_eq!(mac_keycode_to_win_vk(0x42), 0x42);
    assert_eq!(mac_keycode_to_win_vk(0xffff), 0xffff);
}

#[test]
fn every_typing_key_is_different() {
    let mut keys: Vec<u16> = (0..=0x33).map(mac_keycode_to_win_vk).collect();
    keys.sort();
    keys.dedup();
    assert_eq!(keys.len(), 0x34);
    for vk in (0x30..=0x39).chain(0x41..=0x5a) {
        assert!(keys.contains(&vk));
    }
}

#[test]
fn mouse_messages_are_read() {
    let read = |event_type| mouse_hook_callback(0, event_type, 0, 11, 22);
    assert!(matches!(read(0x0200), Some(InputEvent::MouseMoveAbsolute { x: 11, y: 22 })));
    assert!(matches!(read(0x0201), Some(InputEvent::MouseDown { button: MouseButton::Left })));
    assert!(matches!(read(0x0202), Some(InputEvent::MouseUp { button: MouseButton::Left })));
    assert!(matches!(read(0x0204), Some(InputEvent::MouseDown { button: MouseButton::Right })));
    assert!(matches!(read(0x0205), Some(InputEvent::MouseUp { button: MouseButton::Right })));
    assert!(matches!(read(0x0207), Some(InputEvent::MouseDown { button: MouseButton::Middle })));
    assert!(matches!(read(0x0208), Some(InputEvent::MouseUp { button: MouseButton::Middle })));
    assert!(read(0x0203).is_none());
    assert!(mouse_hook_callback(-1, 0x0200, 0, 11, 22).is_none());
}

#[test]
fn wheel_messages_are_counted_in_notches() {
    let up = 240u32 << 16;
    assert!(matches!(
        mouse_hook_callback(0, 0x020a, up | 0xffff, 0, 0),
        Some(InputEvent::Scroll { dx: 0, dy: 2 })
    ));
    let left = (-121i32 as u32) << 16;
    assert!(matches!(
        mouse_hook_callback(0, 0x020e, left, 0, 0),
        Some(InputEvent::Scroll { dx: -1, dy: 0 })
    ));
    let small = (-119i32 as u32) << 16;
    assert!(matches!(
        mouse_hook_callback(0, 0x020a, small, 0, 0),
        Some(InputEvent::Scroll { dx: 0, dy: 0 })
    ));
    assert!(matches!(
        mouse_hook_callback(0, 0x020a, 0x8000_0000, 0, 0),
        Some(InputEvent::Scroll { dx: 0, dy: -273 })
    ));
}

#[test]
fn keyboard_messages_are_read() {
    let alt = Modifiers::from_bits_retain(Modifiers::ALT);
    match keyboard_hook_callback(0, 0x0100, 0x1_0041, 0x10) {
        Some(InputEvent::KeyDown { keycode, modifiers }) => {
            assert_eq!(keycode, 0x41);
            assert_eq!(modifiers, alt);
        }
        other => panic!("{:?}", other),
    }
    match keyboard_hook_callback(0, 0x0105, 0x42, 0x30) {
        Some(InputEvent::KeyUp { keycode, modifiers }) => {
            assert_eq!(keycode, 0x42);
            assert_eq!(modifiers.bits, Modifiers::ALT | Modifiers::META);
        }
        other => panic!("{:?}", other),
    }
    assert!(matches!(
        keyboard_hook_callback(0, 0x0104, 1, 0),
        Some(InputEvent::KeyDown { keycode: 1, .. })
    ));
    assert!(matches!(
        keyboard_hook_callback(0, 0x0101, 1, 0x20),
        Some(InputEvent::KeyUp { keycode: 1, .. })
    ));
    assert!(keyboard_hook_callback(0, 0x0102, 1, 0).is_none());
    assert!(keyboard_hook_callback(-1, 0x0100, 1, 0).is_none());
}

#[test]
fn negative_mouse_data_keeps_its_bits() {
    assert_eq!(
        send_mouse_event(0x0800, 0, 0, -120),
        MouseInput { dx: 0, dy: 0, mouse_data: 0xffff_ff88, flags: 0x0800 }
    );
    assert_eq!(send_key_event(0x41, false), KeyInput { vk: 0x41, flags: 0 });
    assert_eq!(send_key_event(0x41, true), KeyInput { vk: 0x41, flags: 2 });
}

#[test]
fn windows_injection() {
    let input = WindowsInput::new();
    assert_eq!(RELATIVE_MOVE, MOUSEEVENTF_MOVE | MOUSEEVENTF_MOVE_NOCOALESCE);
    assert_eq!(
        input.inject_event(&InputEvent::MouseMove { dx: -3, dy: 4 }),
        vec![mouse(0x2001, -3, 4, 0)]
    );
    assert_eq!(
        input.inject_event(&InputEvent::MouseMoveAbsolute { x: 1, y: 2 }),
        vec![WinInjection::WarpTo { x: 1, y: 2 }]
    );
    assert_eq!(
        input.inject_event(&InputEvent::CursorEnter { x: 1, y: 2 }),
        vec![WinInjection::WarpAndTrack { x: 1, y: 2 }]
    );
    assert_eq!(
        input.inject_event(&InputEvent::MouseDown { button: MouseButton::Other(4) }),
        vec![mouse(0x20, 0, 0, 0)]
    );
    assert_eq!(
        input.inject_event(&InputEvent::MouseUp { button: MouseButton::Left }),
        vec![mouse(0x04, 0, 0, 0)]
    );
    assert_eq!(
        input.inject_event(&InputEvent::Scroll { dx: 1, dy: -1 }),
        vec![mouse(0x0800, 0, 0, 0xffff_ff88), mouse(0x1000, 0, 0, 120)]
    );
    assert_eq!(
        input.inject_event(&InputEvent::Scroll { dx: 2, dy: 0 }),
        vec![mouse(0x1000, 0, 0, 240)]
    );
    assert!(input.inject_event(&InputEvent::Scroll { dx: 0, dy: 0 }).is_empty());
    let modifiers = Modifiers::from_bits_retain(0);
    assert_eq!(
        input.inject_event(&InputEvent::KeyDown { keycode: 0, modifiers }),
        vec![WinInjection::Key(KeyInput { vk: 0x41, flags: 0 })]
    );
    assert_eq!(
        input.inject_event(&InputEvent::KeyUp { keycode: 0, modifiers }),
        vec![WinInjection::Key(KeyInput { vk: 0x41, flags: 2 })]
    );
    assert!(input.inject_event(&InputEvent::Pong).is_empty());
}

#[test]
fn windows_capture_state() {
    let mut input = WindowsInput::new();
    input.start_capture();
    assert!(input.capturing);
    input.track(5, 6);
    assert_eq!((input.vx, input.vy), (5, 6));
    input.stop_capture();
    assert!(!input.capturing);
}
