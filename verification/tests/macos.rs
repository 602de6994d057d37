use share_mouse::platform::macos::{
    apply_modifiers, btn_from_type, extract_modifiers, is_pos_event, mouse_button_to_cg,
    moved_position, raw_modifiers, raw_tap_callback, CaptureError, CgMouseButton, MacInjection,
    MacOSInput, RawEvent, TapState, TapVerdict, KCG_EVENT_FLAGS_CHANGED, KCG_EVENT_KEY_DOWN,
    KCG_EVENT_KEY_UP, KCG_EVENT_LEFT_DOWN, KCG_EVENT_LEFT_DRAGGED, KCG_EVENT_LEFT_UP,
    KCG_EVENT_MASK, KCG_EVENT_MOUSE_MOVED, KCG_EVENT_OTHER_DOWN, KCG_EVENT_OTHER_DRAGGED,
    KCG_EVENT_OTHER_UP, KCG_EVENT_RIGHT_DOWN, KCG_EVENT_RIGHT_DRAGGED, KCG_EVENT_RIGHT_UP,
    KCG_EVENT_SCROLL_WHEEL,
};
use share_mouse::protocol::{InputEvent, Modifiers, MouseButton};

const SHIFT: u64 = 0x2_0000;
const CONTROL: u64 = 0x4_0000;
const COMMAND: u64 = 0x10_0000;

fn raw(event_type: u32) -> RawEvent {
    RawEvent {
        event_type,
        delta_x: 0,
        delta_y: 0,
        button: 0,
        scroll_axis_1: 0,
        scroll_axis_2: 0,
        keycode: 0,
        flags: 0,
        x: 0,
        y: 0,
    }
}

fn moved(delta_x: i64, delta_y: i64) -> RawEvent {
    RawEvent { delta_x, delta_y, ..raw(KCG_EVENT_MOUSE_MOVED) }
}

fn flags(flags: u64) -> RawEvent {
    RawEvent { flags, ..raw(KCG_EVENT_FLAGS_CHANGED) }
}

fn sent(state: &mut TapState, event: &RawEvent) -> Vec<String> {
    let step = state.tap_callback_impl(event, true);
    assert!(!step.pass_through);
    step.sends.iter().map(|s| format!("{:?}", s.event)).collect()
}

fn text(event: InputEvent) -> String {
    format!("{:?}", event)
}

#[test]
fn positions_come_with_mouse_events() {
    for et in [1, 2, 3, 4, 5, 6, 7, 25, 26, 27] {
        assert!(is_pos_event(et));
    }
    for et in [0, 8, 9, 10, 11, 12, 22, 24, 28] {
        assert!(!is_pos_event(et));
    }
}

#[test]
fn the_mask_has_a_bit_for_every_event() {
    let mut mask: u64 = 0;
    for et in [
        KCG_EVENT_MOUSE_MOVED,
        KCG_EVENT_LEFT_DOWN,
        KCG_EVENT_LEFT_UP,
        KCG_EVENT_RIGHT_DOWN,
        KCG_EVENT_RIGHT_UP,
        KCG_EVENT_OTHER_DOWN,
        KCG_EVENT_OTHER_UP,
        KCG_EVENT_LEFT_DRAGGED,
        KCG_EVENT_RIGHT_DRAGGED,
        KCG_EVENT_OTHER_DRAGGED,
        KCG_EVENT_SCROLL_WHEEL,
        KCG_EVENT_KEY_DOWN,
        KCG_EVENT_KEY_UP,
        KCG_EVENT_FLAGS_CHANGED,
    ] {
        mask |= 1 << et;
    }
    assert_eq!(KCG_EVENT_MASK, mask);
}

#[test]
fn buttons_are_told_by_type_and_number() {
    assert_eq!(btn_from_type(KCG_EVENT_LEFT_DRAGGED, 9), MouseButton::Left);
    assert_eq!(btn_from_type(KCG_EVENT_RIGHT_UP, 9), MouseButton::Right);
    assert_eq!(btn_from_type(KCG_EVENT_OTHER_DOWN, 2), MouseButton::Other(2));
    assert_eq!(btn_from_type(KCG_EVENT_OTHER_DOWN, 0x1ff), MouseButton::Other(0xff));
    assert_eq!(btn_from_type(KCG_EVENT_OTHER_DOWN, -1), MouseButton::Other(0xff));
}

#[test]
fn modifiers_are_read_from_flags() {
    assert_eq!(raw_modifiers(0).bits, 0);
    assert_eq!(raw_modifiers(0x2_0000).bits, Modifiers::SHIFT);
    assert_eq!(raw_modifiers(0x4_0000).bits, Modifiers::CTRL);
    assert_eq!(raw_modifiers(0x8_0000).bits, Modifiers::ALT);
    assert_eq!(raw_modifiers(0x10_0000).bits, Modifiers::META);
    assert_eq!(raw_modifiers(0x1_0000).bits, Modifiers::CAPS);
    assert_eq!(raw_modifiers(u64::MAX).bits, 0x1f);
    assert_eq!(extract_modifiers(0x6_0000).bits, Modifiers::SHIFT | Modifiers::CTRL);
}

#[test]
fn modifiers_survive_injection() {
    for bits in 0..0x20u8 {
        let flags = apply_modifiers(Modifiers::from_bits_retain(bits));
        assert_eq!(flags & 0x100, 0x100);
        assert_eq!(raw_modifiers(flags).bits, bits);
    }
    assert_eq!(apply_modifiers(Modifiers::from_bits_retain(0x03)), 0x6_0100);
}

#[test]
fn local_events_pass_through() {
    let mut state = TapState::new();
    let event = RawEvent { x: 5, y: 6, ..raw(KCG_EVENT_LEFT_DOWN) };
    let step = state.tap_callback_impl(&event, false);
    assert!(step.pass_through);
    assert!(!step.recenter);
    assert_eq!(step.sends.len(), 1);
    assert!(matches!(step.sends[0].event, InputEvent::MouseMoveAbsolute { x: 5, y: 6 }));
    let step = state.tap_callback_impl(&raw(KCG_EVENT_KEY_DOWN), false);
    assert!(step.pass_through);
    assert!(step.sends.is_empty());
}

#[test]
fn remote_movement_is_forwarded_and_recentered() {
    let mut state = TapState::new();
    let step = state.tap_callback_impl(&moved(3, -4), true);
    assert!(!step.pass_through);
    assert!(step.recenter);
    assert_eq!(step.sends.len(), 1);
    assert!(matches!(step.sends[0].event, InputEvent::MouseMove { dx: 3, dy: -4 }));
    let step = state.tap_callback_impl(&moved(0, 0), true);
    assert!(step.recenter);
    assert!(step.sends.is_empty());
}

#[test]
fn deltas_keep_their_low_bits() {
    let mut state = TapState::new();
    assert_eq!(
        sent(&mut state, &moved(0x1_8000, -0x1_0001)),
        vec![text(InputEvent::MouseMove { dx: -32768, dy: -1 })]
    );
}

#[test]
fn movement_without_room_goes_out_later() {
    let mut state = TapState::new();
    for _ in 0..3 {
        let step = state.tap_callback_impl(&moved(10, -1), true);
        assert_eq!(state.send_failed(&step.sends[0]), None);
    }
    assert_eq!(state.drops, 3);
    assert_eq!((state.pending_dx, state.pending_dy), (30, -3));
    assert_eq!(
        sent(&mut state, &moved(1, 1)),
        vec![text(InputEvent::MouseMove { dx: 31, dy: -2 })]
    );
    assert_eq!((state.pending_dx, state.pending_dy), (0, 0));
}

#[test]
fn waiting_movement_is_clamped() {
    let mut state = TapState::new();
    let step = state.tap_callback_impl(&moved(32767, -32768), true);
    state.send_failed(&step.sends[0]);
    assert_eq!(
        sent(&mut state, &moved(10, -10)),
        vec![text(InputEvent::MouseMove { dx: 32767, dy: -32768 })]
    );
}

#[test]
fn waiting_movement_goes_out_before_a_click() {
    let mut state = TapState::new();
    let step = state.tap_callback_impl(&moved(5, 6), true);
    state.send_failed(&step.sends[0]);
    assert_eq!(
        sent(&mut state, &raw(KCG_EVENT_LEFT_DOWN)),
        vec![
            text(InputEvent::MouseMove { dx: 5, dy: 6 }),
            text(InputEvent::MouseDown { button: MouseButton::Left }),
        ]
    );
    assert_eq!(
        sent(&mut state, &raw(KCG_EVENT_LEFT_UP)),
        vec![text(InputEvent::MouseUp { button: MouseButton::Left })]
    );
}

#[test]
fn a_lost_flush_is_not_kept() {
    let mut state = TapState::new();
    let step = state.tap_callback_impl(&moved(5, 6), true);
    state.send_failed(&step.sends[0]);
    let step = state.tap_callback_impl(&raw(KCG_EVENT_LEFT_DOWN), true);
    state.send_failed(&step.sends[0]);
    assert_eq!(state.drops, 2);
    assert_eq!((state.pending_dx, state.pending_dy), (0, 0));
}

#[test]
fn keys_and_wheels_are_forwarded() {
    let mut state = TapState::new();
    let key = RawEvent { keycode: 0x1_0024, flags: SHIFT, ..raw(KCG_EVENT_KEY_DOWN) };
    let modifiers = Modifiers::from_bits_retain(Modifiers::SHIFT);
    assert_eq!(
        sent(&mut state, &key),
        vec![text(InputEvent::KeyDown { keycode: 0x24, modifiers })]
    );
    let key = RawEvent { keycode: 0x24, flags: SHIFT, ..raw(KCG_EVENT_KEY_UP) };
    assert_eq!(sent(&mut state, &key), vec![text(InputEvent::KeyUp { keycode: 0x24, modifiers })]);
    let wheel = RawEvent { scroll_axis_1: -2, scroll_axis_2: 7, ..raw(KCG_EVENT_SCROLL_WHEEL) };
    assert_eq!(sent(&mut state, &wheel), vec![text(InputEvent::Scroll { dx: 7, dy: -2 })]);
    assert!(sent(&mut state, &raw(14)).is_empty());
}

#[test]
fn modifier_keys_are_told_from_flags() {
    let mut state = TapState::new();
    assert!(sent(&mut state, &flags(SHIFT)).is_empty());
    let both = Modifiers::from_bits_retain(Modifiers::SHIFT | Modifiers::META);
    assert_eq!(
        sent(&mut state, &flags(SHIFT | COMMAND)),
        vec![text(InputEvent::KeyDown { keycode: 55, modifiers: both })]
    );
    let control = Modifiers::from_bits_retain(Modifiers::CTRL);
    assert_eq!(
        sent(&mut state, &flags(CONTROL)),
        vec![
            text(InputEvent::KeyUp { keycode: 56, modifiers: control }),
            text(InputEvent::KeyDown { keycode: 59, modifiers: control }),
            text(InputEvent::KeyUp { keycode: 55, modifiers: control }),
        ]
    );
    assert!(sent(&mut state, &flags(CONTROL)).is_empty());
}

#[test]
fn leaving_the_remote_screen_forgets_modifiers() {
    let mut state = TapState::new();
    sent(&mut state, &flags(0));
    state.tap_callback_impl(&moved(1, 1), false);
    assert!(sent(&mut state, &flags(SHIFT)).is_empty());
}

#[test]
fn every_thousandth_drop_is_reported() {
    let mut state = TapState::new();
    let step = state.tap_callback_impl(&moved(0, 1), true);
    let mut reports = Vec::new();
    for _ in 0..2000 {
        if let Some(count) = state.send_failed(&step.sends[0]) {
            reports.push(count);
        }
    }
    assert_eq!(reports, vec![1000, 2000]);
}

#[test]
fn a_stopped_tap_drops_events() {
    assert_eq!(raw_tap_callback(false, true, true), TapVerdict::PassThrough);
    assert_eq!(raw_tap_callback(true, false, true), TapVerdict::PassThrough);
    assert_eq!(raw_tap_callback(true, true, true), TapVerdict::Handle);
    assert_eq!(raw_tap_callback(true, true, false), TapVerdict::Drop);
}

#[test]
fn only_one_tap_runs() {
    let mut input = MacOSInput::new();
    assert_eq!(input.start_capture(), Ok(()));
    assert_eq!(input.tap_created(77), Ok(()));
    input.runloop_started(88);
    assert_eq!(input.start_capture(), Err(CaptureError::AlreadyRunning));
    let teardown = input.stop_capture();
    assert_eq!(teardown.disable_tap, Some(77));
    assert_eq!(teardown.stop_runloop, Some(88));
    let teardown = input.stop_capture();
    assert_eq!(teardown.disable_tap, None);
    assert_eq!(teardown.stop_runloop, None);
    assert_eq!(input.start_capture(), Ok(()));
    assert_eq!(input.tap_created(0), Err(CaptureError::TapRefused));
    assert_eq!(input.start_capture(), Ok(()));
}

#[test]
fn capture_errors_have_messages() {
    assert_eq!(
        CaptureError::AlreadyRunning.message(),
        "CGEventTap is already running — stop the engine first"
    );
    assert_eq!(
        CaptureError::TapRefused.message(),
        "CGEventTap failed — grant Accessibility + Input Monitoring in System Settings"
    );
}

#[test]
fn remote_mode_lifts_the_suppression() {
    let mut input = MacOSInput::new();
    assert!(input.set_is_remote(true));
    assert!(input.tap_is_remote);
    assert!(!input.set_is_remote(false));
    assert!(!input.tap_is_remote);
}

#[test]
fn mac_buttons() {
    assert_eq!(mouse_button_to_cg(MouseButton::Left), CgMouseButton::Left);
    assert_eq!(mouse_button_to_cg(MouseButton::Right), CgMouseButton::Right);
    assert_eq!(mouse_button_to_cg(MouseButton::Middle), CgMouseButton::Center);
    assert_eq!(mouse_button_to_cg(MouseButton::Other(0)), CgMouseButton::Left);
    assert_eq!(mouse_button_to_cg(MouseButton::Other(1)), CgMouseButton::Right);
    assert_eq!(mouse_button_to_cg(MouseButton::Other(2)), CgMouseButton::Center);
    assert_eq!(mouse_button_to_cg(MouseButton::Other(3)), CgMouseButton::Left);
}

#[test]
fn mac_injection() {
    let input = MacOSInput::new();
    assert_eq!(
        input.inject_event(&InputEvent::MouseMove { dx: 1, dy: -2 }),
        MacInjection::MoveBy { dx: 1, dy: -2 }
    );
    assert_eq!(moved_position(100, 200, 1, -2), (101, 198));
    assert_eq!(
        input.inject_event(&InputEvent::CursorEnter { x: 1, y: 2 }),
        MacInjection::MoveTo { x: 1, y: 2 }
    );
    assert_eq!(
        input.inject_event(&InputEvent::MouseMoveAbsolute { x: 1, y: 2 }),
        MacInjection::MoveTo { x: 1, y: 2 }
    );
    assert_eq!(
        input.inject_event(&InputEvent::MouseDown { button: MouseButton::Middle }),
        MacInjection::Button { event_type: 25, button: CgMouseButton::Center }
    );
    assert_eq!(
        input.inject_event(&InputEvent::MouseUp { button: MouseButton::Right }),
        MacInjection::Button { event_type: 4, button: CgMouseButton::Right }
    );
    assert_eq!(
        input.inject_event(&InputEvent::Scroll { dx: 3, dy: -4 }),
        MacInjection::Scroll { axis_1: -4, axis_2: 3 }
    );
    let modifiers = Modifiers::from_bits_retain(Modifiers::META);
    assert_eq!(
        input.inject_event(&InputEvent::KeyDown { keycode: 8, modifiers }),
        MacInjection::Key { keycode: 8, down: true, flags: 0x10_0100 }
    );
    assert_eq!(
        input.inject_event(&InputEvent::KeyUp { keycode: 8, modifiers }),
        MacInjection::Key { keycode: 8, down: false, flags: 0x10_0100 }
    );
    assert_eq!(input.inject_event(&InputEvent::Ping), MacInjection::Nothing);
}
