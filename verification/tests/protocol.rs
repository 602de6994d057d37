use share_mouse::codec::{CodecError, EventCodec};
use share_mouse::protocol::{InputEvent, Modifiers, MouseButton};

fn text(event: &InputEvent) -> String {
    format!("{:?}", event)
}

fn check(event: InputEvent, payload: &[u8]) {
    let encoded = EventCodec::encode(&event).unwrap();
    assert_eq!(encoded[..4], (payload.len() as u32).to_be_bytes());
    assert_eq!(&encoded[4..], payload);
    let (decoded, consumed) = EventCodec::decode(&encoded).unwrap().unwrap();
    assert_eq!(consumed, encoded.len());
    assert_eq!(text(&decoded), text(&event));
    assert_eq!(text(&event.clone()), text(&event));
}

#[test]
fn roundtrip_mouse_move() {
    let event = InputEvent::MouseMove { dx: 100, dy: -50 };
    let encoded = EventCodec::encode(&event).unwrap();
    let (decoded, consumed) = EventCodec::decode(&encoded)
        .unwrap()
        .expect("should decode");

    assert_eq!(consumed, encoded.len());
    if let InputEvent::MouseMove { dx, dy } = decoded {
        assert_eq!(dx, 100);
        assert_eq!(dy, -50);
    } else {
        panic!("wrong event type");
    }
}

#[test]
fn decode_partial_returns_none() {
    let event = InputEvent::MouseMove { dx: 1, dy: 2 };
    let encoded = EventCodec::encode(&event).unwrap();
    // Only feed first 2 bytes (incomplete length header)
    assert!(EventCodec::decode(&encoded[..2]).unwrap().is_none());
}

#[test]
fn roundtrip_key_event() {
    let event = InputEvent::KeyDown {
        keycode: 0x24,
        modifiers: Modifiers::from_bits_retain(Modifiers::SHIFT | Modifiers::META),
    };
    let encoded = EventCodec::encode(&event).unwrap();
    let (decoded, _) = EventCodec::decode(&encoded).unwrap().unwrap();

    if let InputEvent::KeyDown { keycode, modifiers } = decoded {
        assert_eq!(keycode, 0x24);
        assert!(modifiers.contains(Modifiers::SHIFT));
        assert!(modifiers.contains(Modifiers::META));
    } else {
        panic!("wrong event type");
    }
}

#[test]
fn movement_payloads_are_exact() {
    check(InputEvent::MouseMove { dx: 100, dy: -50 }, &[0, 0, 0, 0, 100, 0, 0xce, 0xff]);
    check(
        InputEvent::MouseMoveAbsolute { x: 0.5f32.to_bits(), y: 1.0f32.to_bits() },
        &[1, 0, 0, 0, 0, 0, 0, 0x3f, 0, 0, 0x80, 0x3f],
    );
    check(InputEvent::Scroll { dx: -1, dy: 3 }, &[4, 0, 0, 0, 0xff, 0xff, 3, 0]);
    check(
        InputEvent::CursorEnter { x: 0x0102_0304, y: 5 },
        &[9, 0, 0, 0, 4, 3, 2, 1, 5, 0, 0, 0],
    );
}

#[test]
fn button_payloads_are_exact() {
    check(InputEvent::MouseDown { button: MouseButton::Left }, &[2, 0, 0, 0, 0, 0, 0, 0]);
    check(InputEvent::MouseUp { button: MouseButton::Right }, &[3, 0, 0, 0, 1, 0, 0, 0]);
    check(InputEvent::MouseDown { button: MouseButton::Middle }, &[2, 0, 0, 0, 2, 0, 0, 0]);
    check(InputEvent::MouseUp { button: MouseButton::Other(7) }, &[3, 0, 0, 0, 3, 0, 0, 0, 7]);
}

#[test]
fn key_payloads_are_exact() {
    let modifiers = Modifiers::from_bits_retain(0x09);
    check(InputEvent::KeyDown { keycode: 0x1234, modifiers }, &[5, 0, 0, 0, 0x34, 0x12, 9]);
    check(InputEvent::KeyUp { keycode: 0x1234, modifiers }, &[6, 0, 0, 0, 0x34, 0x12, 9]);
}

#[test]
fn unnamed_modifier_bits_are_kept() {
    let modifiers = Modifiers::from_bits_retain(0xff);
    check(InputEvent::KeyDown { keycode: 1, modifiers }, &[5, 0, 0, 0, 1, 0, 0xff]);
}

#[test]
fn clipboard_and_screen_payloads_are_exact() {
    check(
        InputEvent::Clipboard { data: vec![10, 20, 30] },
        &[7, 0, 0, 0, 3, 0, 0, 0, 0, 0, 0, 0, 10, 20, 30],
    );
    check(
        InputEvent::ScreenInfo { width: 1920, height: 1080, dpi: 96, name: "é1".to_string() },
        &[
            8, 0, 0, 0, 0x80, 7, 0, 0, 0x38, 4, 0, 0, 96, 0, 0, 0, 3, 0, 0, 0, 0, 0, 0, 0, 0xc3,
            0xa9, 0x31,
        ],
    );
}

#[test]
fn empty_payloads_are_exact() {
    check(InputEvent::CursorLeave, &[10, 0, 0, 0]);
    check(InputEvent::Ping, &[11, 0, 0, 0]);
    check(InputEvent::Pong, &[12, 0, 0, 0]);
}

#[test]
fn every_proper_prefix_is_incomplete() {
    let event = InputEvent::Clipboard { data: vec![1, 2, 3, 4, 5] };
    let encoded = EventCodec::encode(&event).unwrap();
    for have in 0..encoded.len() {
        assert!(EventCodec::decode(&encoded[..have]).unwrap().is_none());
    }
    assert!(EventCodec::decode(&encoded).unwrap().is_some());
}

#[test]
fn bytes_behind_a_frame_are_not_consumed() {
    let mut bytes = EventCodec::encode(&InputEvent::Ping).unwrap();
    bytes.extend_from_slice(&[9, 9, 9]);
    let (event, consumed) = EventCodec::decode(&bytes).unwrap().unwrap();
    assert!(matches!(event, InputEvent::Ping));
    assert_eq!(consumed, 8);
}

#[test]
fn payload_bytes_behind_an_event_are_ignored() {
    let bytes = [0, 0, 0, 6, 11, 0, 0, 0, 1, 2];
    let (event, consumed) = EventCodec::decode(&bytes).unwrap().unwrap();
    assert!(matches!(event, InputEvent::Ping));
    assert_eq!(consumed, 10);
}

#[test]
fn unknown_event_is_refused() {
    let bytes = [0, 0, 0, 4, 13, 0, 0, 0];
    assert!(matches!(EventCodec::decode(&bytes), Err(CodecError::UnknownEvent(13))));
}

#[test]
fn unknown_button_is_refused() {
    let bytes = [0, 0, 0, 8, 2, 0, 0, 0, 4, 0, 0, 0];
    assert!(matches!(EventCodec::decode(&bytes), Err(CodecError::UnknownButton(4))));
}

#[test]
fn short_payload_is_refused() {
    assert!(matches!(EventCodec::decode(&[0, 0, 0, 0]), Err(CodecError::Payload)));
    assert!(matches!(EventCodec::decode(&[0, 0, 0, 3, 11, 0, 0]), Err(CodecError::Payload)));
    assert!(matches!(
        EventCodec::decode(&[0, 0, 0, 6, 0, 0, 0, 0, 1, 0]),
        Err(CodecError::Payload)
    ));
    assert!(matches!(
        EventCodec::decode(&[0, 0, 0, 8, 3, 0, 0, 0, 3, 0, 0, 0]),
        Err(CodecError::Payload)
    ));
    let clipboard = [0, 0, 0, 12, 7, 0, 0, 0, 1, 0, 0, 0, 0, 0, 0, 0];
    assert!(matches!(EventCodec::decode(&clipboard), Err(CodecError::Payload)));
}

#[test]
fn text_that_is_not_utf8_is_refused() {
    let mut bytes = EventCodec::encode(
        &InputEvent::ScreenInfo { width: 1, height: 2, dpi: 3, name: "a".to_string() },
    ).unwrap();
    let last = bytes.len() - 1;
    bytes[last] = 0xff;
    assert!(matches!(EventCodec::decode(&bytes), Err(CodecError::Payload)));
}

#[test]
fn contains_asks_for_every_flag() {
    let modifiers = Modifiers::from_bits_retain(Modifiers::SHIFT | Modifiers::CAPS);
    assert!(modifiers.contains(Modifiers::SHIFT));
    assert!(modifiers.contains(Modifiers::SHIFT | Modifiers::CAPS));
    assert!(!modifiers.contains(Modifiers::SHIFT | Modifiers::ALT));
    assert!(!modifiers.contains(Modifiers::CTRL));
    assert!(modifiers.contains(Modifiers::NONE));
}
