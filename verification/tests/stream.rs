use share_mouse::codec::{CodecError, EventCodec};
use share_mouse::protocol::InputEvent;
use share_mouse::stream::{EventReader, ReadOutcome, MAX_EVENT_SIZE};

fn frame(event: &InputEvent) -> Vec<u8> {
    EventCodec::encode(event).unwrap()
}

#[test]
fn several_events_come_out_in_order() {
    let mut bytes = frame(&InputEvent::MouseMove { dx: 1, dy: 2 });
    bytes.extend(frame(&InputEvent::Ping));
    bytes.extend(frame(&InputEvent::MouseMove { dx: 3, dy: 4 }));
    let mut reader = EventReader::new();
    let (events, outcome) = reader.read_step(&bytes);
    assert_eq!(outcome, ReadOutcome::Continue);
    assert_eq!(events.len(), 3);
    assert!(matches!(events[0], InputEvent::MouseMove { dx: 1, dy: 2 }));
    assert!(matches!(events[1], InputEvent::Ping));
    assert!(matches!(events[2], InputEvent::MouseMove { dx: 3, dy: 4 }));
}

#[test]
fn a_stream_can_be_cut_into_bytes() {
    let mut bytes = frame(&InputEvent::Clipboard { data: vec![1, 2, 3] });
    bytes.extend(frame(&InputEvent::CursorLeave));
    let mut reader = EventReader::new();
    let mut all = Vec::new();
    for byte in &bytes {
        let (events, outcome) = reader.read_step(&[*byte]);
        assert_eq!(outcome, ReadOutcome::Continue);
        all.extend(events);
    }
    assert_eq!(all.len(), 2);
    assert!(matches!(&all[0], InputEvent::Clipboard { data } if data == &vec![1, 2, 3]));
    assert!(matches!(all[1], InputEvent::CursorLeave));
}

#[test]
fn no_bytes_mean_closed() {
    let mut reader = EventReader::new();
    let (events, outcome) = reader.read_step(&[]);
    assert!(events.is_empty());
    assert_eq!(outcome, ReadOutcome::Closed);
}

#[test]
fn events_in_front_of_a_malformed_frame_are_kept() {
    let mut bytes = frame(&InputEvent::Pong);
    bytes.extend_from_slice(&[0, 0, 0, 4, 99, 0, 0, 0]);
    let mut reader = EventReader::new();
    let (events, outcome) = reader.read_step(&bytes);
    assert_eq!(events.len(), 1);
    assert!(matches!(events[0], InputEvent::Pong));
    assert_eq!(outcome, ReadOutcome::Malformed(CodecError::UnknownEvent(99)));
}

fn clipboard(payload: usize) -> Vec<u8> {
    let bytes = frame(&InputEvent::Clipboard { data: vec![5; payload - 12] });
    assert_eq!(bytes.len(), payload + 4);
    bytes
}

#[test]
fn the_largest_payload_is_delivered_however_it_is_cut() {
    let bytes = clipboard(MAX_EVENT_SIZE);
    let mut reader = EventReader::new();
    let (events, outcome) = reader.read_step(&bytes);
    assert_eq!(outcome, ReadOutcome::Continue);
    assert_eq!(events.len(), 1);

    for cut in [1, 3, 4, 5, 4096, bytes.len() - 1] {
        let mut reader = EventReader::new();
        let (events, outcome) = reader.read_step(&bytes[..cut]);
        assert!(events.is_empty());
        assert_eq!(outcome, ReadOutcome::Continue);
        let (events, outcome) = reader.read_step(&bytes[cut..]);
        assert_eq!(outcome, ReadOutcome::Continue);
        assert!(matches!(
            &events[0],
            InputEvent::Clipboard { data } if data.len() == MAX_EVENT_SIZE - 12
        ));
    }
}

#[test]
fn a_larger_payload_is_refused_however_it_is_cut() {
    let bytes = clipboard(MAX_EVENT_SIZE + 1);
    let mut reader = EventReader::new();
    let (events, outcome) = reader.read_step(&bytes);
    assert!(events.is_empty());
    assert_eq!(outcome, ReadOutcome::TooLarge);

    let mut reader = EventReader::new();
    assert_eq!(reader.read_step(&bytes[..3]).1, ReadOutcome::Continue);
    let (events, outcome) = reader.read_step(&bytes[3..4]);
    assert!(events.is_empty());
    assert_eq!(outcome, ReadOutcome::TooLarge);
}

#[test]
fn events_in_front_of_an_oversized_frame_are_kept() {
    let mut bytes = frame(&InputEvent::Ping);
    bytes.extend_from_slice(&[0xff, 0xff, 0xff, 0xff]);
    let mut reader = EventReader::new();
    let (events, outcome) = reader.read_step(&bytes);
    assert_eq!(events.len(), 1);
    assert!(matches!(events[0], InputEvent::Ping));
    assert_eq!(outcome, ReadOutcome::TooLarge);
}
