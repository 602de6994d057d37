//! Encoding and decoding of events.
use vstd::prelude::*;
use vstd::slice::slice_subrange;
use vstd::utf8::{
    decode_utf8, decode_utf8_encode_utf8, encode_utf8, encode_utf8_decode_utf8,
    encode_utf8_valid_utf8, valid_utf8,
};

use crate::bincode_calls::{
    chunk, field, read_index, read_index_data, read_index_deltas, read_index_key,
    read_index_screen, read_index_word, read_index_word_byte, read_index_words, write_index,
    write_index_data, write_index_deltas, write_index_key, write_index_screen, write_index_word,
    write_index_word_byte, write_index_words,
};
use crate::protocol::{EventModel, InputEvent, Modifiers, MouseButton};
use crate::wire::{
    be_bytes, be_u32, be_value, law_bytes_add_up, le_bytes, lemma_be_roundtrip,
    lemma_le_roundtrip, lemma_le_value_bytes, lemma_spans, signed16, u32_be, unsigned16, word_be,
    word_le,
};

verus! {

/// Why an event could not be encoded or decoded.
#[derive(Debug, Clone, Copy, PartialEq, Eq, Structural)]
pub enum CodecError {
    /// The payload ends too soon, or its text is not UTF-8.
    Payload,
    /// No event has this index.
    UnknownEvent(u32),
    /// No mouse button has this index.
    UnknownButton(u32),
    /// The event is too long for a frame.
    TooLarge,
}

/// The payload of an event that carries a mouse button.
pub open spec fn button_payload(index: nat, button: MouseButton) -> Seq<u8> {
    match button {
        MouseButton::Left => le_bytes(index, 4) + le_bytes(0, 4),
        MouseButton::Right => le_bytes(index, 4) + le_bytes(1, 4),
        MouseButton::Middle => le_bytes(index, 4) + le_bytes(2, 4),
        MouseButton::Other(n) => le_bytes(index, 4) + le_bytes(3, 4) + le_bytes(n as nat, 1),
    }
}

/// The payload of an event: its index, then its fields.
pub open spec fn payload_of(event: EventModel) -> Seq<u8> {
    match event {
        EventModel::MouseMove { dx, dy } => le_bytes(0, 4) + le_bytes(unsigned16(dx), 2)
            + le_bytes(unsigned16(dy), 2),
        EventModel::MouseMoveAbsolute { x, y } => le_bytes(1, 4) + le_bytes(x as nat, 4)
            + le_bytes(y as nat, 4),
        EventModel::MouseDown { button } => button_payload(2, button),
        EventModel::MouseUp { button } => button_payload(3, button),
        EventModel::Scroll { dx, dy } => le_bytes(4, 4) + le_bytes(unsigned16(dx), 2) + le_bytes(
            unsigned16(dy),
            2,
        ),
        EventModel::KeyDown { keycode, modifiers } => le_bytes(5, 4) + le_bytes(keycode as nat, 2)
            + le_bytes(modifiers.bits as nat, 1),
        EventModel::KeyUp { keycode, modifiers } => le_bytes(6, 4) + le_bytes(keycode as nat, 2)
            + le_bytes(modifiers.bits as nat, 1),
        EventModel::Clipboard { data } => le_bytes(7, 4) + le_bytes(data.len(), 8) + data,
        EventModel::ScreenInfo { width, height, dpi, name } => le_bytes(8, 4) + le_bytes(
            width as nat,
            4,
        ) + le_bytes(height as nat, 4) + le_bytes(dpi as nat, 4) + le_bytes(
            encode_utf8(name).len(),
            8,
        ) + encode_utf8(name),
        EventModel::CursorEnter { x, y } => le_bytes(9, 4) + le_bytes(x as nat, 4) + le_bytes(
            y as nat,
            4,
        ),
        EventModel::CursorLeave => le_bytes(10, 4),
        EventModel::Ping => le_bytes(11, 4),
        EventModel::Pong => le_bytes(12, 4),
    }
}

/// The mouse button in a payload, which stands right after the event's index.
pub open spec fn button_of(payload: Seq<u8>) -> Result<MouseButton, CodecError> {
    if payload.len() < 8 {
        Err(CodecError::Payload)
    } else if field(payload, 4, 4) == 0 {
        Ok(MouseButton::Left)
    } else if field(payload, 4, 4) == 1 {
        Ok(MouseButton::Right)
    } else if field(payload, 4, 4) == 2 {
        Ok(MouseButton::Middle)
    } else if field(payload, 4, 4) != 3 {
        Err(CodecError::UnknownButton(field(payload, 4, 4) as u32))
    } else if payload.len() < 9 {
        Err(CodecError::Payload)
    } else {
        Ok(MouseButton::Other(field(payload, 8, 1) as u8))
    }
}

/// The event that a payload holds. Bytes behind the event's fields are ignored.
pub open spec fn event_of(payload: Seq<u8>) -> Result<EventModel, CodecError> {
    let index = field(payload, 0, 4);
    if payload.len() < 4 {
        Err(CodecError::Payload)
    } else if index == 0 || index == 4 {
        if payload.len() < 8 {
            Err(CodecError::Payload)
        } else {
            let dx = signed16(field(payload, 4, 2));
            let dy = signed16(field(payload, 6, 2));
            Ok(
                if index == 0 {
                    EventModel::MouseMove { dx, dy }
                } else {
                    EventModel::Scroll { dx, dy }
                },
            )
        }
    } else if index == 1 || index == 9 {
        if payload.len() < 12 {
            Err(CodecError::Payload)
        } else {
            let x = field(payload, 4, 4) as u32;
            let y = field(payload, 8, 4) as u32;
            Ok(
                if index == 1 {
                    EventModel::MouseMoveAbsolute { x, y }
                } else {
                    EventModel::CursorEnter { x, y }
                },
            )
        }
    } else if index == 2 || index == 3 {
        match button_of(payload) {
            Ok(button) => Ok(
                if index == 2 {
                    EventModel::MouseDown { button }
                } else {
                    EventModel::MouseUp { button }
                },
            ),
            Err(error) => Err(error),
        }
    } else if index == 5 || index == 6 {
        if payload.len() < 7 {
            Err(CodecError::Payload)
        } else {
            let keycode = field(payload, 4, 2) as u16;
            let modifiers = Modifiers { bits: field(payload, 6, 1) as u8 };
            Ok(
                if index == 5 {
                    EventModel::KeyDown { keycode, modifiers }
                } else {
                    EventModel::KeyUp { keycode, modifiers }
                },
            )
        }
    } else if index == 7 {
        if payload.len() < 12 || payload.len() < 12 + field(payload, 4, 8) {
            Err(CodecError::Payload)
        } else {
            Ok(EventModel::Clipboard { data: chunk(payload, 12, field(payload, 4, 8)) })
        }
    } else if index == 8 {
        let text = chunk(payload, 24, field(payload, 16, 8));
        if payload.len() < 24 || payload.len() < 24 + field(payload, 16, 8) || !valid_utf8(text) {
            Err(CodecError::Payload)
        } else {
            Ok(
                EventModel::ScreenInfo {
                    width: field(payload, 4, 4) as u32,
                    height: field(payload, 8, 4) as u32,
                    dpi: field(payload, 12, 4) as u32,
                    name: decode_utf8(text),
                },
            )
        }
    } else if index == 10 {
        Ok(EventModel::CursorLeave)
    } else if index == 11 {
        Ok(EventModel::Ping)
    } else if index == 12 {
        Ok(EventModel::Pong)
    } else {
        Err(CodecError::UnknownEvent(index as u32))
    }
}

/// A frame: the payload's length in four bytes, and the payload.
pub open spec fn frame(payload: Seq<u8>) -> Seq<u8> {
    be_bytes(payload.len(), 4) + payload
}

/// Whether an event has no frame: its length does not fit in the header, or
/// its frame not in one allocation.
pub open spec fn too_large(event: EventModel) -> bool {
    ||| payload_of(event).len() > u32::MAX
    ||| payload_of(event).len() + 4 > isize::MAX
}

/// What the bytes in a buffer start with: no complete frame, or an event and
/// the length of its frame, or a frame that holds no event.
pub open spec fn decode_model(buf: Seq<u8>) -> Result<Option<(EventModel, nat)>, CodecError> {
    let len = be_value(buf.take(4));
    if buf.len() < 4 || buf.len() < 4 + len {
        Ok(None)
    } else {
        match event_of(chunk(buf, 4, len)) {
            Ok(event) => Ok(Some((event, 4 + len))),
            Err(error) => Err(error),
        }
    }
}

/// A result of decoding, with its text and bytes as sequences.
pub open spec fn decoded(res: Result<Option<(InputEvent, usize)>, CodecError>) -> Result<
    Option<(EventModel, nat)>,
    CodecError,
> {
    match res {
        Ok(None) => Ok(None),
        Ok(Some((event, used))) => Ok(Some((event@, used as nat))),
        Err(error) => Err(error),
    }
}

/// Encodes and decodes events on the wire.
/// Format: [4-byte big-endian length][bincode payload].
pub struct EventCodec;

impl EventCodec {
    /// Encodes an event into bytes ready for the wire.
    pub fn encode(event: &InputEvent) -> (res: Result<Vec<u8>, CodecError>)
        ensures
            match res {
                Ok(bytes) => !too_large(event@) && bytes@ == frame(payload_of(event@)),
                Err(error) => too_large(event@) && error == CodecError::TooLarge,
            },
    {
        proof {
            lemma_payload_len(event@);
        }
        match event {
            InputEvent::Clipboard { data } => {
                if data.len() > isize::MAX as usize - 16 || data.len() as u64 > 0xffff_ffff - 12 {
                    return Err(CodecError::TooLarge);
                }
            },
            InputEvent::ScreenInfo { name, .. } => {
                let len: usize = name.as_str().as_bytes().len();
                if len > isize::MAX as usize - 28 || len as u64 > 0xffff_ffff - 24 {
                    return Err(CodecError::TooLarge);
                }
            },
            _ => {},
        }
        let payload: Vec<u8> = match Self::payload(event) {
            Ok(payload) => payload,
            Err(_) => return Err(CodecError::Payload),
        };
        let len: u32 = payload.len() as u32;
        let mut buf: Vec<u8> = u32_be(len);
        let mut body: Vec<u8> = payload;
        buf.append(&mut body);
        Ok(buf)
    }

    /// The bincode payload of an event.
    fn payload(event: &InputEvent) -> (res: Result<Vec<u8>, Box<bincode::ErrorKind>>)
        requires
            !too_large(event@),
        ensures
            res is Ok,
            res->Ok_0@ == payload_of(event@),
    {
        proof {
            lemma_payload_len(event@);
        }
        match event {
            InputEvent::MouseMove { dx, dy } => write_index_deltas(0, *dx, *dy),
            InputEvent::MouseMoveAbsolute { x, y } => write_index_words(1, *x, *y),
            InputEvent::MouseDown { button } => Self::payload_with_button(2, *button),
            InputEvent::MouseUp { button } => Self::payload_with_button(3, *button),
            InputEvent::Scroll { dx, dy } => write_index_deltas(4, *dx, *dy),
            InputEvent::KeyDown { keycode, modifiers } => write_index_key(
                5,
                *keycode,
                modifiers.bits,
            ),
            InputEvent::KeyUp { keycode, modifiers } => write_index_key(
                6,
                *keycode,
                modifiers.bits,
            ),
            InputEvent::Clipboard { data } => write_index_data(7, data),
            InputEvent::ScreenInfo { width, height, dpi, name } => write_index_screen(
                8,
                *width,
                *height,
                *dpi,
                name,
            ),
            InputEvent::CursorEnter { x, y } => write_index_words(9, *x, *y),
            InputEvent::CursorLeave => write_index(10),
            InputEvent::Ping => write_index(11),
            InputEvent::Pong => write_index(12),
        }
    }

    /// The bincode payload of an event that carries a mouse button.
    fn payload_with_button(index: u32, button: MouseButton) -> (res: Result<
        Vec<u8>,
        Box<bincode::ErrorKind>,
    >)
        ensures
            res is Ok,
            res->Ok_0@ == button_payload(index as nat, button),
    {
        match button {
            MouseButton::Left => write_index_word(index, 0),
            MouseButton::Right => write_index_word(index, 1),
            MouseButton::Middle => write_index_word(index, 2),
            MouseButton::Other(n) => write_index_word_byte(index, 3, n),
        }
    }

    /// Decodes one event from a byte buffer.
    /// Returns the event and the number of bytes consumed, or `None` if the
    /// buffer does not hold a complete event yet.
    pub fn decode(buf: &[u8]) -> (res: Result<Option<(InputEvent, usize)>, CodecError>)
        ensures
            decoded(res) == decode_model(buf@),
    {
        if buf.len() < 4 {
            return Ok(None);
        }
        let len: u32 = be_u32(buf);
        if ((buf.len() - 4) as u64) < len as u64 {
            return Ok(None);
        }
        let end: usize = 4 + len as usize;
        let payload: &[u8] = slice_subrange(buf, 4, end);
        match Self::event(payload) {
            Ok(event) => Ok(Some((event, end))),
            Err(error) => Err(error),
        }
    }

    /// The event in a bincode payload.
    fn event(payload: &[u8]) -> (res: Result<InputEvent, CodecError>)
        ensures
            event_of(payload@) == match res {
                Ok(event) => Ok(event@),
                Err(error) => Err(error),
            },
    {
        let index: u32 = match read_index(payload) {
            Ok(index) => index,
            Err(_) => return Err(CodecError::Payload),
        };
        match index {
            0 | 4 => match read_index_deltas(payload) {
                Ok((_, dx, dy)) => Ok(
                    if index == 0 {
                        InputEvent::MouseMove { dx, dy }
                    } else {
                        InputEvent::Scroll { dx, dy }
                    },
                ),
                Err(_) => Err(CodecError::Payload),
            },
            1 | 9 => match read_index_words(payload) {
                Ok((_, x, y)) => Ok(
                    if index == 1 {
                        InputEvent::MouseMoveAbsolute { x, y }
                    } else {
                        InputEvent::CursorEnter { x, y }
                    },
                ),
                Err(_) => Err(CodecError::Payload),
            },
            2 | 3 => match Self::button(payload) {
                Ok(button) => Ok(
                    if index == 2 {
                        InputEvent::MouseDown { button }
                    } else {
                        InputEvent::MouseUp { button }
                    },
                ),
                Err(error) => Err(error),
            },
            5 | 6 => match read_index_key(payload) {
                Ok((_, keycode, bits)) => {
                    let modifiers: Modifiers = Modifiers::from_bits_retain(bits);
                    Ok(
                        if index == 5 {
                            InputEvent::KeyDown { keycode, modifiers }
                        } else {
                            InputEvent::KeyUp { keycode, modifiers }
                        },
                    )
                },
                Err(_) => Err(CodecError::Payload),
            },
            7 => match read_index_data(payload) {
                Ok((_, data)) => Ok(InputEvent::Clipboard { data }),
                Err(_) => Err(CodecError::Payload),
            },
            8 => match read_index_screen(payload) {
                Ok((_, width, height, dpi, name)) => Ok(
                    InputEvent::ScreenInfo { width, height, dpi, name },
                ),
                Err(_) => Err(CodecError::Payload),
            },
            10 => Ok(InputEvent::CursorLeave),
            11 => Ok(InputEvent::Ping),
            12 => Ok(InputEvent::Pong),
            _ => Err(CodecError::UnknownEvent(index)),
        }
    }

    /// The mouse button in a bincode payload.
    fn button(payload: &[u8]) -> (res: Result<MouseButton, CodecError>)
        ensures
            res == button_of(payload@),
    {
        let kind: u32 = match read_index_word(payload) {
            Ok((_, kind)) => kind,
            Err(_) => return Err(CodecError::Payload),
        };
        match kind {
            0 => Ok(MouseButton::Left),
            1 => Ok(MouseButton::Right),
            2 => Ok(MouseButton::Middle),
            3 => match read_index_word_byte(payload) {
                Ok((_, _, n)) => Ok(MouseButton::Other(n)),
                Err(_) => Err(CodecError::Payload),
            },
            _ => Err(CodecError::UnknownButton(kind)),
        }
    }
}

/// A number between other bytes is read back as itself.
proof fn lemma_field(before: Seq<u8>, value: nat, width: nat, after: Seq<u8>)
    requires
        value < crate::wire::span(width),
    ensures
        le_bytes(value, width).len() == width,
        field(before + le_bytes(value, width) + after, before.len() as int, width) == value,
{
    lemma_le_roundtrip(value, width);
    assert(chunk(before + le_bytes(value, width) + after, before.len() as int, width) =~= le_bytes(
        value,
        width,
    ));
}

/// The same with the numbers of an event named one after the other: `a`, `b`
/// and `c` of the given widths, then `after`.
proof fn lemma_fields(a: nat, b: nat, wb: nat, c: nat, wc: nat, after: Seq<u8>)
    requires
        a < 0x1_0000_0000,
        b < crate::wire::span(wb),
        c < crate::wire::span(wc),
    ensures
        ({
            let bytes = le_bytes(a, 4) + le_bytes(b, wb) + le_bytes(c, wc) + after;
            &&& bytes.len() == 4 + wb + wc + after.len()
            &&& field(bytes, 0, 4) == a
            &&& field(bytes, 4, wb) == b
            &&& field(bytes, (4 + wb) as int, wc) == c
        }),
{
    lemma_spans();
    let la = le_bytes(a, 4);
    let lb = le_bytes(b, wb);
    let lc = le_bytes(c, wc);
    let bytes = la + lb + lc + after;
    lemma_field(Seq::empty(), a, 4, lb + lc + after);
    assert(bytes =~= Seq::<u8>::empty() + la + (lb + lc + after));
    lemma_field(la, b, wb, lc + after);
    assert(bytes =~= la + lb + (lc + after));
    lemma_field(la + lb, c, wc, after);
}

/// Every event is read back from its payload, whatever bytes follow it.
proof fn lemma_payload_roundtrip(event: EventModel, rest: Seq<u8>)
    requires
        !too_large(event),
    ensures
        event_of(payload_of(event) + rest) == Ok::<EventModel, CodecError>(event),
{
    lemma_spans();
    let bytes = payload_of(event) + rest;
    match event {
        EventModel::MouseMove { dx, dy } => {
            lemma_fields(0, unsigned16(dx), 2, unsigned16(dy), 2, rest);
        },
        EventModel::Scroll { dx, dy } => {
            lemma_fields(4, unsigned16(dx), 2, unsigned16(dy), 2, rest);
        },
        EventModel::MouseMoveAbsolute { x, y } => {
            lemma_fields(1, x as nat, 4, y as nat, 4, rest);
        },
        EventModel::CursorEnter { x, y } => {
            lemma_fields(9, x as nat, 4, y as nat, 4, rest);
        },
        EventModel::MouseDown { button } => {
            lemma_button_roundtrip(2, button, rest);
        },
        EventModel::MouseUp { button } => {
            lemma_button_roundtrip(3, button, rest);
        },
        EventModel::KeyDown { keycode, modifiers } => {
            lemma_fields(5, keycode as nat, 2, modifiers.bits as nat, 1, rest);
        },
        EventModel::KeyUp { keycode, modifiers } => {
            lemma_fields(6, keycode as nat, 2, modifiers.bits as nat, 1, rest);
        },
        EventModel::Clipboard { data } => {
            lemma_fields(7, data.len(), 8, 0, 0, data + rest);
            assert(bytes =~= le_bytes(7, 4) + le_bytes(data.len(), 8) + le_bytes(0, 0) + (data
                + rest));
            assert(chunk(bytes, 12, data.len()) =~= data);
        },
        EventModel::ScreenInfo { width, height, dpi, name } => {
            let text = encode_utf8(name);
            let tail = le_bytes(dpi as nat, 4) + le_bytes(text.len(), 8) + text + rest;
            lemma_fields(8, width as nat, 4, height as nat, 4, tail);
            assert(bytes =~= le_bytes(8, 4) + le_bytes(width as nat, 4) + le_bytes(
                height as nat,
                4,
            ) + tail);
            let head = le_bytes(8, 4) + le_bytes(width as nat, 4) + le_bytes(height as nat, 4);
            lemma_field(head, dpi as nat, 4, le_bytes(text.len(), 8) + text + rest);
            assert(bytes =~= head + le_bytes(dpi as nat, 4) + (le_bytes(text.len(), 8) + text
                + rest));
            lemma_field(head + le_bytes(dpi as nat, 4), text.len(), 8, text + rest);
            assert(bytes =~= head + le_bytes(dpi as nat, 4) + le_bytes(text.len(), 8) + (text
                + rest));
            assert(chunk(bytes, 24, text.len()) =~= text);
            encode_utf8_valid_utf8(name);
            encode_utf8_decode_utf8(name);
        },
        EventModel::CursorLeave => {
            lemma_field(Seq::empty(), 10, 4, rest);
            assert(bytes =~= Seq::<u8>::empty() + le_bytes(10, 4) + rest);
        },
        EventModel::Ping => {
            lemma_field(Seq::empty(), 11, 4, rest);
            assert(bytes =~= Seq::<u8>::empty() + le_bytes(11, 4) + rest);
        },
        EventModel::Pong => {
            lemma_field(Seq::empty(), 12, 4, rest);
            assert(bytes =~= Seq::<u8>::empty() + le_bytes(12, 4) + rest);
        },
    }
}

/// The part of `lemma_payload_roundtrip` for an event with a mouse button.
proof fn lemma_button_roundtrip(index: nat, button: MouseButton, rest: Seq<u8>)
    requires
        index < 0x1_0000_0000,
    ensures
        ({
            let bytes = button_payload(index, button) + rest;
            &&& bytes.len() >= 8
            &&& field(bytes, 0, 4) == index
            &&& button_of(bytes) == Ok::<MouseButton, CodecError>(button)
        }),
{
    lemma_spans();
    let bytes = button_payload(index, button) + rest;
    match button {
        MouseButton::Other(n) => {
            lemma_fields(index, 3, 4, n as nat, 1, rest);
        },
        _ => {
            let kind: nat = match button {
                MouseButton::Left => 0,
                MouseButton::Right => 1,
                _ => 2,
            };
            lemma_fields(index, kind, 4, 0, 0, rest);
            assert(bytes =~= le_bytes(index, 4) + le_bytes(kind, 4) + le_bytes(0, 0) + rest);
        },
    }
}

/// Only a clipboard and a screen's name make a payload longer than twelve bytes.
pub proof fn law_plain_events_are_short(event: EventModel)
    requires
        event !is Clipboard,
        event !is ScreenInfo,
    ensures
        payload_of(event).len() <= 12,
        !too_large(event),
{
    lemma_payload_len(event);
}

/// How long a payload is.
proof fn lemma_payload_len(event: EventModel)
    ensures
        match event {
            EventModel::Clipboard { data } => payload_of(event).len() == 12 + data.len(),
            EventModel::ScreenInfo { name, .. } => payload_of(event).len() == 24 + encode_utf8(
                name,
            ).len(),
            _ => payload_of(event).len() <= 12,
        },
{
    assert forall|value: nat, width: nat| (#[trigger] le_bytes(value, width)).len() == width by {
        lemma_le_len(value, width);
    }
}

/// `width` bytes are written.
proof fn lemma_le_len(value: nat, width: nat)
    ensures
        le_bytes(value, width).len() == width,
    decreases width,
{
    if width > 0 {
        lemma_le_len(value / 256, (width - 1) as nat);
    }
}

/// What can be encoded is decoded again: a buffer that starts with the frame of
/// an event yields that event, and the frame is what is consumed.
pub proof fn law_decode_gives_back_encoded(event: EventModel, rest: Seq<u8>)
    requires
        !too_large(event),
    ensures
        decode_model(frame(payload_of(event)) + rest) == Ok::<_, CodecError>(
            Some((event, frame(payload_of(event)).len())),
        ),
{
    let payload = payload_of(event);
    let buf = frame(payload) + rest;
    lemma_spans();
    lemma_be_roundtrip(payload.len(), 4);
    assert(buf.take(4) =~= be_bytes(payload.len(), 4));
    assert(chunk(buf, 4, payload.len()) =~= payload + Seq::<u8>::empty());
    lemma_payload_roundtrip(event, Seq::empty());
}

/// While a part of an encoded event is still to come, there is nothing to decode.
pub proof fn law_partial_frame_is_incomplete(event: EventModel, have: nat)
    requires
        !too_large(event),
        have < frame(payload_of(event)).len(),
    ensures
        decode_model(frame(payload_of(event)).take(have as int)) == Ok::<
            Option<(EventModel, nat)>,
            CodecError,
        >(None),
{
    let payload = payload_of(event);
    lemma_spans();
    lemma_be_roundtrip(payload.len(), 4);
    let part = frame(payload).take(have as int);
    if have >= 4 {
        assert(part.take(4) =~= be_bytes(payload.len(), 4));
    }
}

/// Two events with the same frame are the same event.
pub proof fn law_encoding_is_injective(a: EventModel, b: EventModel)
    requires
        !too_large(a),
        !too_large(b),
        frame(payload_of(a)) == frame(payload_of(b)),
    ensures
        a == b,
{
    law_decode_gives_back_encoded(a, Seq::empty());
    law_decode_gives_back_encoded(b, Seq::empty());
}

/// Once a buffer holds a complete frame, bytes that arrive later do not change
/// what it starts with.
pub proof fn law_complete_frame_is_final(buf: Seq<u8>, more: Seq<u8>)
    requires
        decode_model(buf) != Ok::<Option<(EventModel, nat)>, CodecError>(None),
    ensures
        decode_model(buf + more) == decode_model(buf),
{
    assert((buf + more).take(4) =~= buf.take(4));
    let len = be_value(buf.take(4));
    assert(chunk(buf + more, 4, len) =~= chunk(buf, 4, len));
}

/// A decoded event takes at least its length header, and no more bytes than
/// there are.
pub proof fn law_decoded_length(buf: Seq<u8>)
    ensures
        decode_model(buf) matches Ok(Some((event, used))) ==> 4 <= used <= buf.len(),
{
}

/// Four bytes of a payload as a number.
pub open spec fn word_at(payload: Seq<u8>, at: int) -> int {
    word_le(payload.skip(at))
}

/// A payload byte by byte: the number of the event in four bytes, and behind it
/// the fields in the order in which they are declared, each with its lowest
/// byte first.
pub proof fn law_payload_byte_by_byte(event: EventModel)
    requires
        !too_large(event),
    ensures
        ({
            let p = payload_of(event);
            &&& p.len() >= 4
            &&& word_at(p, 0) == match event {
                EventModel::MouseMove { .. } => 0int,
                EventModel::MouseMoveAbsolute { .. } => 1,
                EventModel::MouseDown { .. } => 2,
                EventModel::MouseUp { .. } => 3,
                EventModel::Scroll { .. } => 4,
                EventModel::KeyDown { .. } => 5,
                EventModel::KeyUp { .. } => 6,
                EventModel::Clipboard { .. } => 7,
                EventModel::ScreenInfo { .. } => 8,
                EventModel::CursorEnter { .. } => 9,
                EventModel::CursorLeave => 10,
                EventModel::Ping => 11,
                EventModel::Pong => 12,
            }
            &&& match event {
                EventModel::MouseMove { dx, dy } | EventModel::Scroll { dx, dy } => {
                    &&& p.len() == 8
                    &&& (p[4] + 0x100 * p[5] - dx) % 0x1_0000 == 0
                    &&& (p[6] + 0x100 * p[7] - dy) % 0x1_0000 == 0
                },
                EventModel::MouseMoveAbsolute { x, y } | EventModel::CursorEnter { x, y } => {
                    &&& p.len() == 12
                    &&& word_at(p, 4) == x
                    &&& word_at(p, 8) == y
                },
                EventModel::MouseDown { button } | EventModel::MouseUp { button } => {
                    match button {
                        MouseButton::Left => p.len() == 8 && word_at(p, 4) == 0,
                        MouseButton::Right => p.len() == 8 && word_at(p, 4) == 1,
                        MouseButton::Middle => p.len() == 8 && word_at(p, 4) == 2,
                        MouseButton::Other(n) => p.len() == 9 && word_at(p, 4) == 3 && p[8] == n,
                    }
                },
                EventModel::KeyDown { keycode, modifiers } | EventModel::KeyUp {
                    keycode,
                    modifiers,
                } => {
                    &&& p.len() == 7
                    &&& p[4] + 0x100 * p[5] == keycode
                    &&& p[6] == modifiers.bits
                },
                EventModel::Clipboard { data } => {
                    &&& p.len() == 12 + data.len()
                    &&& word_at(p, 4) + 0x1_0000_0000 * word_at(p, 8) == data.len()
                    &&& p.skip(12) == data
                },
                EventModel::ScreenInfo { width, height, dpi, name } => {
                    &&& p.len() == 24 + encode_utf8(name).len()
                    &&& word_at(p, 4) == width
                    &&& word_at(p, 8) == height
                    &&& word_at(p, 12) == dpi
                    &&& word_at(p, 16) + 0x1_0000_0000 * word_at(p, 20) == encode_utf8(name).len()
                    &&& p.skip(24) == encode_utf8(name)
                },
                _ => p.len() == 4,
            }
        }),
{
    let p = payload_of(event);
    lemma_spans();
    lemma_payload_roundtrip(event, Seq::empty());
    lemma_payload_len(event);
    assert(p + Seq::<u8>::empty() =~= p);
    assert forall|value: nat, width: nat| (#[trigger] le_bytes(value, width)).len() == width by {
        lemma_le_len(value, width);
    }
    lemma_field_bytes(p);
    match event {
        EventModel::Clipboard { data } => {
            assert(p.skip(12) =~= data);
            lemma_fields(7, data.len(), 8, 0, 0, data);
            assert(p =~= le_bytes(7, 4) + le_bytes(data.len(), 8) + le_bytes(0, 0) + data);
        },
        EventModel::ScreenInfo { width, height, dpi, name } => {
            let text = encode_utf8(name);
            assert(p.skip(24) =~= text);
            let head = le_bytes(8, 4) + le_bytes(width as nat, 4) + le_bytes(height as nat, 4)
                + le_bytes(dpi as nat, 4);
            lemma_field(head, text.len(), 8, text);
            assert(p =~= head + le_bytes(text.len(), 8) + text);
        },
        _ => {},
    }
}

/// Fields of a payload, byte by byte.
proof fn lemma_field_bytes(p: Seq<u8>)
    ensures
        p.len() >= 4 ==> field(p, 0, 4) == word_at(p, 0),
        p.len() >= 6 ==> field(p, 4, 2) == p[4] + 0x100 * p[5],
        p.len() >= 7 ==> field(p, 6, 1) == p[6],
        p.len() >= 8 ==> field(p, 6, 2) == p[6] + 0x100 * p[7],
        p.len() >= 8 ==> field(p, 4, 4) == word_at(p, 4),
        p.len() >= 9 ==> field(p, 8, 1) == p[8],
        p.len() >= 12 ==> field(p, 8, 4) == word_at(p, 8),
        p.len() >= 12 ==> field(p, 4, 8) == word_at(p, 4) + 0x1_0000_0000 * word_at(p, 8),
        p.len() >= 16 ==> field(p, 12, 4) == word_at(p, 12),
        p.len() >= 24 ==> field(p, 16, 8) == word_at(p, 16) + 0x1_0000_0000 * word_at(p, 20),
{
    law_bytes_add_up(chunk(p, 0, 4));
    law_bytes_add_up(chunk(p, 4, 2));
    law_bytes_add_up(chunk(p, 6, 1));
    law_bytes_add_up(chunk(p, 6, 2));
    law_bytes_add_up(chunk(p, 4, 4));
    law_bytes_add_up(chunk(p, 8, 1));
    law_bytes_add_up(chunk(p, 8, 4));
    law_bytes_add_up(chunk(p, 4, 8));
    law_bytes_add_up(chunk(p, 12, 4));
    law_bytes_add_up(chunk(p, 16, 8));
}

/// A frame is the length of the payload in four bytes, highest byte first, and
/// the payload.
pub proof fn law_frame_byte_by_byte(payload: Seq<u8>)
    requires
        payload.len() <= u32::MAX,
    ensures
        frame(payload).len() == payload.len() + 4,
        word_be(frame(payload)) == payload.len(),
        frame(payload).skip(4) == payload,
{
    lemma_spans();
    lemma_be_roundtrip(payload.len(), 4);
    law_bytes_add_up(be_bytes(payload.len(), 4));
    assert(frame(payload).skip(4) =~= payload);
}

/// What can be encoded: every event up to two gigabytes, and none whose length
/// the header cannot hold.
pub proof fn law_what_can_be_encoded(event: EventModel)
    ensures
        match event {
            EventModel::Clipboard { data } => {
                &&& data.len() <= 0x7fff_ffff - 16 ==> !too_large(event)
                &&& data.len() + 12 >= 0x1_0000_0000 ==> too_large(event)
            },
            EventModel::ScreenInfo { name, .. } => {
                &&& encode_utf8(name).len() <= 0x7fff_ffff - 28 ==> !too_large(event)
                &&& encode_utf8(name).len() + 24 >= 0x1_0000_0000 ==> too_large(event)
            },
            _ => !too_large(event),
        },
{
    lemma_payload_len(event);
}

/// When there is something to decode: the header is there, and all the bytes
/// that it announces are.
pub proof fn law_complete_frame_is_decoded(buf: Seq<u8>)
    ensures
        decode_model(buf) == Ok::<Option<(EventModel, nat)>, CodecError>(None) <==> buf.len() < 4
            || buf.len() < 4 + word_be(buf),
        decode_model(buf) matches Ok(Some((event, used))) ==> used == 4 + word_be(buf),
{
    if buf.len() >= 4 {
        law_bytes_add_up(buf.take(4));
    }
}

/// What is decoded was there: the payload of a decoded event is what the frame
/// starts with.
pub proof fn law_decoded_event_was_there(buf: Seq<u8>)
    ensures
        decode_model(buf) matches Ok(Some((event, used))) ==> payload_of(event).is_prefix_of(
            buf.subrange(4, used as int),
        ),
{
    if let Ok(Some((event, used))) = decode_model(buf) {
        lemma_event_was_there(chunk(buf, 4, be_value(buf.take(4))));
    }
}

/// The part of `law_decoded_event_was_there` for a payload.
proof fn lemma_event_was_there(p: Seq<u8>)
    ensures
        event_of(p) matches Ok(event) ==> payload_of(event).is_prefix_of(p),
{
    if let Ok(event) = event_of(p) {
        assert forall|at: int, width: nat|
            0 <= at && at + width <= p.len() implies #[trigger] le_bytes(
            field(p, at, width),
            width,
        ) == p.subrange(at, at + width) && field(p, at, width) < crate::wire::span(width) by {
            lemma_le_value_bytes(chunk(p, at, width));
        }
        lemma_spans();
        let n = payload_of(event).len() as int;
        let index = field(p, 0, 4);
        assert(le_bytes(index, 4) == p.subrange(0, 4));
        if index == 0 || index == 4 {
            assert(le_bytes(field(p, 4, 2), 2) == p.subrange(4, 6));
            assert(le_bytes(field(p, 6, 2), 2) == p.subrange(6, 8));
        } else if index == 1 || index == 9 {
            assert(le_bytes(field(p, 4, 4), 4) == p.subrange(4, 8));
            assert(le_bytes(field(p, 8, 4), 4) == p.subrange(8, 12));
        } else if index == 2 || index == 3 {
            assert(le_bytes(field(p, 4, 4), 4) == p.subrange(4, 8));
            if p.len() >= 9 {
                assert(le_bytes(field(p, 8, 1), 1) == p.subrange(8, 9));
            }
        } else if index == 5 || index == 6 {
            assert(le_bytes(field(p, 4, 2), 2) == p.subrange(4, 6));
            assert(le_bytes(field(p, 6, 1), 1) == p.subrange(6, 7));
        } else if index == 7 {
            assert(le_bytes(field(p, 4, 8), 8) == p.subrange(4, 12));
        } else if index == 8 {
            assert(le_bytes(field(p, 4, 4), 4) == p.subrange(4, 8));
            assert(le_bytes(field(p, 8, 4), 4) == p.subrange(8, 12));
            assert(le_bytes(field(p, 12, 4), 4) == p.subrange(12, 16));
            assert(le_bytes(field(p, 16, 8), 8) == p.subrange(16, 24));
            decode_utf8_encode_utf8(chunk(p, 24, field(p, 16, 8)));
        }
        assert(payload_of(event) =~= p.take(n));
    }
}

/// What is there is decoded: a frame that starts with the payload of an event
/// yields that event, whatever the frame holds behind it and whatever follows
/// the frame.
pub proof fn law_event_that_is_there_is_decoded(event: EventModel, extra: Seq<u8>, rest: Seq<u8>)
    requires
        !too_large(event),
        payload_of(event).len() + extra.len() <= u32::MAX,
    ensures
        decode_model(frame(payload_of(event) + extra) + rest) == Ok::<_, CodecError>(
            Some((event, payload_of(event).len() + extra.len() + 4)),
        ),
{
    let payload = payload_of(event) + extra;
    let buf = frame(payload) + rest;
    lemma_spans();
    lemma_be_roundtrip(payload.len(), 4);
    assert(buf.take(4) =~= be_bytes(payload.len(), 4));
    assert(chunk(buf, 4, payload.len()) =~= payload);
    lemma_payload_roundtrip(event, extra);
}

/// Why a frame is refused: because no event has its number, or because no
/// button has the number in it, or else because it ends too soon or its text
/// cannot be read.
pub proof fn law_refused_frames(payload: Seq<u8>, rest: Seq<u8>)
    requires
        payload.len() <= u32::MAX,
    ensures
        ({
            let res = decode_model(frame(payload) + rest);
            let index = word_at(payload, 0);
            let button = word_at(payload, 4);
            &&& payload.len() >= 4 && index >= 13 ==> res == Err::<Option<(EventModel, nat)>, _>(
                CodecError::UnknownEvent(index as u32),
            )
            &&& payload.len() >= 8 && (index == 2 || index == 3) && button >= 4 ==> res == Err::<
                Option<(EventModel, nat)>,
                _,
            >(CodecError::UnknownButton(button as u32))
            &&& match res {
                Err(CodecError::UnknownEvent(n)) => payload.len() >= 4 && n == index && n >= 13,
                Err(CodecError::UnknownButton(n)) => payload.len() >= 8 && (index == 2 || index
                    == 3) && n == button && n >= 4,
                Err(error) => error == CodecError::Payload,
                Ok(found) => found is Some,
            }
        }),
{
    let buf = frame(payload) + rest;
    lemma_spans();
    lemma_be_roundtrip(payload.len(), 4);
    assert(buf.take(4) =~= be_bytes(payload.len(), 4));
    assert(chunk(buf, 4, payload.len()) =~= payload);
    lemma_field_bytes(payload);
}

/// The model of a result of decoding says the same as the result.
pub proof fn law_decoded_is_seen_whole(
    res: Result<Option<(InputEvent, usize)>, CodecError>,
    event: InputEvent,
    used: usize,
    error: CodecError,
)
    ensures
        res == Ok::<Option<(InputEvent, usize)>, CodecError>(Some((event, used))) ==> decoded(res)
            == Ok::<_, CodecError>(Some((event@, used as nat))),
        res is Err <==> decoded(res) is Err,
        res == Err::<Option<(InputEvent, usize)>, _>(error) <==> decoded(res) == Err::<
            Option<(EventModel, nat)>,
            _,
        >(error),
        res matches Ok(found) ==> (found is None <==> decoded(res) == Ok::<
            Option<(EventModel, nat)>,
            CodecError,
        >(None)),
{
}

} // verus!
