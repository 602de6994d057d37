//! Input events, and how they travel between machines.
//!
//! A frame on the wire is a big-endian 32-bit length followed by that many
//! bytes of bincode payload. The payload starts with the event's 32-bit
//! index; the fields follow in the order of their declaration.
use vstd::prelude::*;

verus! {

/// Mouse button identifiers.
#[derive(Debug, Clone, Copy, PartialEq, Eq, Structural)]
pub enum MouseButton {
    Left,
    Right,
    Middle,
    Other(u8),
}

/// A set of keyboard modifiers, one bit each.
///
/// Bits without a name are kept as they came.
#[derive(Debug, Clone, Copy, PartialEq, Eq, Structural)]
pub struct Modifiers {
    pub bits: u8,
}

impl Modifiers {
    pub const NONE: u8 = 0x00;

    pub const SHIFT: u8 = 0x01;

    pub const CTRL: u8 = 0x02;

    pub const ALT: u8 = 0x04;

    /// Command on macOS, the Windows key on Windows.
    pub const META: u8 = 0x08;

    pub const CAPS: u8 = 0x10;

    /// The set that holds exactly the modifiers of `bits`.
    pub fn from_bits_retain(bits: u8) -> (res: Modifiers)
        ensures
            res.bits == bits,
    {
        Modifiers { bits }
    }

    /// Whether every modifier of `flags` is in this set.
    pub open spec fn has(self, flags: u8) -> bool {
        self.bits & flags == flags
    }

    /// Whether every modifier of `flags` is in this set.
    pub fn contains(&self, flags: u8) -> (res: bool)
        ensures
            res == self.has(flags),
    {
        self.bits & flags == flags
    }
}

/// The input event that is sent over the network.
///
/// A coordinate that is a fraction of a screen is held as the bit pattern of
/// its 32-bit float.
#[derive(Debug)]
pub enum InputEvent {
    /// Relative mouse movement (delta pixels).
    MouseMove { dx: i16, dy: i16 },
    /// Absolute mouse position (normalized, 0.0 to 1.0).
    MouseMoveAbsolute { x: u32, y: u32 },
    /// Mouse button pressed.
    MouseDown { button: MouseButton },
    /// Mouse button released.
    MouseUp { button: MouseButton },
    /// Scroll wheel.
    Scroll { dx: i16, dy: i16 },
    /// Key pressed.
    KeyDown { keycode: u16, modifiers: Modifiers },
    /// Key released.
    KeyUp { keycode: u16, modifiers: Modifiers },
    /// Clipboard content.
    Clipboard { data: Vec<u8> },
    /// Screen information broadcast.
    ScreenInfo { width: u32, height: u32, dpi: u32, name: String },
    /// The cursor has entered this machine's screen from a neighbor, at a
    /// normalized position.
    CursorEnter { x: u32, y: u32 },
    /// The cursor has left this machine's screen.
    CursorLeave,
    /// Keep-alive.
    Ping,
    /// Response to a ping.
    Pong,
}

/// An input event, with its text and bytes as sequences.
pub enum EventModel {
    MouseMove { dx: i16, dy: i16 },
    MouseMoveAbsolute { x: u32, y: u32 },
    MouseDown { button: MouseButton },
    MouseUp { button: MouseButton },
    Scroll { dx: i16, dy: i16 },
    KeyDown { keycode: u16, modifiers: Modifiers },
    KeyUp { keycode: u16, modifiers: Modifiers },
    Clipboard { data: Seq<u8> },
    ScreenInfo { width: u32, height: u32, dpi: u32, name: Seq<char> },
    CursorEnter { x: u32, y: u32 },
    CursorLeave,
    Ping,
    Pong,
}

impl View for InputEvent {
    type V = EventModel;

    open spec fn view(&self) -> EventModel {
        match *self {
            InputEvent::MouseMove { dx, dy } => EventModel::MouseMove { dx, dy },
            InputEvent::MouseMoveAbsolute { x, y } => EventModel::MouseMoveAbsolute { x, y },
            InputEvent::MouseDown { button } => EventModel::MouseDown { button },
            InputEvent::MouseUp { button } => EventModel::MouseUp { button },
            InputEvent::Scroll { dx, dy } => EventModel::Scroll { dx, dy },
            InputEvent::KeyDown { keycode, modifiers } => EventModel::KeyDown {
                keycode,
                modifiers,
            },
            InputEvent::KeyUp { keycode, modifiers } => EventModel::KeyUp { keycode, modifiers },
            InputEvent::Clipboard { data } => EventModel::Clipboard { data: data@ },
            InputEvent::ScreenInfo { width, height, dpi, name } => EventModel::ScreenInfo {
                width,
                height,
                dpi,
                name: name@,
            },
            InputEvent::CursorEnter { x, y } => EventModel::CursorEnter { x, y },
            InputEvent::CursorLeave => EventModel::CursorLeave,
            InputEvent::Ping => EventModel::Ping,
            InputEvent::Pong => EventModel::Pong,
        }
    }
}

impl Clone for InputEvent {
    fn clone(&self) -> (res: InputEvent)
        ensures
            res@ == self@,
    {
        match self {
            InputEvent::MouseMove { dx, dy } => InputEvent::MouseMove { dx: *dx, dy: *dy },
            InputEvent::MouseMoveAbsolute { x, y } => InputEvent::MouseMoveAbsolute {
                x: *x,
                y: *y,
            },
            InputEvent::MouseDown { button } => InputEvent::MouseDown { button: *button },
            InputEvent::MouseUp { button } => InputEvent::MouseUp { button: *button },
            InputEvent::Scroll { dx, dy } => InputEvent::Scroll { dx: *dx, dy: *dy },
            InputEvent::KeyDown { keycode, modifiers } => InputEvent::KeyDown {
                keycode: *keycode,
                modifiers: *modifiers,
            },
            InputEvent::KeyUp { keycode, modifiers } => InputEvent::KeyUp {
                keycode: *keycode,
                modifiers: *modifiers,
            },
            InputEvent::Clipboard { data } => {
                let copy: Vec<u8> = data.clone();
                assert(copy@ =~= data@);
                InputEvent::Clipboard { data: copy }
            },
            InputEvent::ScreenInfo { width, height, dpi, name } => InputEvent::ScreenInfo {
                width: *width,
                height: *height,
                dpi: *dpi,
                name: name.clone(),
            },
            InputEvent::CursorEnter { x, y } => InputEvent::CursorEnter { x: *x, y: *y },
            InputEvent::CursorLeave => InputEvent::CursorLeave,
            InputEvent::Ping => InputEvent::Ping,
            InputEvent::Pong => InputEvent::Pong,
        }
    }
}

/// A set holds some modifiers exactly when adding them does not change it, and
/// exactly when it holds each of them.
pub proof fn law_a_set_holds_its_parts(modifiers: Modifiers, a: u8, b: u8)
    ensures
        modifiers.has(a) <==> modifiers.bits | a == modifiers.bits,
        modifiers.has(a | b) <==> modifiers.has(a) && modifiers.has(b),
        modifiers.has(0),
{
    let bits = modifiers.bits;
    assert((bits & a == a) == (bits | a == bits)) by (bit_vector);
    assert((bits & (a | b) == a | b) == (bits & a == a && bits & b == b)) by (bit_vector);
    assert(bits & 0 == 0) by (bit_vector);
}

/// Events with the same model are the same kind of event, with the same fields.
pub proof fn law_model_tells_the_event(a: InputEvent, b: InputEvent)
    requires
        a@ == b@,
    ensures
        match (a, b) {
            (InputEvent::MouseMove { dx, dy }, InputEvent::MouseMove { dx: ex, dy: ey }) => dx == ex
                && dy == ey,
            (
                InputEvent::MouseMoveAbsolute { x, y },
                InputEvent::MouseMoveAbsolute { x: u, y: v },
            ) => x == u && y == v,
            (InputEvent::MouseDown { button }, InputEvent::MouseDown { button: other }) => button
                == other,
            (InputEvent::MouseUp { button }, InputEvent::MouseUp { button: other }) => button
                == other,
            (InputEvent::Scroll { dx, dy }, InputEvent::Scroll { dx: ex, dy: ey }) => dx == ex && dy
                == ey,
            (
                InputEvent::KeyDown { keycode, modifiers },
                InputEvent::KeyDown { keycode: k, modifiers: m },
            ) => keycode == k && modifiers == m,
            (
                InputEvent::KeyUp { keycode, modifiers },
                InputEvent::KeyUp { keycode: k, modifiers: m },
            ) => keycode == k && modifiers == m,
            (InputEvent::Clipboard { data }, InputEvent::Clipboard { data: other }) => data@
                == other@,
            (
                InputEvent::ScreenInfo { width, height, dpi, name },
                InputEvent::ScreenInfo { width: w, height: h, dpi: d, name: n },
            ) => width == w && height == h && dpi == d && name@ == n@,
            (InputEvent::CursorEnter { x, y }, InputEvent::CursorEnter { x: u, y: v }) => x == u && y
                == v,
            (InputEvent::CursorLeave, InputEvent::CursorLeave) => true,
            (InputEvent::Ping, InputEvent::Ping) => true,
            (InputEvent::Pong, InputEvent::Pong) => true,
            _ => false,
        },
{
}

} // verus!
