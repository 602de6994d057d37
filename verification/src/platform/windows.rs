//! Input capture and injection on Windows.
//!
//! Low-level hooks see the mouse and the keyboard. Injected events go through
//! the system's input queue.
use vstd::prelude::*;

use crate::protocol::{EventModel, InputEvent, Modifiers, MouseButton};
use crate::wire::{
    law_narrowing_keeps_low_bits, low_unsigned16, signed16, to_low_unsigned16, unsigned16,
};

verus! {

pub const MOUSEEVENTF_MOVE: u32 = 0x0001;

pub const MOUSEEVENTF_LEFTDOWN: u32 = 0x0002;

pub const MOUSEEVENTF_LEFTUP: u32 = 0x0004;

pub const MOUSEEVENTF_RIGHTDOWN: u32 = 0x0008;

pub const MOUSEEVENTF_RIGHTUP: u32 = 0x0010;

pub const MOUSEEVENTF_MIDDLEDOWN: u32 = 0x0020;

pub const MOUSEEVENTF_MIDDLEUP: u32 = 0x0040;

pub const MOUSEEVENTF_WHEEL: u32 = 0x0800;

pub const MOUSEEVENTF_HWHEEL: u32 = 0x1000;

/// A movement that is not merged with others.
pub const MOUSEEVENTF_MOVE_NOCOALESCE: u32 = 0x2000;

/// The flags of a relative movement that is not merged with others.
pub const RELATIVE_MOVE: u32 = MOUSEEVENTF_MOVE | MOUSEEVENTF_MOVE_NOCOALESCE;

pub const KEYEVENTF_KEYUP: u32 = 0x0002;

pub const WM_KEYDOWN: u32 = 0x0100;

pub const WM_KEYUP: u32 = 0x0101;

pub const WM_SYSKEYDOWN: u32 = 0x0104;

pub const WM_SYSKEYUP: u32 = 0x0105;

pub const WM_MOUSEMOVE: u32 = 0x0200;

pub const WM_LBUTTONDOWN: u32 = 0x0201;

pub const WM_LBUTTONUP: u32 = 0x0202;

pub const WM_RBUTTONDOWN: u32 = 0x0204;

pub const WM_RBUTTONUP: u32 = 0x0205;

pub const WM_MBUTTONDOWN: u32 = 0x0207;

pub const WM_MBUTTONUP: u32 = 0x0208;

pub const WM_MOUSEWHEEL: u32 = 0x020a;

pub const WM_MOUSEHWHEEL: u32 = 0x020e;

/// How far a wheel turns by one notch.
pub const WHEEL_DELTA: i32 = 120;

pub const VK_CANCEL: u16 = 0x03;

pub const VK_BACK: u16 = 0x08;

pub const VK_TAB: u16 = 0x09;

pub const VK_RETURN: u16 = 0x0d;

pub const VK_CAPITAL: u16 = 0x14;

pub const VK_ESCAPE: u16 = 0x1b;

pub const VK_SPACE: u16 = 0x20;

pub const VK_PRIOR: u16 = 0x21;

pub const VK_NEXT: u16 = 0x22;

pub const VK_END: u16 = 0x23;

pub const VK_HOME: u16 = 0x24;

pub const VK_LEFT: u16 = 0x25;

pub const VK_UP: u16 = 0x26;

pub const VK_RIGHT: u16 = 0x27;

pub const VK_DOWN: u16 = 0x28;

pub const VK_INSERT: u16 = 0x2d;

pub const VK_DELETE: u16 = 0x2e;

pub const VK_0: u16 = 0x30;

pub const VK_1: u16 = 0x31;

pub const VK_2: u16 = 0x32;

pub const VK_3: u16 = 0x33;

pub const VK_4: u16 = 0x34;

pub const VK_5: u16 = 0x35;

pub const VK_6: u16 = 0x36;

pub const VK_7: u16 = 0x37;

pub const VK_8: u16 = 0x38;

pub const VK_9: u16 = 0x39;

pub const VK_A: u16 = 0x41;

pub const VK_B: u16 = 0x42;

pub const VK_C: u16 = 0x43;

pub const VK_D: u16 = 0x44;

pub const VK_E: u16 = 0x45;

pub const VK_F: u16 = 0x46;

pub const VK_G: u16 = 0x47;

pub const VK_H: u16 = 0x48;

pub const VK_I: u16 = 0x49;

pub const VK_J: u16 = 0x4a;

pub const VK_K: u16 = 0x4b;

pub const VK_L: u16 = 0x4c;

pub const VK_M: u16 = 0x4d;

pub const VK_N: u16 = 0x4e;

pub const VK_O: u16 = 0x4f;

pub const VK_P: u16 = 0x50;

pub const VK_Q: u16 = 0x51;

pub const VK_R: u16 = 0x52;

pub const VK_S: u16 = 0x53;

pub const VK_T: u16 = 0x54;

pub const VK_U: u16 = 0x55;

pub const VK_V: u16 = 0x56;

pub const VK_W: u16 = 0x57;

pub const VK_X: u16 = 0x58;

pub const VK_Y: u16 = 0x59;

pub const VK_Z: u16 = 0x5a;

pub const VK_LWIN: u16 = 0x5b;

pub const VK_RWIN: u16 = 0x5c;

pub const VK_NUMPAD0: u16 = 0x60;

pub const VK_NUMPAD1: u16 = 0x61;

pub const VK_NUMPAD2: u16 = 0x62;

pub const VK_NUMPAD3: u16 = 0x63;

pub const VK_NUMPAD4: u16 = 0x64;

pub const VK_NUMPAD5: u16 = 0x65;

pub const VK_NUMPAD6: u16 = 0x66;

pub const VK_NUMPAD7: u16 = 0x67;

pub const VK_NUMPAD8: u16 = 0x68;

pub const VK_NUMPAD9: u16 = 0x69;

pub const VK_MULTIPLY: u16 = 0x6a;

pub const VK_ADD: u16 = 0x6b;

pub const VK_SUBTRACT: u16 = 0x6d;

pub const VK_DECIMAL: u16 = 0x6e;

pub const VK_DIVIDE: u16 = 0x6f;

pub const VK_F1: u16 = 0x70;

pub const VK_F2: u16 = 0x71;

pub const VK_F3: u16 = 0x72;

pub const VK_F4: u16 = 0x73;

pub const VK_F5: u16 = 0x74;

pub const VK_F6: u16 = 0x75;

pub const VK_F7: u16 = 0x76;

pub const VK_F8: u16 = 0x77;

pub const VK_F9: u16 = 0x78;

pub const VK_F10: u16 = 0x79;

pub const VK_F11: u16 = 0x7a;

pub const VK_F12: u16 = 0x7b;

pub const VK_NUMLOCK: u16 = 0x90;

pub const VK_LSHIFT: u16 = 0xa0;

pub const VK_RSHIFT: u16 = 0xa1;

pub const VK_LCONTROL: u16 = 0xa2;

pub const VK_RCONTROL: u16 = 0xa3;

pub const VK_LMENU: u16 = 0xa4;

pub const VK_RMENU: u16 = 0xa5;

pub const VK_VOLUME_MUTE: u16 = 0xad;

pub const VK_VOLUME_DOWN: u16 = 0xae;

pub const VK_VOLUME_UP: u16 = 0xaf;

pub const VK_OEM_1: u16 = 0xba;

pub const VK_OEM_PLUS: u16 = 0xbb;

pub const VK_OEM_COMMA: u16 = 0xbc;

pub const VK_OEM_MINUS: u16 = 0xbd;

pub const VK_OEM_PERIOD: u16 = 0xbe;

pub const VK_OEM_2: u16 = 0xbf;

pub const VK_OEM_3: u16 = 0xc0;

pub const VK_OEM_4: u16 = 0xdb;

pub const VK_OEM_5: u16 = 0xdc;

pub const VK_OEM_6: u16 = 0xdd;

pub const VK_OEM_7: u16 = 0xde;

/// The Windows virtual key for a macOS keycode.
pub open spec fn win_vk(kc: u16) -> u16 {
    match kc {
        // Letters by their place on the keyboard.
        0x00 => VK_A,  // A
        0x01 => VK_S,  // S
        0x02 => VK_D,  // D
        0x03 => VK_F,  // F
        0x04 => VK_H,  // H
        0x05 => VK_G,  // G
        0x06 => VK_Z,  // Z
        0x07 => VK_X,  // X
        0x08 => VK_C,  // C
        0x09 => VK_V,  // V
        0x0b => VK_B,  // B
        0x0c => VK_Q,  // Q
        0x0d => VK_W,  // W
        0x0e => VK_E,  // E
        0x0f => VK_R,  // R
        0x10 => VK_Y,  // Y
        0x11 => VK_T,  // T
        // Digits, symbols, the rest of the letters, and the keys around them.
        0x12 => VK_1,  // 1
        0x13 => VK_2,  // 2
        0x14 => VK_3,  // 3
        0x15 => VK_4,  // 4
        0x16 => VK_6,  // 6
        0x17 => VK_5,  // 5
        0x18 => VK_OEM_PLUS,  // =
        0x19 => VK_9,  // 9
        0x1a => VK_7,  // 7
        0x1b => VK_OEM_MINUS,  // -
        0x1c => VK_8,  // 8
        0x1d => VK_0,  // 0
        0x1e => VK_OEM_6,  // ]
        0x1f => VK_O,  // O
        0x20 => VK_U,  // U
        0x21 => VK_OEM_4,  // [
        0x22 => VK_I,  // I
        0x23 => VK_P,  // P
        0x24 => VK_RETURN,  // Return
        0x25 => VK_L,  // L
        0x26 => VK_J,  // J
        0x27 => VK_OEM_7,  // '
        0x28 => VK_K,  // K
        0x29 => VK_OEM_1,  // ;
        0x2a => VK_OEM_5,  // \
        0x2b => VK_OEM_COMMA,  // ,
        0x2c => VK_OEM_2,  // /
        0x2d => VK_N,  // N
        0x2e => VK_M,  // M
        0x2f => VK_OEM_PERIOD,  // .
        0x30 => VK_TAB,  // Tab
        0x31 => VK_SPACE,  // Space
        0x32 => VK_OEM_3,  // `
        0x33 => VK_BACK,  // Backspace
        0x34 => VK_RETURN,  // Enter
        0x35 => VK_ESCAPE,  // Escape
        // Modifiers. Command acts as Control, and Control as the Windows key.
        0x36 => VK_RCONTROL,  // Right Cmd
        0x37 => VK_LCONTROL,  // Left Cmd
        0x38 => VK_LSHIFT,  // Left Shift
        0x39 => VK_CAPITAL,  // Caps Lock
        0x3a => VK_LMENU,  // Left Option
        0x3b => VK_LWIN,  // Left Control
        0x3c => VK_RSHIFT,  // Right Shift
        0x3d => VK_RMENU,  // Right Option
        0x3e => VK_RWIN,  // Right Control
        0x3f => VK_VOLUME_MUTE,  // fn
        // Arrows.
        0x7b => VK_LEFT,  // Left
        0x7c => VK_RIGHT,  // Right
        0x7d => VK_DOWN,  // Down
        0x7e => VK_UP,  // Up
        // Function keys.
        0x7a => VK_F1,  // F1
        0x78 => VK_F2,  // F2
        0x63 => VK_F3,  // F3
        0x76 => VK_F4,  // F4
        0x60 => VK_F5,  // F5
        0x61 => VK_F6,  // F6
        0x62 => VK_F7,  // F7
        0x64 => VK_F8,  // F8
        0x65 => VK_F9,  // F9
        0x6d => VK_F10,  // F10
        0x67 => VK_F11,  // F11
        0x6f => VK_F12,  // F12
        // Numeric keypad.
        0x41 => VK_DECIMAL,  // NumPad .
        0x43 => VK_MULTIPLY,  // NumPad *
        0x45 => VK_ADD,  // NumPad +
        0x4b => VK_DIVIDE,  // NumPad /
        0x4c => VK_RETURN,  // NumPad Enter
        0x4e => VK_SUBTRACT,  // NumPad -
        0x51 => VK_ADD,  // NumPad =
        0x52 => VK_NUMPAD0,  // NumPad 0
        0x53 => VK_NUMPAD1,  // NumPad 1
        0x54 => VK_NUMPAD2,  // NumPad 2
        0x55 => VK_NUMPAD3,  // NumPad 3
        0x56 => VK_NUMPAD4,  // NumPad 4
        0x57 => VK_NUMPAD5,  // NumPad 5
        0x58 => VK_NUMPAD6,  // NumPad 6
        0x59 => VK_NUMPAD7,  // NumPad 7
        0x5b => VK_NUMPAD8,  // NumPad 8
        0x5c => VK_NUMPAD9,  // NumPad 9
        // Other keys.
        0x48 => VK_VOLUME_UP,  // Vol-Up
        0x49 => VK_VOLUME_DOWN,  // Vol-Down
        0x4a => VK_VOLUME_MUTE,  // Mute
        0x47 => VK_NUMLOCK,  // NumLock
        0x71 => VK_HOME,  // Home
        0x72 => VK_INSERT,  // Insert
        0x73 => VK_DELETE,  // Delete
        0x74 => VK_PRIOR,  // Page Up
        0x75 => VK_NEXT,  // Page Down
        0x77 => VK_END,  // End
        0x79 => VK_CANCEL,  // Break
        // Every other key keeps its number.
        _ => kc,
    }
}

/// Translates a macOS keycode, which names a place on the keyboard, into a
/// Windows virtual key. A key that is not in the table keeps its number.
pub fn mac_keycode_to_win_vk(kc: u16) -> (vk: u16)
    ensures
        vk == win_vk(kc),
{
    match kc {
        // Letters by their place on the keyboard.
        0x00 => VK_A,
        0x01 => VK_S,
        0x02 => VK_D,
        0x03 => VK_F,
        0x04 => VK_H,
        0x05 => VK_G,
        0x06 => VK_Z,
        0x07 => VK_X,
        0x08 => VK_C,
        0x09 => VK_V,
        0x0b => VK_B,
        0x0c => VK_Q,
        0x0d => VK_W,
        0x0e => VK_E,
        0x0f => VK_R,
        0x10 => VK_Y,
        0x11 => VK_T,
        // Digits, symbols, the rest of the letters, and the keys around them.
        0x12 => VK_1,
        0x13 => VK_2,
        0x14 => VK_3,
        0x15 => VK_4,
        0x16 => VK_6,
        0x17 => VK_5,
        0x18 => VK_OEM_PLUS,
        0x19 => VK_9,
        0x1a => VK_7,
        0x1b => VK_OEM_MINUS,
        0x1c => VK_8,
        0x1d => VK_0,
        0x1e => VK_OEM_6,
        0x1f => VK_O,
        0x20 => VK_U,
        0x21 => VK_OEM_4,
        0x22 => VK_I,
        0x23 => VK_P,
        0x24 => VK_RETURN,
        0x25 => VK_L,
        0x26 => VK_J,
        0x27 => VK_OEM_7,
        0x28 => VK_K,
        0x29 => VK_OEM_1,
        0x2a => VK_OEM_5,
        0x2b => VK_OEM_COMMA,
        0x2c => VK_OEM_2,
        0x2d => VK_N,
        0x2e => VK_M,
        0x2f => VK_OEM_PERIOD,
        0x30 => VK_TAB,
        0x31 => VK_SPACE,
        0x32 => VK_OEM_3,
        0x33 => VK_BACK,
        0x34 => VK_RETURN,
        0x35 => VK_ESCAPE,
        // Modifiers. Command acts as Control, and Control as the Windows key.
        0x36 => VK_RCONTROL,
        0x37 => VK_LCONTROL,
        0x38 => VK_LSHIFT,
        0x39 => VK_CAPITAL,
        0x3a => VK_LMENU,
        0x3b => VK_LWIN,
        0x3c => VK_RSHIFT,
        0x3d => VK_RMENU,
        0x3e => VK_RWIN,
        0x3f => VK_VOLUME_MUTE,
        // Arrows.
        0x7b => VK_LEFT,
        0x7c => VK_RIGHT,
        0x7d => VK_DOWN,
        0x7e => VK_UP,
        // Function keys.
        0x7a => VK_F1,
        0x78 => VK_F2,
        0x63 => VK_F3,
        0x76 => VK_F4,
        0x60 => VK_F5,
        0x61 => VK_F6,
        0x62 => VK_F7,
        0x64 => VK_F8,
        0x65 => VK_F9,
        0x6d => VK_F10,
        0x67 => VK_F11,
        0x6f => VK_F12,
        // Numeric keypad.
        0x41 => VK_DECIMAL,
        0x43 => VK_MULTIPLY,
        0x45 => VK_ADD,
        0x4b => VK_DIVIDE,
        0x4c => VK_RETURN,
        0x4e => VK_SUBTRACT,
        0x51 => VK_ADD,
        0x52 => VK_NUMPAD0,
        0x53 => VK_NUMPAD1,
        0x54 => VK_NUMPAD2,
        0x55 => VK_NUMPAD3,
        0x56 => VK_NUMPAD4,
        0x57 => VK_NUMPAD5,
        0x58 => VK_NUMPAD6,
        0x59 => VK_NUMPAD7,
        0x5b => VK_NUMPAD8,
        0x5c => VK_NUMPAD9,
        // Other keys.
        0x48 => VK_VOLUME_UP,
        0x49 => VK_VOLUME_DOWN,
        0x4a => VK_VOLUME_MUTE,
        0x47 => VK_NUMLOCK,
        0x71 => VK_HOME,
        0x72 => VK_INSERT,
        0x73 => VK_DELETE,
        0x74 => VK_PRIOR,
        0x75 => VK_NEXT,
        0x77 => VK_END,
        0x79 => VK_CANCEL,
        // Every other key keeps its number.
        _ => kc,
    }
}

/// The quotient without its fraction.
pub open spec fn whole_notches(delta: int) -> int {
    if delta >= 0 {
        delta / 120
    } else {
        -((-delta) / 120)
    }
}

/// How many notches a wheel was turned by: the high half of `mouse_data` is the
/// signed distance.
pub open spec fn notches(mouse_data: u32) -> i16 {
    whole_notches(signed16(mouse_data as nat / 0x1_0000) as int) as i16
}

/// How many notches a wheel was turned by.
fn to_notches(mouse_data: u32) -> (res: i16)
    ensures
        res == notches(mouse_data),
{
    let high: i32 = (mouse_data / 0x1_0000) as i32;
    let delta: i32 = if high < 0x8000 {
        high
    } else {
        high - 0x1_0000
    };
    if delta >= 0 {
        (delta / WHEEL_DELTA) as i16
    } else {
        (-((-delta) / WHEEL_DELTA)) as i16
    }
}

/// The event that a mouse message stands for, if any. `x` and `y` are the
/// normalized position of the cursor (the bits of 32-bit floats).
pub open spec fn mouse_event(event_type: u32, mouse_data: u32, x: u32, y: u32) -> Option<
    EventModel,
> {
    if event_type == WM_MOUSEMOVE {
        Some(EventModel::MouseMoveAbsolute { x, y })
    } else if event_type == WM_LBUTTONDOWN {
        Some(EventModel::MouseDown { button: MouseButton::Left })
    } else if event_type == WM_LBUTTONUP {
        Some(EventModel::MouseUp { button: MouseButton::Left })
    } else if event_type == WM_RBUTTONDOWN {
        Some(EventModel::MouseDown { button: MouseButton::Right })
    } else if event_type == WM_RBUTTONUP {
        Some(EventModel::MouseUp { button: MouseButton::Right })
    } else if event_type == WM_MBUTTONDOWN {
        Some(EventModel::MouseDown { button: MouseButton::Middle })
    } else if event_type == WM_MBUTTONUP {
        Some(EventModel::MouseUp { button: MouseButton::Middle })
    } else if event_type == WM_MOUSEWHEEL {
        Some(EventModel::Scroll { dx: 0, dy: notches(mouse_data) })
    } else if event_type == WM_MOUSEHWHEEL {
        Some(EventModel::Scroll { dx: notches(mouse_data), dy: 0 })
    } else {
        None
    }
}

/// The event inside an option, with its text and bytes as sequences.
pub open spec fn event_model(event: Option<InputEvent>) -> Option<EventModel> {
    match event {
        Some(e) => Some(e@),
        None => None,
    }
}

/// Reads a mouse message that a hook was called with. A negative `n_code` means
/// that the message is not for the hook.
pub fn mouse_hook_callback(n_code: i32, event_type: u32, mouse_data: u32, x: u32, y: u32) -> (res:
    Option<InputEvent>)
    ensures
        event_model(res) == if n_code >= 0 {
            mouse_event(event_type, mouse_data, x, y)
        } else {
            None
        },
{
    if n_code < 0 {
        return None;
    }
    if event_type == WM_MOUSEMOVE {
        Some(InputEvent::MouseMoveAbsolute { x, y })
    } else if event_type == WM_LBUTTONDOWN {
        Some(InputEvent::MouseDown { button: MouseButton::Left })
    } else if event_type == WM_LBUTTONUP {
        Some(InputEvent::MouseUp { button: MouseButton::Left })
    } else if event_type == WM_RBUTTONDOWN {
        Some(InputEvent::MouseDown { button: MouseButton::Right })
    } else if event_type == WM_RBUTTONUP {
        Some(InputEvent::MouseUp { button: MouseButton::Right })
    } else if event_type == WM_MBUTTONDOWN {
        Some(InputEvent::MouseDown { button: MouseButton::Middle })
    } else if event_type == WM_MBUTTONUP {
        Some(InputEvent::MouseUp { button: MouseButton::Middle })
    } else if event_type == WM_MOUSEWHEEL {
        Some(InputEvent::Scroll { dx: 0, dy: to_notches(mouse_data) })
    } else if event_type == WM_MOUSEHWHEEL {
        Some(InputEvent::Scroll { dx: to_notches(mouse_data), dy: 0 })
    } else {
        None
    }
}

/// The modifiers that the flags of a keyboard message stand for.
pub open spec fn hook_modifiers(flags: u32) -> Modifiers {
    Modifiers {
        bits: if flags & 0x10 != 0 && flags & 0x20 != 0 {
            0x0c
        } else if flags & 0x10 != 0 {
            0x04
        } else if flags & 0x20 != 0 {
            0x08
        } else {
            0x00
        },
    }
}

/// The event that a keyboard message stands for, if any.
pub open spec fn key_event(event_type: u32, vk_code: u32, flags: u32) -> Option<EventModel> {
    let keycode = low_unsigned16(vk_code as int);
    if event_type == WM_KEYDOWN || event_type == WM_SYSKEYDOWN {
        Some(EventModel::KeyDown { keycode, modifiers: hook_modifiers(flags) })
    } else if event_type == WM_KEYUP || event_type == WM_SYSKEYUP {
        Some(EventModel::KeyUp { keycode, modifiers: hook_modifiers(flags) })
    } else {
        None
    }
}

/// Reads a keyboard message that a hook was called with. A negative `n_code`
/// means that the message is not for the hook.
pub fn keyboard_hook_callback(n_code: i32, event_type: u32, vk_code: u32, flags: u32) -> (res:
    Option<InputEvent>)
    ensures
        event_model(res) == if n_code >= 0 {
            key_event(event_type, vk_code, flags)
        } else {
            None
        },
{
    if n_code < 0 {
        return None;
    }
    let keycode: u16 = to_low_unsigned16(vk_code as i64);
    let mut bits: u8 = Modifiers::NONE;
    if flags & 0x10 != 0 {
        bits = bits + Modifiers::ALT;
    }
    if flags & 0x20 != 0 {
        bits = bits + Modifiers::META;
    }
    let modifiers: Modifiers = Modifiers::from_bits_retain(bits);
    if event_type == WM_KEYDOWN || event_type == WM_SYSKEYDOWN {
        Some(InputEvent::KeyDown { keycode, modifiers })
    } else if event_type == WM_KEYUP || event_type == WM_SYSKEYUP {
        Some(InputEvent::KeyUp { keycode, modifiers })
    } else {
        None
    }
}

/// Mouse input for the system's input queue.
#[derive(Debug, Clone, Copy, PartialEq, Eq, Structural)]
pub struct MouseInput {
    pub dx: i32,
    pub dy: i32,
    pub mouse_data: u32,
    pub flags: u32,
}

/// Keyboard input for the system's input queue.
#[derive(Debug, Clone, Copy, PartialEq, Eq, Structural)]
pub struct KeyInput {
    pub vk: u16,
    pub flags: u32,
}

/// One step of injecting an event into Windows.
#[derive(Debug, Clone, Copy, PartialEq, Eq, Structural)]
pub enum WinInjection {
    /// Queue mouse input.
    Mouse(MouseInput),
    /// Queue keyboard input.
    Key(KeyInput),
    /// Put the cursor at a normalized position (the bits of 32-bit floats).
    WarpTo { x: u32, y: u32 },
    /// Put the cursor at a normalized position, and report to `track` where it went.
    WarpAndTrack { x: u32, y: u32 },
}

/// The bits of a signed number.
pub open spec fn two_complement(value: i32) -> u32 {
    if value >= 0 {
        value as u32
    } else {
        (value + 0x1_0000_0000) as u32
    }
}

/// Mouse input with signed data.
pub open spec fn mouse_input(flags: u32, dx: i32, dy: i32, mouse_data: i32) -> MouseInput {
    MouseInput { dx, dy, mouse_data: two_complement(mouse_data), flags }
}

/// Keyboard input for a key that goes down or up.
pub open spec fn key_input(vk: u16, key_up: bool) -> KeyInput {
    KeyInput {
        vk,
        flags: if key_up {
            KEYEVENTF_KEYUP
        } else {
            0
        },
    }
}

/// Makes mouse input with signed data.
pub fn send_mouse_event(flags: u32, dx: i32, dy: i32, mouse_data: i32) -> (input: MouseInput)
    ensures
        input == mouse_input(flags, dx, dy, mouse_data),
{
    let data: u32 = if mouse_data >= 0 {
        mouse_data as u32
    } else {
        (mouse_data as i64 + 0x1_0000_0000) as u32
    };
    MouseInput { dx, dy, mouse_data: data, flags }
}

/// Makes keyboard input for a key that goes down or up.
pub fn send_key_event(vk: u16, key_up: bool) -> (input: KeyInput)
    ensures
        input == key_input(vk, key_up),
{
    let flags: u32 = if key_up {
        KEYEVENTF_KEYUP
    } else {
        0
    };
    KeyInput { vk, flags }
}

/// The flags of a mouse button that goes down or up.
pub open spec fn button_flags(button: MouseButton, down: bool) -> u32 {
    match button {
        MouseButton::Left => if down {
            MOUSEEVENTF_LEFTDOWN
        } else {
            MOUSEEVENTF_LEFTUP
        },
        MouseButton::Right => if down {
            MOUSEEVENTF_RIGHTDOWN
        } else {
            MOUSEEVENTF_RIGHTUP
        },
        _ => if down {
            MOUSEEVENTF_MIDDLEDOWN
        } else {
            MOUSEEVENTF_MIDDLEUP
        },
    }
}

/// The input that turns a wheel, nothing if it does not turn.
pub open spec fn wheel_steps(flags: u32, notches: i16) -> Seq<WinInjection> {
    if notches != 0 {
        seq![WinInjection::Mouse(mouse_input(flags, 0, 0, (notches * 120) as i32))]
    } else {
        Seq::empty()
    }
}

/// The steps of injecting an event into Windows.
pub open spec fn injection(event: EventModel) -> Seq<WinInjection> {
    match event {
        EventModel::MouseMove { dx, dy } => seq![
            WinInjection::Mouse(mouse_input(RELATIVE_MOVE, dx as i32, dy as i32, 0)),
        ],
        EventModel::MouseMoveAbsolute { x, y } => seq![WinInjection::WarpTo { x, y }],
        EventModel::CursorEnter { x, y } => seq![WinInjection::WarpAndTrack { x, y }],
        EventModel::MouseDown { button } => seq![
            WinInjection::Mouse(mouse_input(button_flags(button, true), 0, 0, 0)),
        ],
        EventModel::MouseUp { button } => seq![
            WinInjection::Mouse(mouse_input(button_flags(button, false), 0, 0, 0)),
        ],
        EventModel::Scroll { dx, dy } => wheel_steps(MOUSEEVENTF_WHEEL, dy) + wheel_steps(
            MOUSEEVENTF_HWHEEL,
            dx,
        ),
        EventModel::KeyDown { keycode, .. } => seq![
            WinInjection::Key(key_input(win_vk(keycode), false)),
        ],
        EventModel::KeyUp { keycode, .. } => seq![
            WinInjection::Key(key_input(win_vk(keycode), true)),
        ],
        _ => Seq::empty(),
    }
}

/// The capture state of a Windows machine.
#[derive(Debug, Clone, Copy, PartialEq, Eq, Structural)]
pub struct WindowsInput {
    /// Whether the hooks stay installed.
    pub capturing: bool,
    /// Where the cursor was last put (the bits of 32-bit floats).
    pub vx: u32,
    pub vy: u32,
}

impl WindowsInput {
    /// The state in which nothing is captured.
    pub fn new() -> (input: WindowsInput)
        ensures
            input == (WindowsInput { capturing: false, vx: 0, vy: 0 }),
    {
        WindowsInput { capturing: false, vx: 0, vy: 0 }
    }

    /// Lets the hooks be installed.
    pub fn start_capture(&mut self)
        ensures
            *final(self) == (WindowsInput { capturing: true, ..*old(self) }),
    {
        self.capturing = true;
    }

    /// Lets the hooks be removed.
    pub fn stop_capture(&mut self)
        ensures
            *final(self) == (WindowsInput { capturing: false, ..*old(self) }),
    {
        self.capturing = false;
    }

    /// Records where the cursor was put (the bits of 32-bit floats).
    pub fn track(&mut self, vx: u32, vy: u32)
        ensures
            *final(self) == (WindowsInput { vx, vy, ..*old(self) }),
    {
        self.vx = vx;
        self.vy = vy;
    }

    /// Tells the steps of injecting an event.
    pub fn inject_event(&self, event: &InputEvent) -> (steps: Vec<WinInjection>)
        ensures
            steps@ == injection(event@),
    {
        let mut steps: Vec<WinInjection> = Vec::new();
        match event {
            InputEvent::MouseMove { dx, dy } => {
                let input = send_mouse_event(RELATIVE_MOVE, *dx as i32, *dy as i32, 0);
                steps.push(WinInjection::Mouse(input));
            },
            InputEvent::MouseMoveAbsolute { x, y } => {
                steps.push(WinInjection::WarpTo { x: *x, y: *y });
            },
            InputEvent::MouseDown { button } => {
                let flags: u32 = match button {
                    MouseButton::Left => MOUSEEVENTF_LEFTDOWN,
                    MouseButton::Right => MOUSEEVENTF_RIGHTDOWN,
                    MouseButton::Middle | MouseButton::Other(_) => MOUSEEVENTF_MIDDLEDOWN,
                };
                steps.push(WinInjection::Mouse(send_mouse_event(flags, 0, 0, 0)));
            },
            InputEvent::MouseUp { button } => {
                let flags: u32 = match button {
                    MouseButton::Left => MOUSEEVENTF_LEFTUP,
                    MouseButton::Right => MOUSEEVENTF_RIGHTUP,
                    MouseButton::Middle | MouseButton::Other(_) => MOUSEEVENTF_MIDDLEUP,
                };
                steps.push(WinInjection::Mouse(send_mouse_event(flags, 0, 0, 0)));
            },
            InputEvent::Scroll { dx, dy } => {
                if *dy != 0 {
                    let input = send_mouse_event(
                        MOUSEEVENTF_WHEEL,
                        0,
                        0,
                        *dy as i32 * WHEEL_DELTA,
                    );
                    steps.push(WinInjection::Mouse(input));
                }
                if *dx != 0 {
                    let input = send_mouse_event(
                        MOUSEEVENTF_HWHEEL,
                        0,
                        0,
                        *dx as i32 * WHEEL_DELTA,
                    );
                    steps.push(WinInjection::Mouse(input));
                }
            },
            InputEvent::KeyDown { keycode, .. } => {
                let vk: u16 = mac_keycode_to_win_vk(*keycode);
                steps.push(WinInjection::Key(send_key_event(vk, false)));
            },
            InputEvent::KeyUp { keycode, .. } => {
                let vk: u16 = mac_keycode_to_win_vk(*keycode);
                steps.push(WinInjection::Key(send_key_event(vk, true)));
            },
            InputEvent::CursorEnter { x, y } => {
                steps.push(WinInjection::WarpAndTrack { x: *x, y: *y });
            },
            _ => {},
        }
        assert(steps@ =~= injection(event@));
        steps
    }
}

/// A wheel that is turned by whole notches is captured as that many notches.
pub proof fn law_whole_notches_are_captured(count: i16, low: u16)
    requires
        -273 <= count <= 273,
    ensures
        notches((unsigned16((count * 120) as i16) * 0x1_0000 + low) as u32) == count,
{
}

/// Every letter and every digit has a key.
pub proof fn law_every_letter_and_digit_has_a_key(vk: u16)
    requires
        0x41 <= vk <= 0x5a || 0x30 <= vk <= 0x39,
    ensures
        exists|kc: u16| kc <= 0x2e && #[trigger] win_vk(kc) == vk,
{
    assert(win_vk(0x1d) == 0x30);
    assert(win_vk(0x12) == 0x31);
    assert(win_vk(0x13) == 0x32);
    assert(win_vk(0x14) == 0x33);
    assert(win_vk(0x15) == 0x34);
    assert(win_vk(0x17) == 0x35);
    assert(win_vk(0x16) == 0x36);
    assert(win_vk(0x1a) == 0x37);
    assert(win_vk(0x1c) == 0x38);
    assert(win_vk(0x19) == 0x39);
    assert(win_vk(0x00) == 0x41);
    assert(win_vk(0x0b) == 0x42);
    assert(win_vk(0x08) == 0x43);
    assert(win_vk(0x02) == 0x44);
    assert(win_vk(0x0e) == 0x45);
    assert(win_vk(0x03) == 0x46);
    assert(win_vk(0x05) == 0x47);
    assert(win_vk(0x04) == 0x48);
    assert(win_vk(0x22) == 0x49);
    assert(win_vk(0x26) == 0x4a);
    assert(win_vk(0x28) == 0x4b);
    assert(win_vk(0x25) == 0x4c);
    assert(win_vk(0x2e) == 0x4d);
    assert(win_vk(0x2d) == 0x4e);
    assert(win_vk(0x1f) == 0x4f);
    assert(win_vk(0x23) == 0x50);
    assert(win_vk(0x0c) == 0x51);
    assert(win_vk(0x0f) == 0x52);
    assert(win_vk(0x01) == 0x53);
    assert(win_vk(0x11) == 0x54);
    assert(win_vk(0x20) == 0x55);
    assert(win_vk(0x09) == 0x56);
    assert(win_vk(0x0d) == 0x57);
    assert(win_vk(0x07) == 0x58);
    assert(win_vk(0x10) == 0x59);
    assert(win_vk(0x06) == 0x5a);
}

/// No two keys of the typing area stand for the same virtual key.
pub proof fn law_typing_keys_are_distinct(a: u16, b: u16)
    requires
        a <= 0x33,
        b <= 0x33,
        win_vk(a) == win_vk(b),
    ensures
        a == b,
{
}

/// The keys of the letters, from A to Z.
pub open spec fn letter_keys() -> Seq<u16> {
    seq![
        0x00,
        0x0b,
        0x08,
        0x02,
        0x0e,
        0x03,
        0x05,
        0x04,
        0x22,
        0x26,
        0x28,
        0x25,
        0x2e,
        0x2d,
        0x1f,
        0x23,
        0x0c,
        0x0f,
        0x01,
        0x11,
        0x20,
        0x09,
        0x0d,
        0x07,
        0x10,
        0x06,
    ]
}

/// The keys of the digits above the letters, from 0 to 9.
pub open spec fn digit_keys() -> Seq<u16> {
    seq![
        0x1d,
        0x12,
        0x13,
        0x14,
        0x15,
        0x17,
        0x16,
        0x1a,
        0x1c,
        0x19,
    ]
}

/// The digits of the numeric keypad, from 0 to 9.
pub open spec fn keypad_keys() -> Seq<u16> {
    seq![
        0x52,
        0x53,
        0x54,
        0x55,
        0x56,
        0x57,
        0x58,
        0x59,
        0x5b,
        0x5c,
    ]
}

/// The function keys, from the first to the twelfth.
pub open spec fn function_keys() -> Seq<u16> {
    seq![
        0x7a,
        0x78,
        0x63,
        0x76,
        0x60,
        0x61,
        0x62,
        0x64,
        0x65,
        0x6d,
        0x67,
        0x6f,
    ]
}

/// The arrows: left, up, right, down.
pub open spec fn arrow_keys() -> Seq<u16> {
    seq![
        0x7b,
        0x7e,
        0x7c,
        0x7d,
    ]
}

/// Left and right shift, left and right Command, left and right Option.
pub open spec fn side_keys() -> Seq<u16> {
    seq![
        0x38,
        0x3c,
        0x37,
        0x36,
        0x3a,
        0x3d,
    ]
}

/// Page up, page down, end, home.
pub open spec fn page_keys() -> Seq<u16> {
    seq![
        0x74,
        0x75,
        0x77,
        0x71,
    ]
}

/// Keys that come in an order keep it: the virtual keys of letters and digits
/// are their characters, those of the keypad, of the function keys, of the
/// arrows, of the modifiers with two sides and of the page keys count up from
/// the first one of each.
pub proof fn law_keys_that_count_up(i: int)
    ensures
        0 <= i < 26 ==> win_vk(letter_keys()[i]) == 'A' as int + i,
        0 <= i < 10 ==> win_vk(digit_keys()[i]) == '0' as int + i,
        0 <= i < 10 ==> win_vk(keypad_keys()[i]) == 0x60 + i,
        0 <= i < 12 ==> win_vk(function_keys()[i]) == 0x70 + i,
        0 <= i < 4 ==> win_vk(arrow_keys()[i]) == 0x25 + i,
        0 <= i < 6 ==> win_vk(side_keys()[i]) == 0xa0 + i,
        0 <= i < 4 ==> win_vk(page_keys()[i]) == 0x21 + i,
{
}

/// The remaining keys, by the number of the virtual key that they stand for.
pub open spec fn single_keys(vk: u16) -> Set<u16> {
    if vk == 0x03 {
        set![0x79]
    } else if vk == 0x08 {
        set![0x33]
    } else if vk == 0x09 {
        set![0x30]
    } else if vk == 0x0d {
        set![0x24, 0x34, 0x4c]
    } else if vk == 0x14 {
        set![0x39]
    } else if vk == 0x1b {
        set![0x35]
    } else if vk == 0x20 {
        set![0x31]
    } else if vk == 0x2d {
        set![0x72]
    } else if vk == 0x2e {
        set![0x73]
    } else if vk == 0x5b {
        set![0x3b]
    } else if vk == 0x5c {
        set![0x3e]
    } else if vk == 0x6a {
        set![0x43]
    } else if vk == 0x6b {
        set![0x45, 0x51]
    } else if vk == 0x6d {
        set![0x4e]
    } else if vk == 0x6e {
        set![0x41]
    } else if vk == 0x6f {
        set![0x4b]
    } else if vk == 0x90 {
        set![0x47]
    } else if vk == 0xad {
        set![0x3f, 0x4a]
    } else if vk == 0xae {
        set![0x49]
    } else if vk == 0xaf {
        set![0x48]
    } else if vk == 0xba {
        set![0x29]
    } else if vk == 0xbb {
        set![0x18]
    } else if vk == 0xbc {
        set![0x2b]
    } else if vk == 0xbd {
        set![0x1b]
    } else if vk == 0xbe {
        set![0x2f]
    } else if vk == 0xbf {
        set![0x2c]
    } else if vk == 0xc0 {
        set![0x32]
    } else if vk == 0xdb {
        set![0x21]
    } else if vk == 0xdc {
        set![0x2a]
    } else if vk == 0xdd {
        set![0x1e]
    } else if vk == 0xde {
        set![0x27]
    } else {
        Set::empty()
    }
}

/// Every key stands for the virtual key of its own group, or keeps its number
/// if it is in none.
pub proof fn law_every_key_has_one_meaning(kc: u16, vk: u16)
    ensures
        single_keys(vk).contains(kc) ==> win_vk(kc) == vk,
        !letter_keys().contains(kc) && !digit_keys().contains(kc) && !keypad_keys().contains(kc)
            && !function_keys().contains(kc) && !arrow_keys().contains(kc) && !side_keys().contains(
            kc,
        ) && !page_keys().contains(kc) && !single_keys(win_vk(kc)).contains(kc) ==> win_vk(kc)
            == kc,
{
    assert(letter_keys()[0] == 0x00);
    assert(letter_keys()[1] == 0x0b);
    assert(letter_keys()[2] == 0x08);
    assert(letter_keys()[3] == 0x02);
    assert(letter_keys()[4] == 0x0e);
    assert(letter_keys()[5] == 0x03);
    assert(letter_keys()[6] == 0x05);
    assert(letter_keys()[7] == 0x04);
    assert(letter_keys()[8] == 0x22);
    assert(letter_keys()[9] == 0x26);
    assert(letter_keys()[10] == 0x28);
    assert(letter_keys()[11] == 0x25);
    assert(letter_keys()[12] == 0x2e);
    assert(letter_keys()[13] == 0x2d);
    assert(letter_keys()[14] == 0x1f);
    assert(letter_keys()[15] == 0x23);
    assert(letter_keys()[16] == 0x0c);
    assert(letter_keys()[17] == 0x0f);
    assert(letter_keys()[18] == 0x01);
    assert(letter_keys()[19] == 0x11);
    assert(letter_keys()[20] == 0x20);
    assert(letter_keys()[21] == 0x09);
    assert(letter_keys()[22] == 0x0d);
    assert(letter_keys()[23] == 0x07);
    assert(letter_keys()[24] == 0x10);
    assert(letter_keys()[25] == 0x06);
    assert(digit_keys()[0] == 0x1d);
    assert(digit_keys()[1] == 0x12);
    assert(digit_keys()[2] == 0x13);
    assert(digit_keys()[3] == 0x14);
    assert(digit_keys()[4] == 0x15);
    assert(digit_keys()[5] == 0x17);
    assert(digit_keys()[6] == 0x16);
    assert(digit_keys()[7] == 0x1a);
    assert(digit_keys()[8] == 0x1c);
    assert(digit_keys()[9] == 0x19);
    assert(keypad_keys()[0] == 0x52);
    assert(keypad_keys()[1] == 0x53);
    assert(keypad_keys()[2] == 0x54);
    assert(keypad_keys()[3] == 0x55);
    assert(keypad_keys()[4] == 0x56);
    assert(keypad_keys()[5] == 0x57);
    assert(keypad_keys()[6] == 0x58);
    assert(keypad_keys()[7] == 0x59);
    assert(keypad_keys()[8] == 0x5b);
    assert(keypad_keys()[9] == 0x5c);
    assert(function_keys()[0] == 0x7a);
    assert(function_keys()[1] == 0x78);
    assert(function_keys()[2] == 0x63);
    assert(function_keys()[3] == 0x76);
    assert(function_keys()[4] == 0x60);
    assert(function_keys()[5] == 0x61);
    assert(function_keys()[6] == 0x62);
    assert(function_keys()[7] == 0x64);
    assert(function_keys()[8] == 0x65);
    assert(function_keys()[9] == 0x6d);
    assert(function_keys()[10] == 0x67);
    assert(function_keys()[11] == 0x6f);
    assert(arrow_keys()[0] == 0x7b);
    assert(arrow_keys()[1] == 0x7e);
    assert(arrow_keys()[2] == 0x7c);
    assert(arrow_keys()[3] == 0x7d);
    assert(side_keys()[0] == 0x38);
    assert(side_keys()[1] == 0x3c);
    assert(side_keys()[2] == 0x37);
    assert(side_keys()[3] == 0x36);
    assert(side_keys()[4] == 0x3a);
    assert(side_keys()[5] == 0x3d);
    assert(page_keys()[0] == 0x74);
    assert(page_keys()[1] == 0x75);
    assert(page_keys()[2] == 0x77);
    assert(page_keys()[3] == 0x71);
}

/// How many notches are captured: the high half of the data is a signed
/// distance, of which 120 make a notch; a part of a notch does not count.
pub proof fn law_notches_are_whole_turns(mouse_data: u32)
    ensures
        ({
            let high = mouse_data as int / 0x1_0000;
            let distance = if high < 0x8000 {
                high
            } else {
                high - 0x1_0000
            };
            let count = notches(mouse_data);
            &&& distance >= 0 ==> 0 <= distance - 120 * count < 120
            &&& distance < 0 ==> 0 <= 120 * count - distance < 120
        }),
{
}

/// What a mouse message means: a press, a release, a move or a turn of one of
/// the two wheels, and nothing for other messages.
pub proof fn law_mouse_messages(event_type: u32, mouse_data: u32, x: u32, y: u32)
    ensures
        ({
            let event = mouse_event(event_type, mouse_data, x, y);
            let left = MouseButton::Left;
            let right = MouseButton::Right;
            let middle = MouseButton::Middle;
            &&& event_type == 0x200 ==> event == Some(EventModel::MouseMoveAbsolute { x, y })
            &&& event_type == 0x201 ==> event == Some(EventModel::MouseDown { button: left })
            &&& event_type == 0x202 ==> event == Some(EventModel::MouseUp { button: left })
            &&& event_type == 0x204 ==> event == Some(EventModel::MouseDown { button: right })
            &&& event_type == 0x205 ==> event == Some(EventModel::MouseUp { button: right })
            &&& event_type == 0x207 ==> event == Some(EventModel::MouseDown { button: middle })
            &&& event_type == 0x208 ==> event == Some(EventModel::MouseUp { button: middle })
            &&& event_type == 0x20a ==> event == Some(
                EventModel::Scroll { dx: 0, dy: notches(mouse_data) },
            )
            &&& event_type == 0x20e ==> event == Some(
                EventModel::Scroll { dx: notches(mouse_data), dy: 0 },
            )
            &&& event is Some <==> event_type == 0x200 || event_type == 0x201 || event_type == 0x202
                || event_type == 0x204 || event_type == 0x205 || event_type == 0x207 || event_type
                == 0x208 || event_type == 0x20a || event_type == 0x20e
        }),
{
}

/// What a keyboard message means: a key that goes down or up, with the number
/// in the low half, and nothing for other messages. Of the modifiers only the
/// two that the message tells are set.
pub proof fn law_keyboard_messages(event_type: u32, vk_code: u32, flags: u32)
    ensures
        ({
            let event = key_event(event_type, vk_code, flags);
            let bits: int = (if flags & 0x10 != 0 {
                4int
            } else {
                0
            }) + (if flags & 0x20 != 0 {
                8int
            } else {
                0
            });
            &&& event_type == 0x100 || event_type == 0x104 <==> (event matches Some(
                EventModel::KeyDown { keycode, modifiers },
            ))
            &&& event_type == 0x101 || event_type == 0x105 <==> (event matches Some(
                EventModel::KeyUp { keycode, modifiers },
            ))
            &&& match event {
                Some(EventModel::KeyDown { keycode, modifiers }) => (keycode - vk_code) % 0x1_0000
                    == 0 && modifiers.bits == bits,
                Some(EventModel::KeyUp { keycode, modifiers }) => (keycode - vk_code) % 0x1_0000
                    == 0 && modifiers.bits == bits,
                other => other is None,
            }
        }),
{
    law_narrowing_keeps_low_bits(vk_code as int);
}

/// A press or release of a button is one mouse input without movement. Each
/// button has a flag of its own, and the flag of a release is twice that of the
/// press.
pub proof fn law_button_injection(button: MouseButton)
    ensures
        ({
            let down = injection(EventModel::MouseDown { button });
            let up = injection(EventModel::MouseUp { button });
            let flag: u32 = match button {
                MouseButton::Left => 0x02,
                MouseButton::Right => 0x08,
                MouseButton::Middle => 0x20,
                MouseButton::Other(_) => 0x20,
            };
            &&& down.len() == 1
            &&& up.len() == 1
            &&& down[0] matches WinInjection::Mouse(pressed)
            &&& up[0] matches WinInjection::Mouse(released)
            &&& pressed.flags == flag
            &&& released.flags == 2 * flag
            &&& pressed.dx == 0 && pressed.dy == 0 && pressed.mouse_data == 0
            &&& released.dx == 0 && released.dy == 0 && released.mouse_data == 0
        }),
{
}

/// A movement is one relative mouse input over the same distance, which is not
/// merged with others; a position is one warp to it, which is tracked when the
/// cursor enters.
pub proof fn law_movement_injection(dx: i16, dy: i16, x: u32, y: u32)
    ensures
        ({
            let steps = injection(EventModel::MouseMove { dx, dy });
            &&& steps.len() == 1
            &&& steps[0] matches WinInjection::Mouse(input)
            &&& input.dx == dx && input.dy == dy && input.mouse_data == 0
            &&& input.flags == 0x2001
        }),
        injection(EventModel::MouseMoveAbsolute { x, y }) == seq![WinInjection::WarpTo { x, y }],
        injection(EventModel::CursorEnter { x, y }) == seq![WinInjection::WarpAndTrack { x, y }],
{
    assert(0x0001u32 | 0x2000u32 == 0x2001u32) by (bit_vector);
}

/// A scroll is one input for each wheel that turns, the vertical one first,
/// without movement. The data is 120 for each notch, as a signed number.
pub proof fn law_scroll_injection(dx: i16, dy: i16)
    ensures
        ({
            let steps = injection(EventModel::Scroll { dx, dy });
            let vertical: int = if dy != 0 {
                1
            } else {
                0
            };
            let horizontal: int = if dx != 0 {
                1
            } else {
                0
            };
            &&& steps.len() == vertical + horizontal
            &&& dy != 0 ==> (steps[0] matches WinInjection::Mouse(input) && input.flags == 0x800
                && input.dx == 0 && input.dy == 0 && (input.mouse_data - 120 * dy)
                % 0x1_0000_0000 == 0)
            &&& dx != 0 ==> (steps[vertical] matches WinInjection::Mouse(input) && input.flags
                == 0x1000 && input.dx == 0 && input.dy == 0 && (input.mouse_data - 120 * dx)
                % 0x1_0000_0000 == 0)
        }),
{
}

/// A key is one keyboard input for the virtual key of its place, marked when
/// it goes up; the modifiers make no difference. Other events inject nothing.
pub proof fn law_key_injection(keycode: u16, modifiers: Modifiers, event: EventModel)
    ensures
        injection(EventModel::KeyDown { keycode, modifiers }) == seq![
            WinInjection::Key(KeyInput { vk: win_vk(keycode), flags: 0 }),
        ],
        injection(EventModel::KeyUp { keycode, modifiers }) == seq![
            WinInjection::Key(KeyInput { vk: win_vk(keycode), flags: 2 }),
        ],
        event is Clipboard || event is ScreenInfo || event is CursorLeave || event is Ping
            || event is Pong ==> injection(event).len() == 0,
{
}

/// Data for an input keeps the bits of the signed number that it stands for.
pub proof fn law_mouse_input_keeps_its_parts(flags: u32, dx: i32, dy: i32, mouse_data: i32)
    ensures
        ({
            let input = mouse_input(flags, dx, dy, mouse_data);
            &&& input.flags == flags && input.dx == dx && input.dy == dy
            &&& (input.mouse_data - mouse_data) % 0x1_0000_0000 == 0
        }),
{
}

/// A keyboard input keeps its key, and is marked exactly when the key goes up.
pub proof fn law_key_input_keeps_its_parts(vk: u16, key_up: bool)
    ensures
        key_input(vk, key_up).vk == vk,
        key_up ==> key_input(vk, key_up).flags == 2,
        !key_up ==> key_input(vk, key_up).flags == 0,
{
}

/// The model of a read message is there exactly when an event was read.
pub proof fn law_read_event_is_seen_whole(event: Option<InputEvent>)
    ensures
        event is None <==> event_model(event) is None,
        event matches Some(e) ==> event_model(event) == Some(e@),
{
}

} // verus!
