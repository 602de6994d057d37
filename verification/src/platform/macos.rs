//! Input capture and injection on macOS.
//!
//! An event tap sees every mouse, keyboard, click and scroll event. While the
//! cursor is on a remote screen the tap takes the events away from this
//! machine and forwards them; otherwise it only watches where the cursor is.
use vstd::prelude::*;

use crate::protocol::{EventModel, InputEvent, Modifiers, MouseButton};
use crate::wire::{
    law_narrowing_keeps_low_bits, low_byte, low_signed16, low_unsigned16, to_low_byte,
    to_low_signed16, to_low_unsigned16,
};

verus! {

pub const KCG_EVENT_LEFT_DOWN: u32 = 1;

pub const KCG_EVENT_LEFT_UP: u32 = 2;

pub const KCG_EVENT_RIGHT_DOWN: u32 = 3;

pub const KCG_EVENT_RIGHT_UP: u32 = 4;

pub const KCG_EVENT_MOUSE_MOVED: u32 = 5;

pub const KCG_EVENT_LEFT_DRAGGED: u32 = 6;

pub const KCG_EVENT_RIGHT_DRAGGED: u32 = 7;

pub const KCG_EVENT_KEY_DOWN: u32 = 10;

pub const KCG_EVENT_KEY_UP: u32 = 11;

pub const KCG_EVENT_FLAGS_CHANGED: u32 = 12;

pub const KCG_EVENT_SCROLL_WHEEL: u32 = 22;

pub const KCG_EVENT_OTHER_DOWN: u32 = 25;

pub const KCG_EVENT_OTHER_UP: u32 = 26;

pub const KCG_EVENT_OTHER_DRAGGED: u32 = 27;

/// The event types that the tap intercepts, one bit each.
pub const KCG_EVENT_MASK: u64 = 0x0e40_1cfe;

/// Caps lock is on.
pub const FLAG_ALPHA_SHIFT: u64 = 0x1_0000;

/// A shift key is down.
pub const FLAG_SHIFT: u64 = 0x2_0000;

/// A control key is down.
pub const FLAG_CONTROL: u64 = 0x4_0000;

/// An option key is down.
pub const FLAG_ALTERNATE: u64 = 0x8_0000;

/// A command key is down.
pub const FLAG_COMMAND: u64 = 0x10_0000;

/// The event is not to be merged with others.
pub const FLAG_NON_COALESCED: u64 = 0x100;

/// The keycode of the left shift key.
pub const KEY_SHIFT: u16 = 56;

/// The keycode of the left control key.
pub const KEY_CONTROL: u16 = 59;

/// The keycode of the left option key.
pub const KEY_OPTION: u16 = 58;

/// The keycode of the left command key.
pub const KEY_COMMAND: u16 = 55;

/// Whether the mouse moves with an event of this type.
pub open spec fn is_motion(event_type: u32) -> bool {
    ||| event_type == KCG_EVENT_MOUSE_MOVED
    ||| event_type == KCG_EVENT_LEFT_DRAGGED
    ||| event_type == KCG_EVENT_RIGHT_DRAGGED
    ||| event_type == KCG_EVENT_OTHER_DRAGGED
}

/// Whether a mouse button goes down with an event of this type.
pub open spec fn is_press(event_type: u32) -> bool {
    ||| event_type == KCG_EVENT_LEFT_DOWN
    ||| event_type == KCG_EVENT_RIGHT_DOWN
    ||| event_type == KCG_EVENT_OTHER_DOWN
}

/// Whether a mouse button goes up with an event of this type.
pub open spec fn is_release(event_type: u32) -> bool {
    ||| event_type == KCG_EVENT_LEFT_UP
    ||| event_type == KCG_EVENT_RIGHT_UP
    ||| event_type == KCG_EVENT_OTHER_UP
}

/// Whether an event of this type tells where the cursor is.
pub fn is_pos_event(et: u32) -> (res: bool)
    ensures
        res == (is_motion(et) || is_press(et) || is_release(et)),
{
    et == KCG_EVENT_MOUSE_MOVED || et == KCG_EVENT_LEFT_DOWN || et == KCG_EVENT_LEFT_UP || et
        == KCG_EVENT_RIGHT_DOWN || et == KCG_EVENT_RIGHT_UP || et == KCG_EVENT_OTHER_DOWN || et
        == KCG_EVENT_OTHER_UP || et == KCG_EVENT_LEFT_DRAGGED || et == KCG_EVENT_RIGHT_DRAGGED
        || et == KCG_EVENT_OTHER_DRAGGED
}

/// The mouse button of an event; `number` is the button number that the event carries.
pub open spec fn button_for(event_type: u32, number: i64) -> MouseButton {
    if event_type == KCG_EVENT_LEFT_DOWN || event_type == KCG_EVENT_LEFT_UP || event_type
        == KCG_EVENT_LEFT_DRAGGED {
        MouseButton::Left
    } else if event_type == KCG_EVENT_RIGHT_DOWN || event_type == KCG_EVENT_RIGHT_UP || event_type
        == KCG_EVENT_RIGHT_DRAGGED {
        MouseButton::Right
    } else {
        MouseButton::Other(low_byte(number as int))
    }
}

/// The mouse button of an event; `number` is the button number that the event carries.
pub fn btn_from_type(et: u32, number: i64) -> (res: MouseButton)
    ensures
        res == button_for(et, number),
{
    if et == KCG_EVENT_LEFT_DOWN || et == KCG_EVENT_LEFT_UP || et == KCG_EVENT_LEFT_DRAGGED {
        MouseButton::Left
    } else if et == KCG_EVENT_RIGHT_DOWN || et == KCG_EVENT_RIGHT_UP || et
        == KCG_EVENT_RIGHT_DRAGGED {
        MouseButton::Right
    } else {
        MouseButton::Other(to_low_byte(number))
    }
}

/// `flag` if it is set, zero otherwise.
pub open spec fn flag_if(set: bool, flag: int) -> int {
    if set {
        flag
    } else {
        0
    }
}

/// The modifiers that raw event flags stand for.
pub open spec fn modifiers_of(raw: u64) -> Modifiers {
    Modifiers {
        bits: (flag_if(raw & FLAG_SHIFT != 0, 0x01) + flag_if(raw & FLAG_CONTROL != 0, 0x02)
            + flag_if(raw & FLAG_ALTERNATE != 0, 0x04) + flag_if(raw & FLAG_COMMAND != 0, 0x08)
            + flag_if(raw & FLAG_ALPHA_SHIFT != 0, 0x10)) as u8,
    }
}

/// Reads modifier flags from raw event flags.
pub fn raw_modifiers(raw: u64) -> (res: Modifiers)
    ensures
        res == modifiers_of(raw),
{
    let mut bits: u8 = Modifiers::NONE;
    if raw & FLAG_SHIFT != 0 {
        bits = bits + Modifiers::SHIFT;
    }
    if raw & FLAG_CONTROL != 0 {
        bits = bits + Modifiers::CTRL;
    }
    if raw & FLAG_ALTERNATE != 0 {
        bits = bits + Modifiers::ALT;
    }
    if raw & FLAG_COMMAND != 0 {
        bits = bits + Modifiers::META;
    }
    if raw & FLAG_ALPHA_SHIFT != 0 {
        bits = bits + Modifiers::CAPS;
    }
    Modifiers::from_bits_retain(bits)
}

/// Reads modifier flags from the flags of an event.
pub fn extract_modifiers(flags: u64) -> (res: Modifiers)
    ensures
        res == modifiers_of(flags),
{
    raw_modifiers(flags)
}

/// The event flags for a set of modifiers.
pub open spec fn flags_for(modifiers: Modifiers) -> u64 {
    (FLAG_NON_COALESCED + flag_if(modifiers.has(Modifiers::SHIFT), FLAG_SHIFT as int) + flag_if(
        modifiers.has(Modifiers::CTRL),
        FLAG_CONTROL as int,
    ) + flag_if(modifiers.has(Modifiers::ALT), FLAG_ALTERNATE as int) + flag_if(
        modifiers.has(Modifiers::META),
        FLAG_COMMAND as int,
    ) + flag_if(modifiers.has(Modifiers::CAPS), FLAG_ALPHA_SHIFT as int)) as u64
}

/// The event flags to apply for a set of modifiers.
pub fn apply_modifiers(modifiers: Modifiers) -> (flags: u64)
    ensures
        flags == flags_for(modifiers),
{
    let mut flags: u64 = FLAG_NON_COALESCED;
    if modifiers.contains(Modifiers::SHIFT) {
        flags = flags + FLAG_SHIFT;
    }
    if modifiers.contains(Modifiers::CTRL) {
        flags = flags + FLAG_CONTROL;
    }
    if modifiers.contains(Modifiers::ALT) {
        flags = flags + FLAG_ALTERNATE;
    }
    if modifiers.contains(Modifiers::META) {
        flags = flags + FLAG_COMMAND;
    }
    if modifiers.contains(Modifiers::CAPS) {
        flags = flags + FLAG_ALPHA_SHIFT;
    }
    flags
}

/// What the tap reads from an event.
#[derive(Debug, Clone, Copy, PartialEq, Eq, Structural)]
pub struct RawEvent {
    pub event_type: u32,
    pub delta_x: i64,
    pub delta_y: i64,
    pub button: i64,
    pub scroll_axis_1: i64,
    pub scroll_axis_2: i64,
    pub keycode: i64,
    pub flags: u64,
    /// Position of the cursor, as a normalized part of the screen (the bits of a 32-bit float).
    pub x: u32,
    pub y: u32,
}

/// What the tap remembers from one event to the next.
#[derive(Debug, Clone, Copy, PartialEq, Eq, Structural)]
pub struct TapState {
    /// The modifier flags so far, to tell which key a change of flags stands for.
    pub prev_modifiers: u64,
    /// How many events were dropped.
    pub drops: u64,
    /// Mouse movement that could not be sent yet.
    pub pending_dx: i32,
    pub pending_dy: i32,
    /// Whether `prev_modifiers` was set since the cursor went to a remote screen.
    pub modifiers_seeded: bool,
}

/// An event that the tap wants to send.
#[derive(Debug)]
pub struct TapSend {
    pub event: InputEvent,
    /// Whether the movement is kept for later if there is no room now.
    pub parkable: bool,
}

/// A send, with the text and bytes of its event as sequences.
pub struct SendModel {
    pub event: EventModel,
    pub parkable: bool,
}

impl View for TapSend {
    type V = SendModel;

    open spec fn view(&self) -> SendModel {
        SendModel { event: self.event@, parkable: self.parkable }
    }
}

/// Sends, with the text and bytes of their events as sequences.
pub open spec fn send_models(sends: Seq<TapSend>) -> Seq<SendModel> {
    Seq::new(sends.len(), |i: int| sends[i]@)
}

/// What the tap does with one event.
#[derive(Debug)]
pub struct TapStep {
    /// The events to send, in this order.
    pub sends: Vec<TapSend>,
    /// Whether to put the hidden cursor back into the middle of the screen, so
    /// that it never stops at an edge.
    pub recenter: bool,
    /// Whether this machine gets the event.
    pub pass_through: bool,
}

/// A movement that fits the protocol.
pub open spec fn clamp16(value: int) -> i16 {
    if value < i16::MIN {
        i16::MIN
    } else if value > i16::MAX {
        i16::MAX
    } else {
        value as i16
    }
}

/// A send that is not kept if there is no room.
pub open spec fn once(event: EventModel) -> SendModel {
    SendModel { event, parkable: false }
}

/// The movement that waits, if there is any.
pub open spec fn flushed(state: TapState) -> Seq<SendModel> {
    let dx = low_signed16(state.pending_dx as int);
    let dy = low_signed16(state.pending_dy as int);
    if dx != 0 || dy != 0 {
        seq![once(EventModel::MouseMove { dx, dy })]
    } else {
        Seq::empty()
    }
}

/// The key event for one modifier, if its flag changed.
pub open spec fn modifier_change(prev: u64, new: u64, mask: u64, keycode: u16) -> Seq<SendModel> {
    if (new ^ prev) & mask == 0 {
        Seq::empty()
    } else if new & mask != 0 {
        seq![once(EventModel::KeyDown { keycode, modifiers: modifiers_of(new) })]
    } else {
        seq![once(EventModel::KeyUp { keycode, modifiers: modifiers_of(new) })]
    }
}

/// The key events for a change of modifier flags.
pub open spec fn modifier_changes(prev: u64, new: u64) -> Seq<SendModel> {
    modifier_change(prev, new, FLAG_SHIFT, KEY_SHIFT) + modifier_change(
        prev,
        new,
        FLAG_CONTROL,
        KEY_CONTROL,
    ) + modifier_change(prev, new, FLAG_ALTERNATE, KEY_OPTION) + modifier_change(
        prev,
        new,
        FLAG_COMMAND,
        KEY_COMMAND,
    )
}

/// The flags that a remote event is compared with: its own, for the first one.
pub open spec fn known_modifiers(state: TapState, raw: RawEvent) -> u64 {
    if state.modifiers_seeded {
        state.prev_modifiers
    } else {
        raw.flags
    }
}

/// The deltas of a motion event.
pub open spec fn motion(raw: RawEvent) -> (i16, i16) {
    (low_signed16(raw.delta_x as int), low_signed16(raw.delta_y as int))
}

/// Whether an event of this type is sent behind the movement that waits.
pub open spec fn is_flushing(event_type: u32) -> bool {
    ||| is_press(event_type)
    ||| is_release(event_type)
    ||| event_type == KCG_EVENT_SCROLL_WHEEL
    ||| event_type == KCG_EVENT_KEY_DOWN
    ||| event_type == KCG_EVENT_KEY_UP
    ||| event_type == KCG_EVENT_FLAGS_CHANGED
}

/// What a remote event that is no motion sends, without the movement that waits.
pub open spec fn own_sends(state: TapState, raw: RawEvent) -> Seq<SendModel> {
    let et = raw.event_type;
    if is_press(et) {
        seq![once(EventModel::MouseDown { button: button_for(et, raw.button) })]
    } else if is_release(et) {
        seq![once(EventModel::MouseUp { button: button_for(et, raw.button) })]
    } else if et == KCG_EVENT_SCROLL_WHEEL {
        seq![
            once(
                EventModel::Scroll {
                    dx: low_signed16(raw.scroll_axis_2 as int),
                    dy: low_signed16(raw.scroll_axis_1 as int),
                },
            ),
        ]
    } else if et == KCG_EVENT_KEY_DOWN {
        seq![
            once(
                EventModel::KeyDown {
                    keycode: low_unsigned16(raw.keycode as int),
                    modifiers: modifiers_of(raw.flags),
                },
            ),
        ]
    } else if et == KCG_EVENT_KEY_UP {
        seq![
            once(
                EventModel::KeyUp {
                    keycode: low_unsigned16(raw.keycode as int),
                    modifiers: modifiers_of(raw.flags),
                },
            ),
        ]
    } else if et == KCG_EVENT_FLAGS_CHANGED {
        modifier_changes(known_modifiers(state, raw), raw.flags)
    } else {
        Seq::empty()
    }
}

/// The events that the tap sends for one event.
pub open spec fn tap_sends(state: TapState, raw: RawEvent, remote: bool) -> Seq<SendModel> {
    let et = raw.event_type;
    if !remote {
        if is_motion(et) || is_press(et) || is_release(et) {
            seq![once(EventModel::MouseMoveAbsolute { x: raw.x, y: raw.y })]
        } else {
            Seq::empty()
        }
    } else if is_motion(et) {
        if motion(raw) == (0i16, 0i16) {
            Seq::empty()
        } else {
            seq![
                SendModel {
                    event: EventModel::MouseMove {
                        dx: clamp16(motion(raw).0 + state.pending_dx),
                        dy: clamp16(motion(raw).1 + state.pending_dy),
                    },
                    parkable: true,
                },
            ]
        }
    } else if is_flushing(et) {
        flushed(state) + own_sends(state, raw)
    } else {
        Seq::empty()
    }
}

/// What the tap remembers after one event.
pub open spec fn tap_after(state: TapState, raw: RawEvent, remote: bool) -> TapState {
    let et = raw.event_type;
    let moved = is_motion(et) && motion(raw) != (0i16, 0i16);
    if !remote {
        TapState { modifiers_seeded: false, ..state }
    } else {
        TapState {
            prev_modifiers: if et == KCG_EVENT_FLAGS_CHANGED {
                raw.flags
            } else {
                known_modifiers(state, raw)
            },
            drops: state.drops,
            pending_dx: if moved || is_flushing(et) {
                0
            } else {
                state.pending_dx
            },
            pending_dy: if moved || is_flushing(et) {
                0
            } else {
                state.pending_dy
            },
            modifiers_seeded: true,
        }
    }
}

/// What the tap remembers after there was no room for a send.
pub open spec fn tap_after_failure(state: TapState, send: SendModel) -> TapState {
    match send.event {
        EventModel::MouseMove { dx, dy } if send.parkable => TapState {
            drops: state.drops.wrapping_add(1),
            pending_dx: state.pending_dx.wrapping_add(dx as i32),
            pending_dy: state.pending_dy.wrapping_add(dy as i32),
            ..state
        },
        _ => TapState { drops: state.drops.wrapping_add(1), ..state },
    }
}

/// A movement that fits the protocol.
fn to_clamp16(value: i64) -> (res: i16)
    ensures
        res == clamp16(value as int),
{
    if value < -0x8000 {
        -0x8000
    } else if value > 0x7fff {
        0x7fff
    } else {
        value as i16
    }
}

impl TapState {
    /// The state of a fresh tap.
    pub fn new() -> (state: TapState)
        ensures
            state == (TapState {
                prev_modifiers: 0,
                drops: 0,
                pending_dx: 0,
                pending_dy: 0,
                modifiers_seeded: false,
            }),
    {
        TapState {
            prev_modifiers: 0,
            drops: 0,
            pending_dx: 0,
            pending_dy: 0,
            modifiers_seeded: false,
        }
    }

    /// Takes the movement that waits, so that it goes out in front of an event
    /// that is no motion.
    fn flush_pending(&mut self, sends: &mut Vec<TapSend>)
        ensures
            *final(self) == (TapState { pending_dx: 0, pending_dy: 0, ..*old(self) }),
            send_models(final(sends)@) == send_models(old(sends)@) + flushed(*old(self)),
    {
        let dx: i16 = to_low_signed16(self.pending_dx as i64);
        let dy: i16 = to_low_signed16(self.pending_dy as i64);
        self.pending_dx = 0;
        self.pending_dy = 0;
        if dx != 0 || dy != 0 {
            push_once(sends, InputEvent::MouseMove { dx, dy });
        }
        assert(send_models(sends@) =~= send_models(old(sends)@) + flushed(*old(self)));
    }

    /// Decides what happens to one event. `remote` tells whether the cursor is
    /// on a remote screen.
    ///
    /// Every send for which there is no room is to be reported to `send_failed`.
    pub fn tap_callback_impl(&mut self, raw: &RawEvent, remote: bool) -> (step: TapStep)
        ensures
            send_models(step.sends@) == tap_sends(*old(self), *raw, remote),
            *final(self) == tap_after(*old(self), *raw, remote),
            step.recenter == (remote && is_motion(raw.event_type)),
            step.pass_through == !remote,
    {
        let mut sends: Vec<TapSend> = Vec::new();
        let ghost start = *self;
        let ghost expected = tap_sends(start, *raw, remote);
        let et: u32 = raw.event_type;
        assert(send_models(sends@) =~= Seq::<SendModel>::empty());
        if !remote {
            self.modifiers_seeded = false;
            if is_pos_event(et) {
                push_once(&mut sends, InputEvent::MouseMoveAbsolute { x: raw.x, y: raw.y });
            }
            assert(send_models(sends@) =~= expected);
            return TapStep { sends, recenter: false, pass_through: true };
        }
        if !self.modifiers_seeded {
            self.modifiers_seeded = true;
            self.prev_modifiers = raw.flags;
        }
        let mut recenter: bool = false;
        if et == KCG_EVENT_MOUSE_MOVED || et == KCG_EVENT_LEFT_DRAGGED || et
            == KCG_EVENT_RIGHT_DRAGGED || et == KCG_EVENT_OTHER_DRAGGED {
            let dx: i16 = to_low_signed16(raw.delta_x);
            let dy: i16 = to_low_signed16(raw.delta_y);
            if dx != 0 || dy != 0 {
                let x: i16 = to_clamp16(dx as i64 + self.pending_dx as i64);
                let y: i16 = to_clamp16(dy as i64 + self.pending_dy as i64);
                self.pending_dx = 0;
                self.pending_dy = 0;
                sends.push(
                    TapSend { event: InputEvent::MouseMove { dx: x, dy: y }, parkable: true },
                );
            }
            recenter = true;
        } else if et == KCG_EVENT_LEFT_DOWN || et == KCG_EVENT_RIGHT_DOWN || et
            == KCG_EVENT_OTHER_DOWN {
            self.flush_pending(&mut sends);
            push_once(&mut sends, InputEvent::MouseDown { button: btn_from_type(et, raw.button) });
        } else if et == KCG_EVENT_LEFT_UP || et == KCG_EVENT_RIGHT_UP || et == KCG_EVENT_OTHER_UP {
            self.flush_pending(&mut sends);
            push_once(&mut sends, InputEvent::MouseUp { button: btn_from_type(et, raw.button) });
        } else if et == KCG_EVENT_SCROLL_WHEEL {
            self.flush_pending(&mut sends);
            let dy: i16 = to_low_signed16(raw.scroll_axis_1);
            let dx: i16 = to_low_signed16(raw.scroll_axis_2);
            push_once(&mut sends, InputEvent::Scroll { dx, dy });
        } else if et == KCG_EVENT_KEY_DOWN {
            self.flush_pending(&mut sends);
            let keycode: u16 = to_low_unsigned16(raw.keycode);
            let modifiers: Modifiers = raw_modifiers(raw.flags);
            push_once(&mut sends, InputEvent::KeyDown { keycode, modifiers });
        } else if et == KCG_EVENT_KEY_UP {
            self.flush_pending(&mut sends);
            let keycode: u16 = to_low_unsigned16(raw.keycode);
            let modifiers: Modifiers = raw_modifiers(raw.flags);
            push_once(&mut sends, InputEvent::KeyUp { keycode, modifiers });
        } else if et == KCG_EVENT_FLAGS_CHANGED {
            self.flush_pending(&mut sends);
            let prev: u64 = self.prev_modifiers;
            self.prev_modifiers = raw.flags;
            push_change(&mut sends, prev, raw.flags, FLAG_SHIFT, KEY_SHIFT);
            push_change(&mut sends, prev, raw.flags, FLAG_CONTROL, KEY_CONTROL);
            push_change(&mut sends, prev, raw.flags, FLAG_ALTERNATE, KEY_OPTION);
            push_change(&mut sends, prev, raw.flags, FLAG_COMMAND, KEY_COMMAND);
        }
        assert(send_models(sends@) =~= expected);
        TapStep { sends, recenter, pass_through: false }
    }

    /// Records that there was no room for a send. Returns the number of dropped
    /// events when it is time to log it: for movements, once in a thousand drops.
    pub fn send_failed(&mut self, send: &TapSend) -> (report: Option<u64>)
        ensures
            *final(self) == tap_after_failure(*old(self), send@),
            report == if send.parkable && send.event is MouseMove && old(self).drops % 1000 == 999 {
                Some((old(self).drops + 1) as u64)
            } else {
                None
            },
    {
        let before: u64 = self.drops;
        self.drops = before.wrapping_add(1);
        if send.parkable {
            if let InputEvent::MouseMove { dx, dy } = &send.event {
                self.pending_dx = self.pending_dx.wrapping_add(*dx as i32);
                self.pending_dy = self.pending_dy.wrapping_add(*dy as i32);
                if before % 1000 == 999 {
                    return Some(before + 1);
                }
            }
        }
        None
    }
}

/// Adds a send that is not kept if there is no room.
fn push_once(sends: &mut Vec<TapSend>, event: InputEvent)
    ensures
        send_models(final(sends)@) == send_models(old(sends)@) + seq![once(event@)],
{
    let ghost model = event@;
    sends.push(TapSend { event, parkable: false });
    assert(send_models(sends@) =~= send_models(old(sends)@) + seq![once(model)]);
}

/// Adds the key event for one modifier, if its flag changed.
fn push_change(sends: &mut Vec<TapSend>, prev: u64, new: u64, mask: u64, keycode: u16)
    ensures
        send_models(final(sends)@) == send_models(old(sends)@) + modifier_change(
            prev,
            new,
            mask,
            keycode,
        ),
{
    if (new ^ prev) & mask != 0 {
        let modifiers: Modifiers = raw_modifiers(new);
        if new & mask != 0 {
            push_once(sends, InputEvent::KeyDown { keycode, modifiers });
        } else {
            push_once(sends, InputEvent::KeyUp { keycode, modifiers });
        }
    }
    assert(send_models(sends@) =~= send_models(old(sends)@) + modifier_change(
        prev,
        new,
        mask,
        keycode,
    ));
}

/// What becomes of an event that the tap was called with.
#[derive(Debug, Clone, Copy, PartialEq, Eq, Structural)]
pub enum TapVerdict {
    /// This machine gets the event, and nothing else happens.
    PassThrough,
    /// `TapState::tap_callback_impl` decides.
    Handle,
    /// Nobody gets the event.
    Drop,
}

/// Decides whether the tap looks at an event. `has_state` and `has_event` tell
/// whether the callback was given a state and an event, `running` whether the
/// tap was not stopped.
pub fn raw_tap_callback(has_state: bool, has_event: bool, running: bool) -> (verdict: TapVerdict)
    ensures
        verdict is PassThrough <==> !has_state || !has_event,
        verdict is Handle <==> has_state && has_event && running,
        verdict is Drop <==> has_state && has_event && !running,
{
    if !has_state || !has_event {
        TapVerdict::PassThrough
    } else if running {
        TapVerdict::Handle
    } else {
        TapVerdict::Drop
    }
}

/// Why capturing could not start.
#[derive(Debug, Clone, Copy, PartialEq, Eq, Structural)]
pub enum CaptureError {
    /// A tap is running already.
    AlreadyRunning,
    /// The operating system refused to create a tap.
    TapRefused,
}

impl CaptureError {
    /// What to tell the user.
    pub open spec fn text(self) -> Seq<char> {
        match self {
            CaptureError::AlreadyRunning => {
                "CGEventTap is already running — stop the engine first"@
            },
            CaptureError::TapRefused => {
                "CGEventTap failed — grant Accessibility + Input Monitoring in System Settings"@
            },
        }
    }

    /// What to tell the user.
    pub fn message(&self) -> (res: String)
        ensures
            res@ == self.text(),
    {
        match self {
            CaptureError::AlreadyRunning => {
                "CGEventTap is already running — stop the engine first".to_owned()
            },
            CaptureError::TapRefused => {
                "CGEventTap failed — grant Accessibility + Input Monitoring in System Settings".to_owned()
            },
        }
    }
}

/// What is to be done to stop a tap.
#[derive(Debug, Clone, Copy, PartialEq, Eq, Structural)]
pub struct TapTeardown {
    /// The tap to disable, so that it fires no more callbacks.
    pub disable_tap: Option<usize>,
    /// The run loop to wake, so that its thread ends.
    pub stop_runloop: Option<usize>,
}

/// A mouse button as macOS knows it.
#[derive(Debug, Clone, Copy, PartialEq, Eq, Structural)]
pub enum CgMouseButton {
    Left,
    Right,
    Center,
}

/// The macOS button for a mouse button.
pub open spec fn cg_button(button: MouseButton) -> CgMouseButton {
    match button {
        MouseButton::Left => CgMouseButton::Left,
        MouseButton::Right => CgMouseButton::Right,
        MouseButton::Middle => CgMouseButton::Center,
        MouseButton::Other(n) => if n == 1 {
            CgMouseButton::Right
        } else if n == 2 {
            CgMouseButton::Center
        } else {
            CgMouseButton::Left
        },
    }
}

/// The macOS button for a mouse button.
pub fn mouse_button_to_cg(button: MouseButton) -> (res: CgMouseButton)
    ensures
        res == cg_button(button),
{
    match button {
        MouseButton::Left => CgMouseButton::Left,
        MouseButton::Right => CgMouseButton::Right,
        MouseButton::Middle => CgMouseButton::Center,
        MouseButton::Other(n) => match n {
            0 => CgMouseButton::Left,
            1 => CgMouseButton::Right,
            2 => CgMouseButton::Center,
            _ => CgMouseButton::Left,
        },
    }
}

/// What is to be done to inject an event into macOS.
#[derive(Debug, Clone, Copy, PartialEq, Eq, Structural)]
pub enum MacInjection {
    /// Move the cursor from where it is.
    MoveBy { dx: i16, dy: i16 },
    /// Move the cursor to a normalized position (the bits of 32-bit floats).
    MoveTo { x: u32, y: u32 },
    /// Post a mouse event where the cursor is.
    Button { event_type: u32, button: CgMouseButton },
    /// Post a scroll event.
    Scroll { axis_1: i64, axis_2: i64 },
    /// Post a keyboard event.
    Key { keycode: u16, down: bool, flags: u64 },
    /// Do nothing.
    Nothing,
}

/// The event type of a mouse button that goes down or up.
pub open spec fn button_event_type(button: MouseButton, down: bool) -> u32 {
    match button {
        MouseButton::Left => if down {
            KCG_EVENT_LEFT_DOWN
        } else {
            KCG_EVENT_LEFT_UP
        },
        MouseButton::Right => if down {
            KCG_EVENT_RIGHT_DOWN
        } else {
            KCG_EVENT_RIGHT_UP
        },
        _ => if down {
            KCG_EVENT_OTHER_DOWN
        } else {
            KCG_EVENT_OTHER_UP
        },
    }
}

/// What is to be done to inject an event into macOS.
pub open spec fn injection(event: EventModel) -> MacInjection {
    match event {
        EventModel::MouseMove { dx, dy } => MacInjection::MoveBy { dx, dy },
        EventModel::MouseMoveAbsolute { x, y } => MacInjection::MoveTo { x, y },
        EventModel::CursorEnter { x, y } => MacInjection::MoveTo { x, y },
        EventModel::MouseDown { button } => MacInjection::Button {
            event_type: button_event_type(button, true),
            button: cg_button(button),
        },
        EventModel::MouseUp { button } => MacInjection::Button {
            event_type: button_event_type(button, false),
            button: cg_button(button),
        },
        EventModel::Scroll { dx, dy } => MacInjection::Scroll {
            axis_1: dy as i64,
            axis_2: dx as i64,
        },
        EventModel::KeyDown { keycode, modifiers } => MacInjection::Key {
            keycode,
            down: true,
            flags: flags_for(modifiers),
        },
        EventModel::KeyUp { keycode, modifiers } => MacInjection::Key {
            keycode,
            down: false,
            flags: flags_for(modifiers),
        },
        _ => MacInjection::Nothing,
    }
}

/// Where the cursor goes when it is moved from a position.
pub fn moved_position(cx: i32, cy: i32, dx: i16, dy: i16) -> (res: (i32, i32))
    requires
        i32::MIN <= cx + dx <= i32::MAX,
        i32::MIN <= cy + dy <= i32::MAX,
    ensures
        res.0 == cx + dx,
        res.1 == cy + dy,
{
    (cx + dx as i32, cy + dy as i32)
}

/// The capture state of a macOS machine.
#[derive(Debug, Clone, Copy, PartialEq, Eq, Structural)]
pub struct MacOSInput {
    /// Whether the cursor is on a remote screen.
    pub tap_is_remote: bool,
    /// Whether a tap is running.
    pub tap_running: bool,
    /// The tap, zero if there is none.
    pub tap_handle: usize,
    /// The run loop of the tap's thread, zero if there is none.
    pub runloop_handle: usize,
}

impl MacOSInput {
    /// The state in which nothing is captured.
    pub fn new() -> (input: MacOSInput)
        ensures
            input == (MacOSInput {
                tap_is_remote: false,
                tap_running: false,
                tap_handle: 0,
                runloop_handle: 0,
            }),
    {
        MacOSInput { tap_is_remote: false, tap_running: false, tap_handle: 0, runloop_handle: 0 }
    }

    /// Whether capturing can start.
    pub open spec fn start_result(self) -> Result<(), CaptureError> {
        if self.tap_running {
            Err(CaptureError::AlreadyRunning)
        } else {
            Ok(())
        }
    }

    /// The state after an attempt to start.
    pub open spec fn after_start(self) -> MacOSInput {
        MacOSInput { tap_running: true, ..self }
    }

    /// The state after a tap was created, or refused if `handle` is zero.
    pub open spec fn after_tap(self, handle: usize) -> MacOSInput {
        if handle == 0 {
            MacOSInput { tap_running: false, ..self }
        } else {
            MacOSInput { tap_handle: handle, ..self }
        }
    }

    /// The state after a stop.
    pub open spec fn after_stop(self) -> MacOSInput {
        MacOSInput { tap_running: false, tap_handle: 0, runloop_handle: 0, ..self }
    }

    /// Claims the tap: only one may run at a time.
    ///
    /// After success the caller creates the tap and reports to `tap_created`.
    pub fn start_capture(&mut self) -> (res: Result<(), CaptureError>)
        ensures
            res == old(self).start_result(),
            *final(self) == old(self).after_start(),
    {
        let running: bool = self.tap_running;
        self.tap_running = true;
        if running {
            return Err(CaptureError::AlreadyRunning);
        }
        Ok(())
    }

    /// Records the tap that was created, zero if it was refused.
    pub fn tap_created(&mut self, handle: usize) -> (res: Result<(), CaptureError>)
        ensures
            res == if handle == 0 {
                Err(CaptureError::TapRefused)
            } else {
                Ok(())
            },
            *final(self) == old(self).after_tap(handle),
    {
        if handle == 0 {
            self.tap_running = false;
            return Err(CaptureError::TapRefused);
        }
        self.tap_handle = handle;
        Ok(())
    }

    /// Records the run loop of the tap's thread.
    pub fn runloop_started(&mut self, handle: usize)
        ensures
            *final(self) == (MacOSInput { runloop_handle: handle, ..*old(self) }),
    {
        self.runloop_handle = handle;
    }

    /// Gives the tap up, and tells what is to be done to stop it.
    pub fn stop_capture(&mut self) -> (teardown: TapTeardown)
        ensures
            teardown.disable_tap == if old(self).tap_handle != 0 {
                Some(old(self).tap_handle)
            } else {
                None
            },
            teardown.stop_runloop == if old(self).runloop_handle != 0 {
                Some(old(self).runloop_handle)
            } else {
                None
            },
            *final(self) == old(self).after_stop(),
    {
        let disable_tap: Option<usize> = if self.tap_handle != 0 {
            Some(self.tap_handle)
        } else {
            None
        };
        let stop_runloop: Option<usize> = if self.runloop_handle != 0 {
            Some(self.runloop_handle)
        } else {
            None
        };
        self.tap_handle = 0;
        self.runloop_handle = 0;
        self.tap_running = false;
        TapTeardown { disable_tap, stop_runloop }
    }

    /// Records whether the cursor is on a remote screen. Returns whether macOS
    /// is to stop holding events back after the cursor was put somewhere.
    pub fn set_is_remote(&mut self, remote: bool) -> (no_suppression: bool)
        ensures
            *final(self) == (MacOSInput { tap_is_remote: remote, ..*old(self) }),
            no_suppression == remote,
    {
        self.tap_is_remote = remote;
        remote
    }

    /// Tells what is to be done to inject an event.
    pub fn inject_event(&self, event: &InputEvent) -> (res: MacInjection)
        ensures
            res == injection(event@),
    {
        match event {
            InputEvent::MouseMove { dx, dy } => MacInjection::MoveBy { dx: *dx, dy: *dy },
            InputEvent::MouseMoveAbsolute { x, y } => MacInjection::MoveTo { x: *x, y: *y },
            InputEvent::MouseDown { button } => {
                let event_type: u32 = match button {
                    MouseButton::Left => KCG_EVENT_LEFT_DOWN,
                    MouseButton::Right => KCG_EVENT_RIGHT_DOWN,
                    MouseButton::Middle | MouseButton::Other(_) => KCG_EVENT_OTHER_DOWN,
                };
                MacInjection::Button { event_type, button: mouse_button_to_cg(*button) }
            },
            InputEvent::MouseUp { button } => {
                let event_type: u32 = match button {
                    MouseButton::Left => KCG_EVENT_LEFT_UP,
                    MouseButton::Right => KCG_EVENT_RIGHT_UP,
                    MouseButton::Middle | MouseButton::Other(_) => KCG_EVENT_OTHER_UP,
                };
                MacInjection::Button { event_type, button: mouse_button_to_cg(*button) }
            },
            InputEvent::Scroll { dx, dy } => MacInjection::Scroll {
                axis_1: *dy as i64,
                axis_2: *dx as i64,
            },
            InputEvent::KeyDown { keycode, modifiers } => MacInjection::Key {
                keycode: *keycode,
                down: true,
                flags: apply_modifiers(*modifiers),
            },
            InputEvent::KeyUp { keycode, modifiers } => MacInjection::Key {
                keycode: *keycode,
                down: false,
                flags: apply_modifiers(*modifiers),
            },
            InputEvent::CursorEnter { x, y } => MacInjection::MoveTo { x: *x, y: *y },
            _ => MacInjection::Nothing,
        }
    }
}

/// The tap intercepts exactly the event types that the tap distinguishes.
pub proof fn law_mask_covers_handled_events(event_type: u32)
    requires
        event_type < 64,
    ensures
        (KCG_EVENT_MASK >> event_type) & 1 == 1 <==> is_motion(event_type) || is_flushing(
            event_type,
        ),
{
    assert((0x0e40_1cfeu64 >> event_type) & 1 == 1 <==> event_type == 1 || event_type == 2
        || event_type == 3 || event_type == 4 || event_type == 5 || event_type == 6 || event_type
        == 7 || event_type == 10 || event_type == 11 || event_type == 12 || event_type == 22
        || event_type == 25 || event_type == 26 || event_type == 27) by (bit_vector)
        requires
            event_type < 64,
    ;
}

/// There is at most one tap: while one runs a start is refused, and after a
/// stop or a refused tap a start is allowed. A stop finds the tap that runs.
pub proof fn law_one_tap_at_a_time(input: MacOSInput, handle: usize)
    requires
        handle != 0,
    ensures
        input.after_start().start_result() == Err::<(), _>(CaptureError::AlreadyRunning),
        input.after_start().after_tap(handle).start_result() == Err::<(), _>(
            CaptureError::AlreadyRunning,
        ),
        input.after_start().after_tap(0).start_result() is Ok,
        input.after_stop().start_result() is Ok,
        input.after_start().after_tap(handle).tap_handle == handle,
{
}

/// The modifiers come back from the flags that were made of them.
pub proof fn law_modifiers_survive_injection(modifiers: Modifiers)
    requires
        modifiers.bits < 0x20,
    ensures
        modifiers_of(flags_for(modifiers)) == modifiers,
{
    let bits = modifiers.bits;
    let flags = flags_for(modifiers);
    let shift = modifiers.has(Modifiers::SHIFT);
    let ctrl = modifiers.has(Modifiers::CTRL);
    let alt = modifiers.has(Modifiers::ALT);
    let meta = modifiers.has(Modifiers::META);
    let caps = modifiers.has(Modifiers::CAPS);
    assert(flags == 0x100 + (if shift { 0x2_0000int } else { 0 }) + (if ctrl { 0x4_0000int } else {
        0
    }) + (if alt { 0x8_0000int } else { 0 }) + (if meta { 0x10_0000int } else { 0 }) + (if caps {
        0x1_0000int
    } else { 0 }));
    assert({
        &&& (flags & 0x2_0000 != 0) == shift
        &&& (flags & 0x4_0000 != 0) == ctrl
        &&& (flags & 0x8_0000 != 0) == alt
        &&& (flags & 0x10_0000 != 0) == meta
        &&& (flags & 0x1_0000 != 0) == caps
    }) by (bit_vector)
        requires
            flags == 0x100 + (if shift { 0x2_0000int } else { 0 }) + (if ctrl { 0x4_0000int } else {
                0
            }) + (if alt { 0x8_0000int } else { 0 }) + (if meta { 0x10_0000int } else {
                0
            }) + (if caps { 0x1_0000int } else { 0 }),
    ;
    assert(bits == (if bits & 0x01 == 0x01 { 0x01int } else { 0 }) + (if bits & 0x02 == 0x02 {
        0x02int
    } else { 0 }) + (if bits & 0x04 == 0x04 { 0x04int } else { 0 }) + (if bits & 0x08 == 0x08 {
        0x08int
    } else { 0 }) + (if bits & 0x10 == 0x10 { 0x10int } else { 0 })) by (bit_vector)
        requires
            bits < 0x20,
    ;
}

/// A change of flags that changes none of the four modifiers sends no key
/// event. In particular the first remote event never does, because it is
/// compared with its own flags; nor does an event whose flags are known already.
pub proof fn law_no_spurious_modifier_keys(state: TapState, raw: RawEvent)
    requires
        raw.event_type == KCG_EVENT_FLAGS_CHANGED,
        !state.modifiers_seeded || state.prev_modifiers == raw.flags,
    ensures
        tap_sends(state, raw, true) == flushed(state),
{
    let flags = raw.flags;
    assert(flags ^ flags == 0) by (bit_vector);
    assert(0u64 & FLAG_SHIFT == 0) by (bit_vector);
    assert(0u64 & FLAG_CONTROL == 0) by (bit_vector);
    assert(0u64 & FLAG_ALTERNATE == 0) by (bit_vector);
    assert(0u64 & FLAG_COMMAND == 0) by (bit_vector);
    assert(modifier_changes(flags, flags) =~= Seq::<SendModel>::empty());
    assert(flushed(state) + Seq::<SendModel>::empty() =~= flushed(state));
}

/// A local event makes the tap forget the modifiers, so that the next remote
/// event is the first one again.
pub proof fn law_leaving_remote_forgets_modifiers(
    state: TapState,
    local: RawEvent,
    remote: RawEvent,
)
    ensures
        known_modifiers(tap_after(state, local, false), remote) == remote.flags,
{
}

/// Whether the movement that waits fits the protocol.
pub open spec fn pending_fits(state: TapState) -> bool {
    &&& i16::MIN <= state.pending_dx <= i16::MAX
    &&& i16::MIN <= state.pending_dy <= i16::MAX
}

/// The movement that waits always fits the protocol, whether or not there is
/// room for what the tap sends.
pub proof fn law_pending_movement_fits(state: TapState, raw: RawEvent, remote: bool)
    requires
        pending_fits(state),
    ensures
        pending_fits(tap_after(state, raw, remote)),
        forall|i: int|
            #![trigger tap_sends(state, raw, remote)[i]]
            0 <= i < tap_sends(state, raw, remote).len() ==> pending_fits(
                tap_after_failure(tap_after(state, raw, remote), tap_sends(state, raw, remote)[i]),
            ),
{
    let after = tap_after(state, raw, remote);
    let sends = tap_sends(state, raw, remote);
    assert forall|i: int|
        #![trigger tap_sends(state, raw, remote)[i]]
        0 <= i < tap_sends(state, raw, remote).len() implies pending_fits(
        tap_after_failure(after, tap_sends(state, raw, remote)[i]),
    ) by {
        if !(remote && is_motion(raw.event_type)) {
            lemma_only_motion_is_parkable(state, raw, remote, i);
        }
    }
}

/// Only the movement of a remote motion event is kept for later.
proof fn lemma_only_motion_is_parkable(state: TapState, raw: RawEvent, remote: bool, i: int)
    requires
        0 <= i < tap_sends(state, raw, remote).len(),
        !(remote && is_motion(raw.event_type)),
    ensures
        !tap_sends(state, raw, remote)[i].parkable,
{
}

/// An event that is no motion is sent behind all the movement that waits, and
/// behind nothing else.
pub proof fn law_movement_goes_first(state: TapState, raw: RawEvent)
    requires
        pending_fits(state),
        is_flushing(raw.event_type),
    ensures
        tap_sends(state, raw, true) == if state.pending_dx != 0 || state.pending_dy != 0 {
            seq![
                once(
                    EventModel::MouseMove {
                        dx: state.pending_dx as i16,
                        dy: state.pending_dy as i16,
                    },
                ),
            ] + own_sends(state, raw)
        } else {
            own_sends(state, raw)
        },
        tap_after(state, raw, true).pending_dx == 0,
        tap_after(state, raw, true).pending_dy == 0,
{
    assert(Seq::<SendModel>::empty() + own_sends(state, raw) =~= own_sends(state, raw));
}

/// What the tap remembers after remote motion events for none of which there was room.
pub open spec fn after_stalled(state: TapState, raws: Seq<RawEvent>) -> TapState
    decreases raws.len(),
{
    if raws.len() == 0 {
        state
    } else {
        let before = after_stalled(state, raws.drop_last());
        let sends = tap_sends(before, raws.last(), true);
        let after = tap_after(before, raws.last(), true);
        if sends.len() == 0 {
            after
        } else {
            tap_after_failure(after, sends[0])
        }
    }
}

/// The movement of motion events taken together.
pub open spec fn total_motion(raws: Seq<RawEvent>) -> (int, int)
    decreases raws.len(),
{
    if raws.len() == 0 {
        (0, 0)
    } else {
        let before = total_motion(raws.drop_last());
        (before.0 + motion(raws.last()).0, before.1 + motion(raws.last()).1)
    }
}

/// However many motion events in a row there was no room for, their movement is
/// kept, and goes out with the next motion event, as long as it fits the protocol.
pub proof fn law_stalled_movement_is_kept(state: TapState, raws: Seq<RawEvent>, next: RawEvent)
    requires
        forall|i: int| 0 <= i < raws.len() ==> is_motion(#[trigger] raws[i].event_type),
        forall|n: int|
            0 <= n <= raws.len() ==> {
                let total = #[trigger] total_motion(raws.take(n));
                &&& i16::MIN <= state.pending_dx + total.0 <= i16::MAX
                &&& i16::MIN <= state.pending_dy + total.1 <= i16::MAX
            },
        is_motion(next.event_type),
        motion(next) != (0i16, 0i16),
        i16::MIN <= state.pending_dx + total_motion(raws).0 + motion(next).0 <= i16::MAX,
        i16::MIN <= state.pending_dy + total_motion(raws).1 + motion(next).1 <= i16::MAX,
    ensures
        after_stalled(state, raws).pending_dx == state.pending_dx + total_motion(raws).0,
        after_stalled(state, raws).pending_dy == state.pending_dy + total_motion(raws).1,
        tap_sends(after_stalled(state, raws), next, true) == seq![
            SendModel {
                event: EventModel::MouseMove {
                    dx: (state.pending_dx + total_motion(raws).0 + motion(next).0) as i16,
                    dy: (state.pending_dy + total_motion(raws).1 + motion(next).1) as i16,
                },
                parkable: true,
            },
        ],
{
    lemma_stalled(state, raws);
}

/// The movement of motion events that were not sent adds up.
proof fn lemma_stalled(state: TapState, raws: Seq<RawEvent>)
    requires
        forall|i: int| 0 <= i < raws.len() ==> is_motion(#[trigger] raws[i].event_type),
        forall|n: int|
            0 <= n <= raws.len() ==> {
                let total = #[trigger] total_motion(raws.take(n));
                &&& i16::MIN <= state.pending_dx + total.0 <= i16::MAX
                &&& i16::MIN <= state.pending_dy + total.1 <= i16::MAX
            },
    ensures
        after_stalled(state, raws).pending_dx == state.pending_dx + total_motion(raws).0,
        after_stalled(state, raws).pending_dy == state.pending_dy + total_motion(raws).1,
    decreases raws.len(),
{
    if raws.len() > 0 {
        let init = raws.drop_last();
        assert forall|n: int| 0 <= n <= init.len() implies {
            let total = #[trigger] total_motion(init.take(n));
            &&& i16::MIN <= state.pending_dx + total.0 <= i16::MAX
            &&& i16::MIN <= state.pending_dy + total.1 <= i16::MAX
        } by {
            assert(init.take(n) =~= raws.take(n));
        }
        assert forall|i: int| 0 <= i < init.len() implies is_motion(
            #[trigger] init[i].event_type,
        ) by {
            assert(init[i] == raws[i]);
        }
        lemma_stalled(state, init);
        assert(raws.take(raws.len() as int) =~= raws);
        let last = raws.last();
        assert(is_motion(raws[raws.len() - 1].event_type));
    }
}

/// The event types by what they mean.
pub proof fn law_event_types(et: u32)
    ensures
        is_motion(et) <==> et == 5 || et == 6 || et == 7 || et == 27,
        is_press(et) <==> et == 1 || et == 3 || et == 25,
        is_release(et) <==> et == 2 || et == 4 || et == 26,
        is_flushing(et) <==> is_press(et) || is_release(et) || et == 10 || et == 11 || et == 12
            || et == 22,
        !(is_motion(et) && is_flushing(et)),
        !(is_press(et) && is_release(et)),
{
}

/// The button of an event: left and right by the type, any other by its number.
pub proof fn law_buttons_by_type(et: u32, number: i64)
    ensures
        button_for(et, number) == MouseButton::Left <==> et == 1 || et == 2 || et == 6,
        button_for(et, number) == MouseButton::Right <==> et == 3 || et == 4 || et == 7,
        button_for(et, number) != MouseButton::Middle,
        button_for(et, number) matches MouseButton::Other(n) ==> (n - number) % 0x100 == 0,
{
    law_narrowing_keeps_low_bits(number as int);
}

/// Each named modifier is on exactly when its flag is, and no other bit is set.
pub proof fn law_modifiers_by_flag(raw: u64)
    ensures
        ({
            let bits = modifiers_of(raw).bits;
            &&& bits < 0x20
            &&& bits & 0x01 != 0 <==> raw & 0x2_0000 != 0
            &&& bits & 0x02 != 0 <==> raw & 0x4_0000 != 0
            &&& bits & 0x04 != 0 <==> raw & 0x8_0000 != 0
            &&& bits & 0x08 != 0 <==> raw & 0x10_0000 != 0
            &&& bits & 0x10 != 0 <==> raw & 0x1_0000 != 0
        }),
{
    let bits = modifiers_of(raw).bits;
    let shift = raw & 0x2_0000 != 0;
    let ctrl = raw & 0x4_0000 != 0;
    let alt = raw & 0x8_0000 != 0;
    let meta = raw & 0x10_0000 != 0;
    let caps = raw & 0x1_0000 != 0;
    assert(bits == (if shift { 0x01int } else { 0 }) + (if ctrl { 0x02int } else { 0 }) + (if alt {
        0x04int
    } else { 0 }) + (if meta { 0x08int } else { 0 }) + (if caps { 0x10int } else { 0 }));
    assert({
        &&& (bits & 0x01 != 0) == shift
        &&& (bits & 0x02 != 0) == ctrl
        &&& (bits & 0x04 != 0) == alt
        &&& (bits & 0x08 != 0) == meta
        &&& (bits & 0x10 != 0) == caps
    }) by (bit_vector)
        requires
            bits == (if shift { 0x01int } else { 0 }) + (if ctrl { 0x02int } else { 0 }) + (if alt {
                0x04int
            } else { 0 }) + (if meta { 0x08int } else { 0 }) + (if caps { 0x10int } else { 0 }),
    ;
}

/// Each flag is on exactly when its modifier is; besides them only the flag
/// that keeps events apart is on, always.
pub proof fn law_flags_by_modifier(modifiers: Modifiers)
    ensures
        ({
            let flags = flags_for(modifiers);
            let bits = modifiers.bits;
            &&& flags & 0x2_0000 != 0 <==> bits & 0x01 != 0
            &&& flags & 0x4_0000 != 0 <==> bits & 0x02 != 0
            &&& flags & 0x8_0000 != 0 <==> bits & 0x04 != 0
            &&& flags & 0x10_0000 != 0 <==> bits & 0x08 != 0
            &&& flags & 0x1_0000 != 0 <==> bits & 0x10 != 0
            &&& flags & 0x100 != 0
            &&& flags | 0x1f_0100 == 0x1f_0100
        }),
{
    let bits = modifiers.bits;
    let flags = flags_for(modifiers);
    let shift = modifiers.has(Modifiers::SHIFT);
    let ctrl = modifiers.has(Modifiers::CTRL);
    let alt = modifiers.has(Modifiers::ALT);
    let meta = modifiers.has(Modifiers::META);
    let caps = modifiers.has(Modifiers::CAPS);
    assert({
        &&& (bits & 0x01 == 0x01) == (bits & 0x01 != 0)
        &&& (bits & 0x02 == 0x02) == (bits & 0x02 != 0)
        &&& (bits & 0x04 == 0x04) == (bits & 0x04 != 0)
        &&& (bits & 0x08 == 0x08) == (bits & 0x08 != 0)
        &&& (bits & 0x10 == 0x10) == (bits & 0x10 != 0)
    }) by (bit_vector);
    assert(flags == 0x100 + (if shift { 0x2_0000int } else { 0 }) + (if ctrl { 0x4_0000int } else {
        0
    }) + (if alt { 0x8_0000int } else { 0 }) + (if meta { 0x10_0000int } else { 0 }) + (if caps {
        0x1_0000int
    } else { 0 }));
    assert({
        &&& (flags & 0x2_0000 != 0) == shift
        &&& (flags & 0x4_0000 != 0) == ctrl
        &&& (flags & 0x8_0000 != 0) == alt
        &&& (flags & 0x10_0000 != 0) == meta
        &&& (flags & 0x1_0000 != 0) == caps
        &&& flags & 0x100 != 0
        &&& flags | 0x1f_0100 == 0x1f_0100
    }) by (bit_vector)
        requires
            flags == 0x100 + (if shift { 0x2_0000int } else { 0 }) + (if ctrl { 0x4_0000int } else {
                0
            }) + (if alt { 0x8_0000int } else { 0 }) + (if meta { 0x10_0000int } else {
                0
            }) + (if caps { 0x1_0000int } else { 0 }),
    ;
}

/// What a local event sends: with a mouse event the position, and with any
/// other event nothing. It changes nothing that the tap remembers but that the
/// modifiers are to be learned again.
pub proof fn law_local_events_tell_the_position(state: TapState, raw: RawEvent)
    ensures
        ({
            let sends = tap_sends(state, raw, false);
            let et = raw.event_type;
            if 1 <= et <= 7 || 25 <= et <= 27 {
                &&& sends.len() == 1
                &&& sends[0].event == (EventModel::MouseMoveAbsolute { x: raw.x, y: raw.y })
                &&& !sends[0].parkable
            } else {
                sends.len() == 0
            }
        }),
        ({
            let after = tap_after(state, raw, false);
            &&& !after.modifiers_seeded
            &&& after.prev_modifiers == state.prev_modifiers
            &&& after.drops == state.drops
            &&& after.pending_dx == state.pending_dx
            &&& after.pending_dy == state.pending_dy
        }),
{
}

/// What a remote motion sends: nothing if the mouse did not move, and otherwise
/// one movement, the sum of this one and of what waits, cut to what a movement
/// can hold. That sum waits no longer; a motion of nothing lets it wait on.
pub proof fn law_remote_motion_is_forwarded(state: TapState, raw: RawEvent)
    requires
        raw.event_type == 5 || raw.event_type == 6 || raw.event_type == 7 || raw.event_type == 27,
    ensures
        (motion(raw).0 - raw.delta_x) % 0x1_0000 == 0,
        (motion(raw).1 - raw.delta_y) % 0x1_0000 == 0,
        ({
            let sends = tap_sends(state, raw, true);
            let after = tap_after(state, raw, true);
            let x = motion(raw).0 + state.pending_dx;
            let y = motion(raw).1 + state.pending_dy;
            if motion(raw).0 == 0 && motion(raw).1 == 0 {
                &&& sends.len() == 0
                &&& after.pending_dx == state.pending_dx
                &&& after.pending_dy == state.pending_dy
            } else {
                &&& sends.len() == 1
                &&& sends[0].parkable
                &&& sends[0].event matches EventModel::MouseMove { dx, dy }
                &&& if x > 32767 { dx == 32767 } else if x < -32768 { dx == -32768 } else { dx == x }
                &&& if y > 32767 { dy == 32767 } else if y < -32768 { dy == -32768 } else { dy == y }
                &&& after.pending_dx == 0
                &&& after.pending_dy == 0
            }
        }),
{
    law_narrowing_keeps_low_bits(raw.delta_x as int);
    law_narrowing_keeps_low_bits(raw.delta_y as int);
}

/// What stands in front of the event that a remote click, key or wheel sends:
/// the movement that waits, by its low bits, or nothing if those are zero.
/// Nothing waits afterwards.
pub proof fn law_waiting_movement_is_flushed(state: TapState, raw: RawEvent)
    requires
        is_flushing(raw.event_type),
    ensures
        ({
            let sends = tap_sends(state, raw, true);
            let waits = state.pending_dx as int % 0x1_0000 != 0 || state.pending_dy as int
                % 0x1_0000 != 0;
            let first: int = if waits {
                1
            } else {
                0
            };
            &&& waits ==> sends.len() >= 1 && !sends[0].parkable && (sends[0].event matches
                EventModel::MouseMove { dx, dy } && (dx - state.pending_dx) % 0x1_0000 == 0 && (dy
                - state.pending_dy) % 0x1_0000 == 0)
            &&& raw.event_type != 12 ==> sends.len() == first + 1
            &&& sends.skip(first) == own_sends(state, raw)
        }),
        tap_after(state, raw, true).pending_dx == 0,
        tap_after(state, raw, true).pending_dy == 0,
{
    law_narrowing_keeps_low_bits(state.pending_dx as int);
    law_narrowing_keeps_low_bits(state.pending_dy as int);
    let first: int = if state.pending_dx as int % 0x1_0000 != 0 || state.pending_dy as int
        % 0x1_0000 != 0 {
        1
    } else {
        0
    };
    assert(flushed(state).len() == first);
    assert(tap_sends(state, raw, true).skip(first) =~= own_sends(state, raw));
}

/// What a remote click, key or wheel sends behind the movement that waits: a
/// press for each type that means a press, a release for each that means a
/// release, the key or the two axes of the wheel. It is never kept for later.
pub proof fn law_remote_clicks_keys_and_wheels_are_forwarded(state: TapState, raw: RawEvent)
    ensures
        ({
            let sends = tap_sends(state, raw, true);
            let et = raw.event_type;
            let sent = sends.last().event;
            &&& is_flushing(et) && et != 12 ==> sends.len() >= 1 && !sends.last().parkable
            &&& et == 1 ==> sent == (EventModel::MouseDown { button: MouseButton::Left })
            &&& et == 3 ==> sent == (EventModel::MouseDown { button: MouseButton::Right })
            &&& et == 2 ==> sent == (EventModel::MouseUp { button: MouseButton::Left })
            &&& et == 4 ==> sent == (EventModel::MouseUp { button: MouseButton::Right })
            &&& et == 25 ==> (sent matches EventModel::MouseDown { button: MouseButton::Other(n) }
                && (n - raw.button) % 0x100 == 0)
            &&& et == 26 ==> (sent matches EventModel::MouseUp { button: MouseButton::Other(n) }
                && (n - raw.button) % 0x100 == 0)
            &&& et == 10 ==> (sent matches EventModel::KeyDown { keycode, modifiers } && (keycode
                - raw.keycode) % 0x1_0000 == 0 && modifiers == modifiers_of(raw.flags))
            &&& et == 11 ==> (sent matches EventModel::KeyUp { keycode, modifiers } && (keycode
                - raw.keycode) % 0x1_0000 == 0 && modifiers == modifiers_of(raw.flags))
            &&& et == 22 ==> (sent matches EventModel::Scroll { dx, dy } && (dx
                - raw.scroll_axis_2) % 0x1_0000 == 0 && (dy - raw.scroll_axis_1) % 0x1_0000 == 0)
            &&& !is_motion(et) && !is_flushing(et) ==> sends.len() == 0
        }),
{
    law_narrowing_keeps_low_bits(raw.button as int);
    law_narrowing_keeps_low_bits(raw.keycode as int);
    law_narrowing_keeps_low_bits(raw.scroll_axis_1 as int);
    law_narrowing_keeps_low_bits(raw.scroll_axis_2 as int);
}

/// A button that goes up sends the release of what it sent when it went down,
/// and likewise a key.
pub proof fn law_release_ends_the_press(
    before: TapState,
    down: RawEvent,
    later: TapState,
    up: RawEvent,
)
    requires
        up.button == down.button,
        up.keycode == down.keycode,
        (down.event_type == 1 && up.event_type == 2) || (down.event_type == 3 && up.event_type == 4)
            || (down.event_type == 25 && up.event_type == 26) || (down.event_type == 10
            && up.event_type == 11),
    ensures
        match (
            tap_sends(before, down, true).last().event,
            tap_sends(later, up, true).last().event,
        ) {
            (
                EventModel::MouseDown { button: pressed },
                EventModel::MouseUp { button: released },
            ) => down.event_type != 10 && pressed == released,
            (
                EventModel::KeyDown { keycode: pressed, .. },
                EventModel::KeyUp { keycode: released, .. },
            ) => down.event_type == 10 && pressed == released,
            _ => false,
        },
{
}

/// The key events for one modifier key: down if it is held now and was not
/// before, up if it was and is no more, none if nothing changed.
pub open spec fn held_key(
    before: bool,
    now: bool,
    keycode: u16,
    modifiers: Modifiers,
) -> Seq<SendModel> {
    if !before && now {
        seq![SendModel { event: EventModel::KeyDown { keycode, modifiers }, parkable: false }]
    } else if before && !now {
        seq![SendModel { event: EventModel::KeyUp { keycode, modifiers }, parkable: false }]
    } else {
        Seq::empty()
    }
}

/// A change of the flags sends, behind the movement that waits, the keys that
/// went down or up: shift, control, option and command, in this order. What
/// was held before is what the last change told, or, for the first remote
/// event, what this one tells.
pub proof fn law_modifier_keys_are_forwarded(state: TapState, raw: RawEvent)
    requires
        raw.event_type == 12,
    ensures
        ({
            let prev = if state.modifiers_seeded {
                state.prev_modifiers
            } else {
                raw.flags
            };
            let now = raw.flags;
            let mods = modifiers_of(now);
            tap_sends(state, raw, true) == flushed(state) + (held_key(
                prev & 0x2_0000 != 0,
                now & 0x2_0000 != 0,
                56,
                mods,
            ) + held_key(prev & 0x4_0000 != 0, now & 0x4_0000 != 0, 59, mods) + held_key(
                prev & 0x8_0000 != 0,
                now & 0x8_0000 != 0,
                58,
                mods,
            ) + held_key(prev & 0x10_0000 != 0, now & 0x10_0000 != 0, 55, mods))
        }),
{
    let prev = known_modifiers(state, raw);
    let now = raw.flags;
    assert({
        &&& ((now ^ prev) & 0x2_0000 == 0) == ((now & 0x2_0000 != 0) == (prev & 0x2_0000 != 0))
        &&& ((now ^ prev) & 0x4_0000 == 0) == ((now & 0x4_0000 != 0) == (prev & 0x4_0000 != 0))
        &&& ((now ^ prev) & 0x8_0000 == 0) == ((now & 0x8_0000 != 0) == (prev & 0x8_0000 != 0))
        &&& ((now ^ prev) & 0x10_0000 == 0) == ((now & 0x10_0000 != 0) == (prev & 0x10_0000 != 0))
    }) by (bit_vector);
}

/// What a remote event leaves behind: the flags of a change, or of the first
/// event, are remembered, others are not; the count of drops stays.
pub proof fn law_remote_events_learn_modifiers(state: TapState, raw: RawEvent)
    ensures
        ({
            let after = tap_after(state, raw, true);
            &&& after.modifiers_seeded
            &&& raw.event_type == 12 || !state.modifiers_seeded ==> after.prev_modifiers
                == raw.flags
            &&& raw.event_type != 12 && state.modifiers_seeded ==> after.prev_modifiers
                == state.prev_modifiers
            &&& after.drops == state.drops
            &&& !is_motion(raw.event_type) && !is_flushing(raw.event_type) ==> after.pending_dx
                == state.pending_dx && after.pending_dy == state.pending_dy
        }),
{
}

/// A send without room counts as one drop. A movement that may wait is added to
/// what waits; anything else is lost.
pub proof fn law_failed_send_is_counted(state: TapState, send: SendModel)
    ensures
        ({
            let after = tap_after_failure(state, send);
            &&& state.drops < u64::MAX ==> after.drops == state.drops + 1
            &&& state.drops == u64::MAX ==> after.drops == 0
            &&& after.prev_modifiers == state.prev_modifiers
            &&& after.modifiers_seeded == state.modifiers_seeded
            &&& match send.event {
                EventModel::MouseMove { dx, dy } => {
                    if send.parkable {
                        &&& (after.pending_dx - state.pending_dx - dx) % 0x1_0000_0000 == 0
                        &&& (after.pending_dy - state.pending_dy - dy) % 0x1_0000_0000 == 0
                    } else {
                        &&& after.pending_dx == state.pending_dx
                        &&& after.pending_dy == state.pending_dy
                    }
                },
                _ => after.pending_dx == state.pending_dx && after.pending_dy == state.pending_dy,
            }
        }),
{
}

/// The model of a list of sends holds every send in its place, with all it says.
pub proof fn law_sends_are_seen_whole(sends: Seq<TapSend>, i: int)
    requires
        0 <= i < sends.len(),
    ensures
        send_models(sends).len() == sends.len(),
        send_models(sends)[i].event == sends[i].event@,
        send_models(sends)[i].parkable == sends[i].parkable,
{
}

/// A start, a created tap and a stop change what they are about and nothing else.
pub proof fn law_capture_steps(input: MacOSInput, handle: usize)
    ensures
        input.start_result() is Ok <==> !input.tap_running,
        input.after_start() == (MacOSInput { tap_running: true, ..input }),
        handle != 0 ==> input.after_tap(handle) == (MacOSInput { tap_handle: handle, ..input }),
        input.after_tap(0) == (MacOSInput { tap_running: false, ..input }),
        input.after_stop().tap_is_remote == input.tap_is_remote,
        !input.after_stop().tap_running,
        input.after_stop().tap_handle == 0,
        input.after_stop().runloop_handle == 0,
{
}

/// What is injected for each event: movement by the same distance, positions
/// unchanged, a press as a press and a release as a release of the same kind
/// of button, the wheel with its vertical axis first, and keys with their
/// number. Nothing is injected for other events.
pub proof fn law_injection_by_event(event: EventModel)
    ensures
        match event {
            EventModel::MouseMove { dx, dy } => injection(event) == (MacInjection::MoveBy {
                dx,
                dy,
            }),
            EventModel::MouseMoveAbsolute { x, y } | EventModel::CursorEnter { x, y } => injection(
                event,
            ) == (MacInjection::MoveTo { x, y }),
            EventModel::MouseDown { button } => injection(event) matches MacInjection::Button {
                event_type,
                button: posted,
            } && {
                &&& event_type == match button {
                    MouseButton::Left => 1u32,
                    MouseButton::Right => 3,
                    MouseButton::Middle => 25,
                    MouseButton::Other(_) => 25,
                }
                &&& posted == cg_button(button)
            },
            EventModel::MouseUp { button } => injection(event) matches MacInjection::Button {
                event_type,
                button: posted,
            } && {
                &&& event_type == match button {
                    MouseButton::Left => 2u32,
                    MouseButton::Right => 4,
                    MouseButton::Middle => 26,
                    MouseButton::Other(_) => 26,
                }
                &&& posted == cg_button(button)
            },
            EventModel::Scroll { dx, dy } => injection(event) matches MacInjection::Scroll {
                axis_1,
                axis_2,
            } && axis_1 == dy && axis_2 == dx,
            EventModel::KeyDown { keycode, modifiers } => injection(event) == (MacInjection::Key {
                keycode,
                down: true,
                flags: flags_for(modifiers),
            }),
            EventModel::KeyUp { keycode, modifiers } => injection(event) == (MacInjection::Key {
                keycode,
                down: false,
                flags: flags_for(modifiers),
            }),
            _ => injection(event) is Nothing,
        },
{
}

/// The three buttons of macOS: number one is right, number two is in the
/// center, and every other number is left.
pub proof fn law_mac_buttons(button: MouseButton)
    ensures
        cg_button(button) is Right <==> button == MouseButton::Right || button
            == MouseButton::Other(1),
        cg_button(button) is Center <==> button == MouseButton::Middle || button
            == MouseButton::Other(2),
{
}

/// An event that was captured on a Mac is injected on a Mac as the same type of
/// event: clicks and keys come out as they went in.
pub proof fn law_clicks_go_from_mac_to_mac(state: TapState, raw: RawEvent)
    requires
        is_press(raw.event_type) || is_release(raw.event_type),
    ensures
        injection(tap_sends(state, raw, true).last().event) matches MacInjection::Button {
            event_type,
            button,
        } && event_type == raw.event_type,
{
}

} // verus!
