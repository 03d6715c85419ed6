//! Mouse-message handling for the in-game overlay and for satellite windows:
//! which pointer events reach the engine, with which phase and button mask,
//! and how the "pointer added" bookkeeping evolves.
use vstd::prelude::*;
use crate::winmsg::{
    high_word, low_word, lparam_x, lparam_y, signed16, wparam_wheel_delta, MK_LBUTTON, MK_MBUTTON,
    MK_RBUTTON, WM_LBUTTONDOWN, WM_LBUTTONUP, WM_MBUTTONDOWN, WM_MBUTTONUP, WM_MOUSELEAVE,
    WM_MOUSEMOVE, WM_MOUSEWHEEL, WM_NCLBUTTONDOWN, WM_NCMOUSELEAVE, WM_RBUTTONDOWN, WM_RBUTTONUP,
};

verus! {

/// Phase of a pointer event as the engine understands it.
#[derive(PartialEq, Eq, Structural, Clone, Copy, Debug)]
pub enum PointerPhase {
    Cancel,
    Up,
    Down,
    Move,
    Add,
    Remove,
    Hover,
}

#[derive(PartialEq, Eq, Structural, Clone, Copy, Debug)]
pub enum MouseButton {
    Left,
    Right,
    Middle,
}

/// One pointer event to forward to the engine. Coordinates are window pixels;
/// `wheel_delta` is the raw wheel step (a multiple of 120 per notch, 0 when the
/// event carries no scroll).
#[derive(PartialEq, Eq, Structural, Clone, Copy, Debug)]
pub struct PointerSample {
    pub phase: PointerPhase,
    pub x: i32,
    pub y: i32,
    pub wheel_delta: i32,
    pub buttons: i64,
}

impl PointerSample {
    /// True when the engine must treat the event as a scroll signal.
    pub fn is_scroll(&self) -> (b: bool)
        ensures
            b == (self.wheel_delta != 0),
    {
        self.wheel_delta != 0
    }
}

/// A decoded mouse message. `mk` is the `MK_*` key-state mask from `WPARAM`.
#[derive(PartialEq, Eq, Structural, Clone, Copy, Debug)]
pub enum MouseMessage {
    Move { x: i32, y: i32, mk: u32 },
    ButtonDown { button: MouseButton, x: i32, y: i32, mk: u32 },
    ButtonUp { button: MouseButton, x: i32, y: i32, mk: u32 },
    Wheel { delta: i32, x: i32, y: i32 },
    NcMouseLeave,
    MouseLeave { x: i32, y: i32 },
    NcLButtonDown,
    Other,
}

pub open spec fn spec_decode_mouse_message(msg: u32, wparam: usize, lparam: isize) -> MouseMessage {
    let x = signed16(low_word(lparam as int));
    let y = signed16(high_word(lparam as int));
    let mk = (wparam as int) % 0x1_0000_0000;
    if msg == WM_MOUSEMOVE {
        MouseMessage::Move { x: x as i32, y: y as i32, mk: mk as u32 }
    } else if msg == WM_LBUTTONDOWN {
        MouseMessage::ButtonDown { button: MouseButton::Left, x: x as i32, y: y as i32, mk: mk as u32 }
    } else if msg == WM_RBUTTONDOWN {
        MouseMessage::ButtonDown { button: MouseButton::Right, x: x as i32, y: y as i32, mk: mk as u32 }
    } else if msg == WM_MBUTTONDOWN {
        MouseMessage::ButtonDown { button: MouseButton::Middle, x: x as i32, y: y as i32, mk: mk as u32 }
    } else if msg == WM_LBUTTONUP {
        MouseMessage::ButtonUp { button: MouseButton::Left, x: x as i32, y: y as i32, mk: mk as u32 }
    } else if msg == WM_RBUTTONUP {
        MouseMessage::ButtonUp { button: MouseButton::Right, x: x as i32, y: y as i32, mk: mk as u32 }
    } else if msg == WM_MBUTTONUP {
        MouseMessage::ButtonUp { button: MouseButton::Middle, x: x as i32, y: y as i32, mk: mk as u32 }
    } else if msg == WM_MOUSEWHEEL {
        MouseMessage::Wheel { delta: signed16(high_word(wparam as int)) as i32, x: x as i32, y: y as i32 }
    } else if msg == WM_NCMOUSELEAVE {
        MouseMessage::NcMouseLeave
    } else if msg == WM_MOUSELEAVE {
        MouseMessage::MouseLeave { x: x as i32, y: y as i32 }
    } else if msg == WM_NCLBUTTONDOWN {
        MouseMessage::NcLButtonDown
    } else {
        MouseMessage::Other
    }
}

/// Decodes a raw window message into a [`MouseMessage`].
pub fn decode_mouse_message(msg: u32, wparam: usize, lparam: isize) -> (m: MouseMessage)
    ensures
        m == spec_decode_mouse_message(msg, wparam, lparam),
{
    let x: i32 = lparam_x(lparam) as i32;
    let y: i32 = lparam_y(lparam) as i32;
    let mk: u32 = (wparam & 0xFFFF_FFFF) as u32;
    assert(mk as int == (wparam as int) % 0x1_0000_0000) by (bit_vector)
        requires
            mk == (wparam & 0xFFFF_FFFF) as u32,
    ;
    if msg == WM_MOUSEMOVE {
        MouseMessage::Move { x, y, mk }
    } else if msg == WM_LBUTTONDOWN {
        MouseMessage::ButtonDown { button: MouseButton::Left, x, y, mk }
    } else if msg == WM_RBUTTONDOWN {
        MouseMessage::ButtonDown { button: MouseButton::Right, x, y, mk }
    } else if msg == WM_MBUTTONDOWN {
        MouseMessage::ButtonDown { button: MouseButton::Middle, x, y, mk }
    } else if msg == WM_LBUTTONUP {
        MouseMessage::ButtonUp { button: MouseButton::Left, x, y, mk }
    } else if msg == WM_RBUTTONUP {
        MouseMessage::ButtonUp { button: MouseButton::Right, x, y, mk }
    } else if msg == WM_MBUTTONUP {
        MouseMessage::ButtonUp { button: MouseButton::Middle, x, y, mk }
    } else if msg == WM_MOUSEWHEEL {
        MouseMessage::Wheel { delta: wparam_wheel_delta(wparam) as i32, x, y }
    } else if msg == WM_NCMOUSELEAVE {
        MouseMessage::NcMouseLeave
    } else if msg == WM_MOUSELEAVE {
        MouseMessage::MouseLeave { x, y }
    } else if msg == WM_NCLBUTTONDOWN {
        MouseMessage::NcLButtonDown
    } else {
        MouseMessage::Other
    }
}

/// The `MK_*` bit of a button.
pub open spec fn mk_flag(b: MouseButton) -> u32 {
    match b {
        MouseButton::Left => MK_LBUTTON,
        MouseButton::Right => MK_RBUTTON,
        MouseButton::Middle => MK_MBUTTON,
    }
}

pub fn button_mk_flag(b: MouseButton) -> (f: u32)
    ensures
        f == mk_flag(b),
{
    match b {
        MouseButton::Left => MK_LBUTTON,
        MouseButton::Right => MK_RBUTTON,
        MouseButton::Middle => MK_MBUTTON,
    }
}

/// Pointer bookkeeping of the in-game overlay: the `MK_*` mask of the buttons
/// held, and whether the engine was told that the mouse is present (`Add` sent
/// and not yet followed by `Remove`).
#[derive(PartialEq, Eq, Structural, Clone, Copy, Debug)]
pub struct OverlayPointerState {
    pub buttons: u32,
    pub mouse_added: bool,
}

/// What handling one mouse message produced.
pub struct PointerResponse {
    /// Whether the overlay reports the message as handled.
    pub handled: bool,
    /// The events to send to the engine, in order.
    pub samples: Vec<PointerSample>,
}

pub open spec fn sample(phase: PointerPhase, x: i32, y: i32, wheel: i32, buttons: int) -> PointerSample {
    PointerSample { phase, x, y, wheel_delta: wheel, buttons: buttons as i64 }
}

/// The held-button mask carried by a mouse-move `WPARAM`.
pub open spec fn held_mask(mk: u32) -> u32 {
    mk & (MK_LBUTTON | MK_RBUTTON | MK_MBUTTON)
}

impl OverlayPointerState {
    pub fn new() -> (s: Self)
        ensures
            s.buttons == 0,
            !s.mouse_added,
    {
        OverlayPointerState { buttons: 0, mouse_added: false }
    }

    /// Handles one mouse message for the overlay. `engine_running` is false
    /// when the overlay has no engine, in which case nothing happens.
    /// `wheel_client` is the wheel message's screen point converted to client
    /// coordinates, or `None` when that conversion failed.
    pub fn handle(&mut self, engine_running: bool, msg: MouseMessage, wheel_client: Option<(i32, i32)>) -> (r: PointerResponse)
        ensures
            !engine_running ==> (*final(self) == *old(self) && !r.handled && r.samples@.len() == 0),
            engine_running ==> match msg {
                MouseMessage::Move { x, y, mk } => {
                    let held = held_mask(mk);
                    &&& r.handled
                    &&& final(self).buttons == held
                    &&& if held != 0 {
                        final(self).mouse_added == old(self).mouse_added
                            && r.samples@ == seq![sample(PointerPhase::Move, x, y, 0, held as int)]
                    } else if !old(self).mouse_added {
                        final(self).mouse_added && r.samples@ == seq![sample(PointerPhase::Add, x, y, 0, 0)]
                    } else {
                        final(self).mouse_added && r.samples@ == seq![sample(PointerPhase::Hover, x, y, 0, 0)]
                    }
                },
                MouseMessage::ButtonDown { button, x, y, mk } => {
                    let held = old(self).buttons | mk_flag(button);
                    &&& r.handled
                    &&& final(self).buttons == held
                    &&& final(self).mouse_added
                    &&& if old(self).mouse_added {
                        r.samples@ == seq![sample(PointerPhase::Down, x, y, 0, held as int)]
                    } else {
                        r.samples@ == seq![
                            sample(PointerPhase::Add, x, y, 0, 0),
                            sample(PointerPhase::Down, x, y, 0, held as int),
                        ]
                    }
                },
                MouseMessage::ButtonUp { button, x, y, mk } => {
                    &&& r.handled
                    &&& final(self).buttons == old(self).buttons & !mk_flag(button)
                    &&& final(self).mouse_added == old(self).mouse_added
                    &&& r.samples@ == seq![sample(PointerPhase::Up, x, y, 0, old(self).buttons as int)]
                },
                MouseMessage::NcMouseLeave => {
                    &&& !r.handled
                    &&& final(self).buttons == 0
                    &&& !final(self).mouse_added
                    &&& if old(self).mouse_added {
                        r.samples@ == seq![sample(PointerPhase::Remove, 0, 0, 0, 0)]
                    } else {
                        r.samples@.len() == 0
                    }
                },
                MouseMessage::Wheel { delta, x, y } => {
                    &&& r.handled
                    &&& *final(self) == *old(self)
                    &&& match wheel_client {
                        Some(p) => r.samples@ == seq![
                            sample(PointerPhase::Hover, p.0, p.1, delta, old(self).buttons as int),
                        ],
                        None => r.samples@.len() == 0,
                    }
                },
                _ => !r.handled && *final(self) == *old(self) && r.samples@.len() == 0,
            },
    {
        let mut samples: Vec<PointerSample> = Vec::new();
        if !engine_running {
            return PointerResponse { handled: false, samples };
        }
        match msg {
            MouseMessage::Move { x, y, mk } => {
                let held: u32 = mk & (MK_LBUTTON | MK_RBUTTON | MK_MBUTTON);
                let phase = if held != 0 {
                    PointerPhase::Move
                } else if !self.mouse_added {
                    self.mouse_added = true;
                    PointerPhase::Add
                } else {
                    PointerPhase::Hover
                };
                self.buttons = held;
                samples.push(PointerSample { phase, x, y, wheel_delta: 0, buttons: held as i64 });
                PointerResponse { handled: true, samples }
            },
            MouseMessage::ButtonDown { button, x, y, mk } => {
                let held: u32 = self.buttons | button_mk_flag(button);
                self.buttons = held;
                if !self.mouse_added {
                    self.mouse_added = true;
                    samples.push(PointerSample { phase: PointerPhase::Add, x, y, wheel_delta: 0, buttons: 0 });
                }
                samples.push(PointerSample { phase: PointerPhase::Down, x, y, wheel_delta: 0, buttons: held as i64 });
                PointerResponse { handled: true, samples }
            },
            MouseMessage::ButtonUp { button, x, y, mk } => {
                let before: u32 = self.buttons;
                self.buttons = before & !button_mk_flag(button);
                samples.push(PointerSample { phase: PointerPhase::Up, x, y, wheel_delta: 0, buttons: before as i64 });
                PointerResponse { handled: true, samples }
            },
            MouseMessage::NcMouseLeave => {
                if self.mouse_added {
                    self.mouse_added = false;
                    samples.push(PointerSample { phase: PointerPhase::Remove, x: 0, y: 0, wheel_delta: 0, buttons: 0 });
                }
                self.buttons = 0;
                PointerResponse { handled: false, samples }
            },
            MouseMessage::Wheel { delta, x, y } => {
                match wheel_client {
                    Some(p) => {
                        samples.push(PointerSample {
                            phase: PointerPhase::Hover,
                            x: p.0,
                            y: p.1,
                            wheel_delta: delta,
                            buttons: self.buttons as i64,
                        });
                    },
                    None => {},
                }
                PointerResponse { handled: true, samples }
            },
            _ => PointerResponse { handled: false, samples },
        }
    }
}

/// Pressing a button that is not held and then releasing it gives back the
/// button mask held before.
pub proof fn law_press_release_restores_buttons(held: u32, b: MouseButton)
    requires
        held & mk_flag(b) == 0,
    ensures
        (held | mk_flag(b)) & !mk_flag(b) == held,
{
    let f = mk_flag(b);
    assert((held & f) == 0 ==> ((held | f) & !f) == held) by (bit_vector);
}

/// Flutter's mouse-button bits as used by satellite windows.
pub const BTN_LEFT: i64 = 1;
pub const BTN_RIGHT: i64 = 2;
pub const BTN_MIDDLE: i64 = 4;

/// The Flutter button mask for an `MK_*` key-state mask.
pub open spec fn window_buttons(mk: u32) -> i64 {
    ((if mk & MK_LBUTTON != 0 { BTN_LEFT } else { 0 }) + (if mk & MK_RBUTTON != 0 { BTN_RIGHT } else { 0 })
        + (if mk & MK_MBUTTON != 0 { BTN_MIDDLE } else { 0 })) as i64
}

pub fn buttons_from_mk(mk: u32) -> (b: i64)
    ensures
        b == window_buttons(mk),
{
    let mut b: i64 = 0;
    if mk & MK_LBUTTON != 0 {
        b = b + BTN_LEFT;
    }
    if mk & MK_RBUTTON != 0 {
        b = b + BTN_RIGHT;
    }
    if mk & MK_MBUTTON != 0 {
        b = b + BTN_MIDDLE;
    }
    b
}

/// The Flutter bit of a single button.
pub open spec fn window_button_bit(b: MouseButton) -> i64 {
    match b {
        MouseButton::Left => BTN_LEFT,
        MouseButton::Right => BTN_RIGHT,
        MouseButton::Middle => BTN_MIDDLE,
    }
}

/// What a satellite window does with one mouse message.
pub struct WindowPointerResponse {
    /// Whether the window procedure consumes the message.
    pub handled: bool,
    /// Whether mouse-leave tracking must be requested for the window.
    pub track_leave: bool,
    /// Whether the view must be given focus before the events are sent.
    pub focus_view: bool,
    /// The events to send to the view, in order.
    pub samples: Vec<PointerSample>,
}

/// Pointer bookkeeping of a satellite window: whether the view was told that
/// the mouse is inside the window.
#[derive(PartialEq, Eq, Structural, Clone, Copy, Debug)]
pub struct WindowPointerState {
    pub mouse_added: bool,
}

impl WindowPointerState {
    pub fn new() -> (s: Self)
        ensures
            !s.mouse_added,
    {
        WindowPointerState { mouse_added: false }
    }

    /// Handles one mouse message for the satellite window showing `view_id`
    /// (negative while the window has no view yet).
    pub fn handle(&mut self, view_id: i64, msg: MouseMessage) -> (r: WindowPointerResponse)
        ensures
            view_id < 0 ==> (*final(self) == *old(self) && !r.handled && !r.track_leave && !r.focus_view
                && r.samples@.len() == 0),
            view_id >= 0 ==> match msg {
                MouseMessage::Move { x, y, mk } => {
                    let phase = if window_buttons(mk) != 0 { PointerPhase::Move } else { PointerPhase::Hover };
                    &&& r.handled && !r.focus_view
                    &&& final(self).mouse_added
                    &&& r.track_leave == !old(self).mouse_added
                    &&& if old(self).mouse_added {
                        r.samples@ == seq![sample(phase, x, y, 0, window_buttons(mk) as int)]
                    } else {
                        r.samples@ == seq![
                            sample(PointerPhase::Add, x, y, 0, 0),
                            sample(phase, x, y, 0, window_buttons(mk) as int),
                        ]
                    }
                },
                MouseMessage::MouseLeave { x, y } => {
                    &&& r.handled && !r.track_leave && !r.focus_view
                    &&& !final(self).mouse_added
                    &&& if old(self).mouse_added {
                        r.samples@ == seq![sample(PointerPhase::Remove, x, y, 0, 0)]
                    } else {
                        r.samples@.len() == 0
                    }
                },
                MouseMessage::ButtonDown { button, x, y, mk } => {
                    &&& r.handled && !r.track_leave
                    &&& r.focus_view == (button == MouseButton::Left)
                    &&& *final(self) == *old(self)
                    &&& r.samples@ == seq![sample(PointerPhase::Down, x, y, 0, window_button_bit(button) as int)]
                },
                MouseMessage::ButtonUp { button, x, y, mk } => {
                    &&& r.handled && !r.track_leave && !r.focus_view
                    &&& *final(self) == *old(self)
                    &&& r.samples@ == seq![sample(PointerPhase::Up, x, y, 0, 0)]
                },
                MouseMessage::Wheel { delta, x, y } => {
                    &&& r.handled && !r.track_leave && !r.focus_view
                    &&& *final(self) == *old(self)
                    &&& r.samples@ == seq![sample(PointerPhase::Hover, x, y, delta, 0)]
                },
                MouseMessage::NcLButtonDown => {
                    &&& !r.handled && !r.track_leave && !r.focus_view
                    &&& !final(self).mouse_added
                    &&& if old(self).mouse_added {
                        r.samples@ == seq![sample(PointerPhase::Remove, 0, 0, 0, 0)]
                    } else {
                        r.samples@.len() == 0
                    }
                },
                _ => !r.handled && !r.track_leave && !r.focus_view && *final(self) == *old(self)
                    && r.samples@.len() == 0,
            },
    {
        let mut samples: Vec<PointerSample> = Vec::new();
        if view_id < 0 {
            return WindowPointerResponse { handled: false, track_leave: false, focus_view: false, samples };
        }
        match msg {
            MouseMessage::Move { x, y, mk } => {
                let buttons: i64 = buttons_from_mk(mk);
                let mut track_leave = false;
                if !self.mouse_added {
                    self.mouse_added = true;
                    track_leave = true;
                    samples.push(PointerSample { phase: PointerPhase::Add, x, y, wheel_delta: 0, buttons: 0 });
                }
                let phase = if buttons != 0 { PointerPhase::Move } else { PointerPhase::Hover };
                samples.push(PointerSample { phase, x, y, wheel_delta: 0, buttons });
                WindowPointerResponse { handled: true, track_leave, focus_view: false, samples }
            },
            MouseMessage::MouseLeave { x, y } => {
                if self.mouse_added {
                    self.mouse_added = false;
                    samples.push(PointerSample { phase: PointerPhase::Remove, x, y, wheel_delta: 0, buttons: 0 });
                }
                WindowPointerResponse { handled: true, track_leave: false, focus_view: false, samples }
            },
            MouseMessage::ButtonDown { button, x, y, mk } => {
                let b: i64 = match button {
                    MouseButton::Left => BTN_LEFT,
                    MouseButton::Right => BTN_RIGHT,
                    MouseButton::Middle => BTN_MIDDLE,
                };
                let focus_view = match button {
                    MouseButton::Left => true,
                    _ => false,
                };
                samples.push(PointerSample { phase: PointerPhase::Down, x, y, wheel_delta: 0, buttons: b });
                WindowPointerResponse { handled: true, track_leave: false, focus_view, samples }
            },
            MouseMessage::ButtonUp { button, x, y, mk } => {
                samples.push(PointerSample { phase: PointerPhase::Up, x, y, wheel_delta: 0, buttons: 0 });
                WindowPointerResponse { handled: true, track_leave: false, focus_view: false, samples }
            },
            MouseMessage::Wheel { delta, x, y } => {
                samples.push(PointerSample { phase: PointerPhase::Hover, x, y, wheel_delta: delta, buttons: 0 });
                WindowPointerResponse { handled: true, track_leave: false, focus_view: false, samples }
            },
            MouseMessage::NcLButtonDown => {
                if self.mouse_added {
                    self.mouse_added = false;
                    samples.push(PointerSample { phase: PointerPhase::Remove, x: 0, y: 0, wheel_delta: 0, buttons: 0 });
                }
                WindowPointerResponse { handled: false, track_leave: false, focus_view: false, samples }
            },
            _ => WindowPointerResponse { handled: false, track_leave: false, focus_view: false, samples },
        }
    }
}

/// Each button holds its own Windows `MK_*` bit in the held mask: left
/// 0x0001, right 0x0002, middle 0x0010; pressing a button from no button
/// held gives exactly its bit, and releasing it gives none again.
pub proof fn law_button_bits(b: MouseButton)
    ensures
        mk_flag(MouseButton::Left) == 0x0001u32 && MK_LBUTTON == 0x0001u32,
        mk_flag(MouseButton::Right) == 0x0002u32 && MK_RBUTTON == 0x0002u32,
        mk_flag(MouseButton::Middle) == 0x0010u32 && MK_MBUTTON == 0x0010u32,
        (0u32 | mk_flag(b)) == mk_flag(b),
        ((0u32 | mk_flag(b)) & !mk_flag(b)) == 0u32,
{
    let f = mk_flag(b);
    assert((0u32 | f) == f) by (bit_vector);
    assert(((0u32 | f) & !f) == 0u32) by (bit_vector);
}

/// The held mask of a mouse message keeps exactly the left, right and
/// middle button bits (0x0001, 0x0002, 0x0010) of its `MK_*` word.
pub proof fn law_held_mask_keeps_button_bits(mk: u32)
    ensures
        (held_mask(mk) & 0x0001u32) == (mk & 0x0001u32),
        (held_mask(mk) & 0x0002u32) == (mk & 0x0002u32),
        (held_mask(mk) & 0x0010u32) == (mk & 0x0010u32),
        (held_mask(mk) & !0x0013u32) == 0u32,
{
    assert((mk & (0x0001u32 | 0x0002u32 | 0x0010u32)) & 0x0001u32 == mk & 0x0001u32) by (bit_vector);
    assert((mk & (0x0001u32 | 0x0002u32 | 0x0010u32)) & 0x0002u32 == mk & 0x0002u32) by (bit_vector);
    assert((mk & (0x0001u32 | 0x0002u32 | 0x0010u32)) & 0x0010u32 == mk & 0x0010u32) by (bit_vector);
    assert((mk & (0x0001u32 | 0x0002u32 | 0x0010u32)) & !0x0013u32 == 0u32) by (bit_vector);
}

/// A satellite window reports the engine's button bits for exactly the
/// buttons held in the message's `MK_*` word: primary for left, secondary
/// for right, middle for middle.
pub proof fn law_window_buttons_follow_mk(mk: u32)
    ensures
        window_buttons(mk) == (if mk & 0x0001u32 != 0 { BTN_LEFT } else { 0 })
            + (if mk & 0x0002u32 != 0 { BTN_RIGHT } else { 0 })
            + (if mk & 0x0010u32 != 0 { BTN_MIDDLE } else { 0 }),
        BTN_LEFT == 1 && BTN_RIGHT == 2 && BTN_MIDDLE == 4,
{
}

} // verus!
