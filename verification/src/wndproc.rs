//! The window procedure of a satellite window: what each window message does
//! to the window's state and which outside step the host performs for it.
use vstd::prelude::*;
use crate::controls::{WM_APP_CLOSE, WM_APP_MAXIMIZE, WM_APP_MINIMIZE, WM_APP_RESTORE};
use crate::pointer::{spec_decode_mouse_message, decode_mouse_message, MouseMessage, WindowPointerState};
use crate::satellite::{
    extent, extent_spec, hit_test_spec, maximize_spec, nc_hit_test, pack_size, pack_spec, restore_spec, wm_size_pending,
    Placement, Rect, RestoreAction, WS_THICKFRAME,
};
use crate::winmsg::{high_word, low_word, signed16, WM_CHAR, WM_KEYDOWN, WM_KEYUP, WM_SYSKEYDOWN, WM_SYSKEYUP};

verus! {

pub const WM_DESTROY: u32 = 0x0002;
pub const WM_SIZE: u32 = 0x0005;
pub const WM_SETFOCUS: u32 = 0x0007;
pub const WM_KILLFOCUS: u32 = 0x0008;
pub const WM_CLOSE: u32 = 0x0010;
pub const WM_NCCREATE: u32 = 0x0081;
pub const WM_NCCALCSIZE: u32 = 0x0083;
pub const WM_NCHITTEST: u32 = 0x0084;
pub const WM_TIMER: u32 = 0x0113;
pub const WM_ENTERSIZEMOVE: u32 = 0x0231;
pub const WM_EXITSIZEMOVE: u32 = 0x0232;
pub const WM_DPICHANGED: u32 = 0x02E0;
/// `WM_SIZE`'s `WPARAM` when the window was minimized.
pub const SIZE_MINIMIZED: usize = 1;
/// The timer that keeps frames coming while the window is moved or sized.
pub const MODAL_PUMP_TIMER_ID: usize = 0xF1;

/// The state a satellite window's procedure keeps: the close request, the
/// maximize/minimize bookkeeping, the size waiting for the render loop
/// (packed, 0 for none), the view shown (-1 until there is one) and the
/// pointer bookkeeping.
#[derive(PartialEq, Eq, Structural, Clone, Copy, Debug)]
pub struct WindowProcState {
    pub should_close: bool,
    pub placement: Placement,
    pub pending_resize: u64,
    pub view_id: i64,
    pub pointer: WindowPointerState,
}

/// What the host reads about the window for a message: its style bits, its
/// window rectangle, the work area of its monitor, its DPI, and for
/// `WM_DPICHANGED` the rectangle Windows suggests.
#[derive(PartialEq, Eq, Structural, Clone, Copy, Debug)]
pub struct MessageContext {
    pub style: u32,
    pub window_rect: Rect,
    pub work_area: Option<Rect>,
    pub dpi: u32,
    pub suggested_rect: Option<Rect>,
}

/// What the window procedure does for a message. Unless said otherwise the
/// message's result is 0.
#[derive(PartialEq, Eq, Structural, Clone, Copy, Debug)]
pub enum ProcAction {
    /// Hand the message to the default window procedure.
    Default,
    /// Nothing more to do.
    Handled,
    /// Answer the hit test with this code.
    HitTest(u32),
    /// Minimize the window.
    Minimize,
    /// Move the window to `rect` (also redrawing its frame when
    /// `frame_changed`); when `read_client`, then read the client rectangle
    /// and hand it to [`WindowProcState::note_client_rect`].
    Move { rect: Rect, frame_changed: bool, read_client: bool },
    /// Show the minimized window again.
    Unminimize,
    /// Start the pump timer, then the default window procedure.
    BeginSizeMove,
    /// Stop the pump timer and pump one frame, then the default window procedure.
    EndSizeMove,
    /// Pump one frame.
    Pump,
    /// Free the procedure's state and end the thread's message loop.
    Destroy,
    /// Tell the view it gained or lost focus.
    ViewFocus { view_id: i64, focused: bool },
    /// Forward the key message to the view; a system key then also goes to
    /// the default window procedure.
    Key { view_id: i64, system: bool },
    /// Handle the mouse message with the pointer state; a message it does not
    /// handle goes to the default window procedure.
    Mouse(MouseMessage),
}

/// The size a `WM_SIZE` message reports, packed, when both sides are non-zero.
pub open spec fn size_pending_spec(lparam: isize) -> Option<u64> {
    let w = low_word(lparam as int);
    let h = high_word(lparam as int);
    if w > 0 && h > 0 {
        Some(pack_spec(w as u32, h as u32) as u64)
    } else {
        None
    }
}

pub open spec fn is_key_message(msg: u32) -> bool {
    msg == WM_KEYDOWN || msg == WM_KEYUP || msg == WM_SYSKEYDOWN || msg == WM_SYSKEYUP || msg == WM_CHAR
}

/// The window procedure: the state after `msg` and what the host does.
pub open spec fn proc_spec(s: WindowProcState, msg: u32, wparam: usize, lparam: isize, ctx: MessageContext) -> (WindowProcState, ProcAction) {
    if msg == WM_NCCREATE {
        (s, ProcAction::Default)
    } else if msg == WM_CLOSE || msg == WM_APP_CLOSE {
        (WindowProcState { should_close: true, ..s }, ProcAction::Handled)
    } else if msg == WM_NCCALCSIZE {
        (s, if wparam != 0 { ProcAction::Handled } else { ProcAction::Default })
    } else if msg == WM_NCHITTEST {
        match hit_test_spec(
            ctx.style & WS_THICKFRAME != 0,
            s.placement.maximized,
            ctx.window_rect,
            signed16(low_word(lparam as int)),
            signed16(high_word(lparam as int)),
            ctx.dpi,
        ) {
            Some(code) => (s, ProcAction::HitTest(code)),
            None => (s, ProcAction::Default),
        }
    } else if msg == WM_APP_MINIMIZE {
        (s, ProcAction::Minimize)
    } else if msg == WM_APP_MAXIMIZE {
        let (p, mv) = maximize_spec(s.placement, Some(ctx.window_rect), ctx.work_area);
        match mv {
            Some(m) => (
                WindowProcState { placement: p, pending_resize: m.pending, ..s },
                ProcAction::Move { rect: m.rect, frame_changed: true, read_client: false },
            ),
            None => (WindowProcState { placement: p, ..s }, ProcAction::Handled),
        }
    } else if msg == WM_APP_RESTORE {
        let (p, act) = restore_spec(s.placement);
        (
            WindowProcState { placement: p, ..s },
            match act {
                RestoreAction::Unminimize => ProcAction::Unminimize,
                RestoreAction::MoveTo(r) => ProcAction::Move { rect: r, frame_changed: true, read_client: true },
                RestoreAction::Nothing => ProcAction::Handled,
            },
        )
    } else if msg == WM_ENTERSIZEMOVE {
        (s, ProcAction::BeginSizeMove)
    } else if msg == WM_EXITSIZEMOVE {
        (s, ProcAction::EndSizeMove)
    } else if msg == WM_TIMER && wparam == MODAL_PUMP_TIMER_ID {
        (s, ProcAction::Pump)
    } else if msg == WM_SIZE {
        let placement = Placement { minimized: wparam == SIZE_MINIMIZED, ..s.placement };
        match size_pending_spec(lparam) {
            Some(p) => (WindowProcState { placement, pending_resize: p, ..s }, ProcAction::Handled),
            None => (WindowProcState { placement, ..s }, ProcAction::Handled),
        }
    } else if msg == WM_DPICHANGED {
        match ctx.suggested_rect {
            Some(r) => (s, ProcAction::Move { rect: r, frame_changed: false, read_client: true }),
            None => (s, ProcAction::Move { rect: ctx.window_rect, frame_changed: false, read_client: true }),
        }
    } else if msg == WM_DESTROY {
        (s, ProcAction::Destroy)
    } else if msg == WM_SETFOCUS || msg == WM_KILLFOCUS {
        if s.view_id >= 0 {
            (s, ProcAction::ViewFocus { view_id: s.view_id, focused: msg == WM_SETFOCUS })
        } else {
            (s, ProcAction::Handled)
        }
    } else if is_key_message(msg) {
        if s.view_id >= 0 {
            (s, ProcAction::Key { view_id: s.view_id, system: msg == WM_SYSKEYDOWN || msg == WM_SYSKEYUP })
        } else {
            (s, ProcAction::Default)
        }
    } else {
        (s, ProcAction::Mouse(spec_decode_mouse_message(msg, wparam, lparam)))
    }
}

/// The state after the client rectangle read after a move: its size (each
/// side at least 1) waits for the render loop.
pub open spec fn with_client(s: WindowProcState, client: Rect) -> WindowProcState {
    WindowProcState {
        pending_resize: pack_spec(extent_spec(client.left, client.right) as u32, extent_spec(client.top, client.bottom) as u32) as u64,
        ..s
    }
}

impl WindowProcState {
    /// The state of a window just created: nothing requested, not
    /// maximized or minimized, no pending size, no view yet.
    pub fn new() -> (s: Self)
        ensures
            !s.should_close,
            !s.placement.maximized && !s.placement.minimized && s.placement.restore_rect is None,
            s.pending_resize == 0,
            s.view_id == -1,
            !s.pointer.mouse_added,
    {
        WindowProcState {
            should_close: false,
            placement: Placement::new(),
            pending_resize: 0,
            view_id: -1,
            pointer: WindowPointerState::new(),
        }
    }

    /// Handles one window message.
    ///
    /// `WM_CLOSE` and the private close message only record the close request
    /// (the window thread tears the window down); `WM_SIZE` records the new
    /// client size for the render loop and whether the window is minimized;
    /// the private maximize message fills the monitor's work area and
    /// remembers the window's rectangle, the private restore message shows a
    /// minimized window again or moves a maximized one back; the resize
    /// borders answer the hit test; focus and key messages go to the view
    /// once it exists, mouse messages to the pointer state.
    pub fn on_message(&mut self, msg: u32, wparam: usize, lparam: isize, ctx: MessageContext) -> (a: ProcAction)
        ensures
            (*final(self), a) == proc_spec(*old(self), msg, wparam, lparam, ctx),
    {
        if msg == WM_NCCREATE {
            ProcAction::Default
        } else if msg == WM_CLOSE || msg == WM_APP_CLOSE {
            self.should_close = true;
            ProcAction::Handled
        } else if msg == WM_NCCALCSIZE {
            if wparam != 0 { ProcAction::Handled } else { ProcAction::Default }
        } else if msg == WM_NCHITTEST {
            match nc_hit_test(ctx.style, self.placement.maximized, ctx.window_rect, lparam, ctx.dpi) {
                Some(code) => ProcAction::HitTest(code),
                None => ProcAction::Default,
            }
        } else if msg == WM_APP_MINIMIZE {
            ProcAction::Minimize
        } else if msg == WM_APP_MAXIMIZE {
            match self.placement.maximize(Some(ctx.window_rect), ctx.work_area) {
                Some(m) => {
                    self.pending_resize = m.pending;
                    ProcAction::Move { rect: m.rect, frame_changed: true, read_client: false }
                },
                None => ProcAction::Handled,
            }
        } else if msg == WM_APP_RESTORE {
            match self.placement.restore() {
                RestoreAction::Unminimize => ProcAction::Unminimize,
                RestoreAction::MoveTo(r) => ProcAction::Move { rect: r, frame_changed: true, read_client: true },
                RestoreAction::Nothing => ProcAction::Handled,
            }
        } else if msg == WM_ENTERSIZEMOVE {
            ProcAction::BeginSizeMove
        } else if msg == WM_EXITSIZEMOVE {
            ProcAction::EndSizeMove
        } else if msg == WM_TIMER && wparam == MODAL_PUMP_TIMER_ID {
            ProcAction::Pump
        } else if msg == WM_SIZE {
            self.placement.note_minimized(wparam == SIZE_MINIMIZED);
            match wm_size_pending(lparam) {
                Some(p) => {
                    self.pending_resize = p;
                },
                None => {},
            }
            ProcAction::Handled
        } else if msg == WM_DPICHANGED {
            match ctx.suggested_rect {
                Some(r) => ProcAction::Move { rect: r, frame_changed: false, read_client: true },
                None => ProcAction::Move { rect: ctx.window_rect, frame_changed: false, read_client: true },
            }
        } else if msg == WM_DESTROY {
            ProcAction::Destroy
        } else if msg == WM_SETFOCUS || msg == WM_KILLFOCUS {
            if self.view_id >= 0 {
                ProcAction::ViewFocus { view_id: self.view_id, focused: msg == WM_SETFOCUS }
            } else {
                ProcAction::Handled
            }
        } else if msg == WM_KEYDOWN || msg == WM_KEYUP || msg == WM_SYSKEYDOWN || msg == WM_SYSKEYUP || msg == WM_CHAR {
            if self.view_id >= 0 {
                ProcAction::Key { view_id: self.view_id, system: msg == WM_SYSKEYDOWN || msg == WM_SYSKEYUP }
            } else {
                ProcAction::Default
            }
        } else {
            ProcAction::Mouse(decode_mouse_message(msg, wparam, lparam))
        }
    }

    /// After a move that asked for it: the client size (each side at least
    /// 1) becomes the size waiting for the render loop.
    pub fn note_client_rect(&mut self, client: Rect)
        ensures
            *final(self) == with_client(*old(self), client),
    {
        self.pending_resize = pack_size(extent(client.left, client.right), extent(client.top, client.bottom));
    }

    /// Takes the size waiting for the render loop, if any.
    pub fn take_pending_resize(&mut self) -> (p: Option<u64>)
        ensures
            p == (if old(self).pending_resize == 0 { None } else { Some(old(self).pending_resize) }),
            *final(self) == (WindowProcState { pending_resize: 0, ..*old(self) }),
    {
        let p = self.pending_resize;
        self.pending_resize = 0;
        if p == 0 { None } else { Some(p) }
    }
}

/// Closing a window only records the request: the window is not destroyed,
/// nothing else of its state changes, and the message's result is 0.
pub proof fn law_close_only_requests(s: WindowProcState, msg: u32, wparam: usize, lparam: isize, ctx: MessageContext)
    requires
        msg == WM_CLOSE || msg == WM_APP_CLOSE,
    ensures
        proc_spec(s, msg, wparam, lparam, ctx) == (WindowProcState { should_close: true, ..s }, ProcAction::Handled),
{
}

/// A window the system minimized is shown again by the restore request,
/// whether or not it was maximized before, and is then no longer minimized.
pub proof fn law_minimized_window_restores(s: WindowProcState, lparam: isize, w: usize, lp: isize, ctx: MessageContext, ctx2: MessageContext)
    ensures
        ({
            let s1 = proc_spec(s, WM_SIZE, SIZE_MINIMIZED, lparam, ctx).0;
            let (s2, a) = proc_spec(s1, WM_APP_RESTORE, w, lp, ctx2);
            &&& s1.placement.minimized
            &&& a == ProcAction::Unminimize
            &&& !s2.placement.minimized
            &&& s2.placement.maximized == s.placement.maximized
        }),
{
}

/// Maximizing a window that is not maximized (its monitor's work area
/// known) and then restoring it is a round trip: the window fills the work
/// area, then moves back to the rectangle it had, is no longer maximized, and
/// the client size read after that move is the size waiting for the render
/// loop. A window the system had minimized is first shown again by one
/// restore request; the next one moves it back.
pub proof fn law_maximize_restore_round_trip(
    s: WindowProcState,
    ctx: MessageContext,
    ctx2: MessageContext,
    wparam: usize,
    lparam: isize,
    client: Rect,
)
    requires
        !s.placement.maximized,
        ctx.work_area is Some,
    ensures
        ({
            let (s1, a1) = proc_spec(s, WM_APP_MAXIMIZE, wparam, lparam, ctx);
            let (s2, a2) = proc_spec(s1, WM_APP_RESTORE, wparam, lparam, ctx2);
            let (s3, a3) = proc_spec(s2, WM_APP_RESTORE, wparam, lparam, ctx2);
            let back = ProcAction::Move { rect: ctx.window_rect, frame_changed: true, read_client: true };
            &&& s1.placement.maximized
            &&& a1 == ProcAction::Move { rect: ctx.work_area->0, frame_changed: true, read_client: false }
            &&& if !s.placement.minimized {
                &&& a2 == back
                &&& !s2.placement.maximized
                &&& with_client(s2, client).pending_resize
                    == pack_spec(extent_spec(client.left, client.right) as u32, extent_spec(client.top, client.bottom) as u32)
            } else {
                &&& a2 == ProcAction::Unminimize
                &&& a3 == back
                &&& !s3.placement.maximized && !s3.placement.minimized
                &&& with_client(s3, client).pending_resize
                    == pack_spec(extent_spec(client.left, client.right) as u32, extent_spec(client.top, client.bottom) as u32)
            }
        }),
{
}

} // verus!
