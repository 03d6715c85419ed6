//! Satellite windows: top-level OS windows that show a secondary view of an
//! overlay's engine. This module holds their window style, resize-border hit
//! testing, maximize/restore bookkeeping, the packing of pending sizes and
//! the per-frame state machine that keeps the window's swap chain, the
//! engine's shared texture and the presented frames in step.
use vstd::prelude::*;
use crate::winmsg::{high_word, low_word, lparam_x, lparam_y, signed16};

verus! {

pub const WS_OVERLAPPEDWINDOW: u32 = 0x00CF_0000;
pub const WS_THICKFRAME: u32 = 0x0004_0000;
pub const WS_MAXIMIZEBOX: u32 = 0x0001_0000;
pub const WS_MINIMIZEBOX: u32 = 0x0002_0000;
pub const WS_POPUP: u32 = 0x8000_0000;
pub const WS_CAPTION: u32 = 0x00C0_0000;

pub const HTLEFT: u32 = 10;
pub const HTRIGHT: u32 = 11;
pub const HTTOP: u32 = 12;
pub const HTTOPLEFT: u32 = 13;
pub const HTTOPRIGHT: u32 = 14;
pub const HTBOTTOM: u32 = 15;
pub const HTBOTTOMLEFT: u32 = 16;
pub const HTBOTTOMRIGHT: u32 = 17;

/// Chrome of a satellite window.
#[derive(PartialEq, Eq, Structural, Clone, Copy, Debug)]
pub struct WindowStyle {
    /// A standard title bar and borders; otherwise a borderless popup the
    /// application draws its own title bar for.
    pub decorated: bool,
    /// The window can be resized and maximized.
    pub resizable: bool,
}

impl Default for WindowStyle {
    fn default() -> (s: Self)
        ensures
            s.decorated && s.resizable,
    {
        WindowStyle { decorated: true, resizable: true }
    }
}

/// The window-style bits of a satellite window.
pub open spec fn style_bits_spec(style: WindowStyle) -> u32 {
    let base = if style.decorated {
        WS_OVERLAPPEDWINDOW
    } else {
        WS_POPUP | WS_CAPTION | WS_MINIMIZEBOX | WS_MAXIMIZEBOX | WS_THICKFRAME
    };
    if style.resizable {
        base
    } else {
        base & !(WS_THICKFRAME | WS_MAXIMIZEBOX)
    }
}

/// The window-style bits for `style`: a standard overlapped window when
/// decorated, a captioned popup otherwise; without resizing, the thick frame
/// and the maximize box are taken away.
pub fn window_style_bits(style: WindowStyle) -> (bits: u32)
    ensures
        bits == style_bits_spec(style),
{
    let base: u32 = if style.decorated {
        WS_OVERLAPPEDWINDOW
    } else {
        WS_POPUP | WS_CAPTION | WS_MINIMIZEBOX | WS_MAXIMIZEBOX | WS_THICKFRAME
    };
    if style.resizable {
        base
    } else {
        base & !(WS_THICKFRAME | WS_MAXIMIZEBOX)
    }
}

/// A window rectangle in screen coordinates.
#[derive(PartialEq, Eq, Structural, Clone, Copy, Debug)]
pub struct Rect {
    pub left: i32,
    pub top: i32,
    pub right: i32,
    pub bottom: i32,
}

/// The width of the invisible resize border at `dpi` dots per inch: 8 pixels
/// at 96 dpi, scaled and rounded down (computed exactly in integers, which
/// agrees with a single-precision computation for every DPI below 2^21).
pub open spec fn border_spec(dpi: u32) -> int {
    (8 * dpi as int) / 96
}

pub fn resize_border(dpi: u32) -> (b: i64)
    ensures
        b == border_spec(dpi),
{
    let d: u64 = dpi as u64;
    let b: u64 = 8 * d / 96;
    b as i64
}

/// The resize hit-test code for a screen point, or `None` when the default
/// handling applies (the window cannot be resized, is maximized, or the
/// point is not on a border).
pub open spec fn hit_test_spec(resizable: bool, maximized: bool, rc: Rect, x: int, y: int, dpi: u32) -> Option<u32> {
    let border = border_spec(dpi);
    let left = x < rc.left + border;
    let right = x >= rc.right - border;
    let top = y < rc.top + border;
    let bottom = y >= rc.bottom - border;
    if !resizable || maximized {
        None
    } else if top && left {
        Some(HTTOPLEFT)
    } else if top && right {
        Some(HTTOPRIGHT)
    } else if bottom && left {
        Some(HTBOTTOMLEFT)
    } else if bottom && right {
        Some(HTBOTTOMRIGHT)
    } else if left {
        Some(HTLEFT)
    } else if right {
        Some(HTRIGHT)
    } else if top {
        Some(HTTOP)
    } else if bottom {
        Some(HTBOTTOM)
    } else {
        None
    }
}

/// Answers `WM_NCHITTEST` for a satellite window whose style bits are
/// `style`, whose window rectangle is `rc`, at `dpi`; the point is packed in
/// `lparam`.
pub fn nc_hit_test(style: u32, maximized: bool, rc: Rect, lparam: isize, dpi: u32) -> (r: Option<u32>)
    ensures
        r == hit_test_spec(
            style & WS_THICKFRAME != 0,
            maximized,
            rc,
            signed16(low_word(lparam as int)),
            signed16(high_word(lparam as int)),
            dpi,
        ),
{
    let resizable = style & WS_THICKFRAME != 0;
    if !resizable || maximized {
        return None;
    }
    let x: i64 = lparam_x(lparam) as i64;
    let y: i64 = lparam_y(lparam) as i64;
    let border = resize_border(dpi);
    let left = x < rc.left as i64 + border;
    let right = x >= rc.right as i64 - border;
    let top = y < rc.top as i64 + border;
    let bottom = y >= rc.bottom as i64 - border;
    if top && left {
        Some(HTTOPLEFT)
    } else if top && right {
        Some(HTTOPRIGHT)
    } else if bottom && left {
        Some(HTBOTTOMLEFT)
    } else if bottom && right {
        Some(HTBOTTOMRIGHT)
    } else if left {
        Some(HTLEFT)
    } else if right {
        Some(HTRIGHT)
    } else if top {
        Some(HTTOP)
    } else if bottom {
        Some(HTBOTTOM)
    } else {
        None
    }
}

/// The extent between two edges, at least 1.
pub open spec fn extent_spec(lo: i32, hi: i32) -> int {
    if hi - lo >= 1 { hi - lo } else { 1 }
}

/// The extent between two edges, at least 1 (a window's client size).
pub fn extent(lo: i32, hi: i32) -> (e: u32)
    ensures
        e == extent_spec(lo, hi),
{
    let d: i64 = hi as i64 - lo as i64;
    if d >= 1 {
        d as u32
    } else {
        1
    }
}

/// A size packed into one word: width in the high half, height in the low.
pub open spec fn pack_spec(w: u32, h: u32) -> int {
    (w as u64) * 0x1_0000_0000 + (h as u64)
}

/// Packs a size into one word.
pub fn pack_size(w: u32, h: u32) -> (p: u64)
    ensures
        p == pack_spec(w, h),
{
    let p: u64 = ((w as u64) << 32u64) | (h as u64);
    assert(p == (w as u64) * 0x1_0000_0000 + (h as u64)) by (bit_vector)
        requires
            p == ((w as u64) << 32u64) | (h as u64),
    ;
    p
}

/// Unpacks a size packed by [`pack_size`].
pub fn unpack_size(p: u64) -> (s: (u32, u32))
    ensures
        p == pack_spec(s.0, s.1),
{
    let w: u32 = (p >> 32u64) as u32;
    let h: u32 = (p & 0xFFFF_FFFFu64) as u32;
    assert(p == (w as u64) * 0x1_0000_0000 + (h as u64)) by (bit_vector)
        requires
            w == (p >> 32u64) as u32,
            h == (p & 0xFFFF_FFFFu64) as u32,
    ;
    (w, h)
}

/// The size a `WM_SIZE` message reports, packed, when both sides are
/// non-zero (a minimized window reports zero and is ignored).
pub fn wm_size_pending(lparam: isize) -> (p: Option<u64>)
    ensures
        ({
            let w = low_word(lparam as int);
            let h = high_word(lparam as int);
            if w > 0 && h > 0 {
                p matches Some(v) && v == pack_spec(w as u32, h as u32)
            } else {
                p is None
            }
        }),
{
    let w: u32 = (lparam & 0xFFFF) as u32;
    let h: u32 = ((lparam >> 16) & 0xFFFF) as u32;
    assert(w as int == (lparam as int) % 0x10000) by (bit_vector)
        requires
            w == (lparam & 0xFFFF) as u32,
    ;
    assert(h as int == ((lparam as int) / 0x10000) % 0x10000) by (bit_vector)
        requires
            h == ((lparam >> 16) & 0xFFFF) as u32,
    ;
    if w > 0 && h > 0 {
        Some(pack_size(w, h))
    } else {
        None
    }
}

/// Maximize/restore bookkeeping of a satellite window: maximizing fills the
/// monitor's work area and remembers the window rectangle to come back to.
#[derive(PartialEq, Eq, Structural, Clone, Copy, Debug)]
pub struct Placement {
    pub maximized: bool,
    /// The window is minimized (as its last `WM_SIZE` reported).
    pub minimized: bool,
    pub restore_rect: Option<Rect>,
}

/// What a restore request does to the window.
#[derive(PartialEq, Eq, Structural, Clone, Copy, Debug)]
pub enum RestoreAction {
    /// Show the minimized window again.
    Unminimize,
    /// Move the maximized window back to this rectangle.
    MoveTo(Rect),
    /// Nothing to restore.
    Nothing,
}

/// Moving a window to `rect`, and the client size it then reports.
#[derive(PartialEq, Eq, Structural, Clone, Copy, Debug)]
pub struct Move {
    pub rect: Rect,
    pub pending: u64,
}

/// The placement after a maximize request, and the move it makes.
pub open spec fn maximize_spec(p: Placement, window_rect: Option<Rect>, work_area: Option<Rect>) -> (Placement, Option<Move>) {
    if p.maximized {
        (p, None)
    } else {
        let remembered = match window_rect {
            Some(r) => Some(r),
            None => p.restore_rect,
        };
        match work_area {
            Some(w) => (
                Placement { maximized: true, restore_rect: remembered, ..p },
                Some(Move {
                    rect: w,
                    pending: pack_spec(extent_spec(w.left, w.right) as u32, extent_spec(w.top, w.bottom) as u32) as u64,
                }),
            ),
            None => (Placement { maximized: false, restore_rect: remembered, ..p }, None),
        }
    }
}

/// The placement after a restore request, and what the window does: a
/// minimized window is shown again; otherwise a maximized window with a
/// remembered rectangle moves back to it.
pub open spec fn restore_spec(p: Placement) -> (Placement, RestoreAction) {
    if p.minimized {
        (Placement { minimized: false, ..p }, RestoreAction::Unminimize)
    } else if p.maximized && p.restore_rect is Some {
        (Placement { maximized: false, ..p }, RestoreAction::MoveTo(p.restore_rect->0))
    } else {
        (p, RestoreAction::Nothing)
    }
}

impl Placement {
    pub fn new() -> (p: Self)
        ensures
            !p.maximized,
            !p.minimized,
            p.restore_rect is None,
    {
        Placement { maximized: false, minimized: false, restore_rect: None }
    }

    /// Maximizes: remembers `window_rect` (when it could be read) and, when
    /// the monitor's work area is known, moves the window onto it. Nothing
    /// happens when already maximized.
    pub fn maximize(&mut self, window_rect: Option<Rect>, work_area: Option<Rect>) -> (m: Option<Move>)
        ensures
            (*final(self), m) == maximize_spec(*old(self), window_rect, work_area),
    {
        if self.maximized {
            return None;
        }
        match window_rect {
            Some(r) => {
                self.restore_rect = Some(r);
            },
            None => {},
        }
        match work_area {
            Some(w) => {
                self.maximized = true;
                let pending = pack_size(extent(w.left, w.right), extent(w.top, w.bottom));
                Some(Move { rect: w, pending })
            },
            None => None,
        }
    }

    /// Restores a maximized window to the remembered rectangle, which is
    /// returned for the window to be moved there. Nothing happens when not
    /// maximized or when no rectangle was remembered.
    pub fn restore(&mut self) -> (r: RestoreAction)
        ensures
            (*final(self), r) == restore_spec(*old(self)),
    {
        if self.minimized {
            self.minimized = false;
            return RestoreAction::Unminimize;
        }
        if self.maximized {
            match self.restore_rect {
                Some(r) => {
                    self.maximized = false;
                    RestoreAction::MoveTo(r)
                },
                None => RestoreAction::Nothing,
            }
        } else {
            RestoreAction::Nothing
        }
    }

    /// Records whether the window's last size change minimized it.
    pub fn note_minimized(&mut self, minimized: bool)
        ensures
            *final(self) == (Placement { minimized, ..*old(self) }),
    {
        self.minimized = minimized;
    }
}

/// A packed size gives back the size it was packed from: two sizes with the
/// same packed word are the same size.
pub proof fn law_size_round_trip(w: u32, h: u32, w2: u32, h2: u32)
    requires
        pack_spec(w, h) == pack_spec(w2, h2),
    ensures
        w == w2,
        h == h2,
{
    assert(w == w2 && h == h2) by (nonlinear_arith)
        requires
            (w as u64) * 0x1_0000_0000 + (h as u64) == (w2 as u64) * 0x1_0000_0000 + (h2 as u64),
            h < 0x1_0000_0000,
            h2 < 0x1_0000_0000,
            0 <= w,
            0 <= w2,
    ;
}

/// Maximizing a window that is neither maximized nor minimized, with its
/// rectangle and the work area known, and then restoring it moves it back to
/// the rectangle it had and leaves it not maximized.
pub proof fn law_maximize_then_restore(p: Placement, window_rect: Rect, work_area: Rect)
    requires
        !p.maximized,
        !p.minimized,
    ensures
        ({
            let (maximized, _) = maximize_spec(p, Some(window_rect), Some(work_area));
            let (restored, action) = restore_spec(maximized);
            &&& maximized.maximized
            &&& action == RestoreAction::MoveTo(window_rect)
            &&& !restored.maximized
        }),
{
}

/// The engine's shared texture may be opened for the window's current size:
/// the engine reports a texture of exactly that size.
pub open spec fn can_open_spec(engine_size: Option<(u32, u32)>, w: u32, h: u32) -> bool {
    engine_size == Some((w, h))
}

pub fn can_open_shared_texture(engine_size: Option<(u32, u32)>, w: u32, h: u32) -> (b: bool)
    ensures
        b == can_open_spec(engine_size, w, h),
{
    match engine_size {
        Some((ew, eh)) => ew == w && eh == h,
        None => false,
    }
}

/// A frame presented by the engine has not been copied yet.
pub fn should_copy_frame(presented: u64, copied: u64) -> (b: bool)
    ensures
        b == (presented > copied),
{
    presented > copied
}

/// The host-side texture no longer has the size of the view's texture.
pub fn needs_host_texture_recreate(texture_size: (u32, u32), host_size: (u32, u32)) -> (b: bool)
    ensures
        b == (texture_size != host_size),
{
    texture_size.0 != host_size.0 || texture_size.1 != host_size.1
}

/// The "no frame shown yet" marker of the last presented frame counter.
pub const NO_FRAME: u64 = 0xFFFF_FFFF_FFFF_FFFF;

/// What a satellite window draws at the end of a frame.
#[derive(PartialEq, Eq, Structural, Clone, Copy, Debug)]
pub enum Presentation {
    /// Blit the shared texture and present.
    Blit,
    /// Clear to black and present (no shared texture yet).
    Clear,
    /// Nothing new to show.
    Skip,
}

/// The per-frame state of a satellite window's render loop: the size of its
/// swap chain (`cur`), the client size last sent to the engine (`target`),
/// the size the shared texture was opened at (`opened`), whether it is open,
/// and the engine frame last presented.
#[derive(PartialEq, Eq, Structural, Clone, Copy, Debug)]
pub struct SatelliteRender {
    pub cur_w: u32,
    pub cur_h: u32,
    pub target_w: u32,
    pub target_h: u32,
    pub opened_w: u32,
    pub opened_h: u32,
    pub shared_open: bool,
    pub last_frame: u64,
    /// Whether this frame had to (re)open the shared texture.
    pub need_open: bool,
}

/// What the first step of a frame decided.
#[derive(Clone, Copy, Debug)]
pub enum PumpStart {
    /// The window is minimized: nothing happens this frame.
    Minimized,
    /// Go on; the engine is first told the new client size when it changed.
    Proceed { resize_view: Option<(u32, u32)> },
}

/// What the second step of a frame decided, once the engine's texture size
/// is known.
#[derive(Clone, Copy, Debug)]
pub struct PumpTexture {
    /// The engine's texture changed size: the swap chain is resized to it
    /// and the old shared texture dropped.
    pub resize_swap_chain: Option<(u32, u32)>,
    /// Open the shared texture now.
    pub open_texture: bool,
}

/// The state after the first step of a frame with client size `w` x `h`,
/// and the size sent to the engine, if any.
pub open spec fn begin_frame_spec(s: SatelliteRender, w: u32, h: u32) -> (SatelliteRender, Option<(u32, u32)>) {
    if w != s.target_w || h != s.target_h {
        (SatelliteRender { target_w: w, target_h: h, ..s }, Some((w, h)))
    } else {
        (s, None)
    }
}

/// The state after the second step of a frame with the engine's texture
/// size, the swap-chain resize it asks for and whether the texture is opened.
pub open spec fn adopt_spec(s: SatelliteRender, engine_size: Option<(u32, u32)>) -> (SatelliteRender, Option<(u32, u32)>, bool) {
    let grew = engine_size matches Some(e) && e != (s.cur_w, s.cur_h);
    let es = engine_size->0;
    let mid = if grew {
        SatelliteRender { cur_w: es.0, cur_h: es.1, shared_open: false, last_frame: NO_FRAME, opened_w: 0, opened_h: 0, ..s }
    } else {
        s
    };
    let need = !mid.shared_open || mid.opened_w != mid.cur_w || mid.opened_h != mid.cur_h;
    (
        SatelliteRender { need_open: need, ..mid },
        if grew { Some(es) } else { None },
        need && can_open_spec(engine_size, mid.cur_w, mid.cur_h),
    )
}

/// The state after the third step of a frame, and whether a new engine frame
/// is requested.
pub open spec fn note_open_spec(s: SatelliteRender, opened: bool, engine_size: Option<(u32, u32)>) -> (SatelliteRender, bool) {
    let next = if opened {
        SatelliteRender { shared_open: true, opened_w: s.cur_w, opened_h: s.cur_h, ..s }
    } else {
        s
    };
    (next, (engine_size is Some && engine_size != Some((s.cur_w, s.cur_h))) || !next.shared_open)
}

/// A window converges to its new client size: once the engine has the size
/// the frame sent it, the window's swap chain takes that size, the shared
/// texture is opened at it, and no further frame is needed to settle.
pub proof fn law_satellite_converges(s: SatelliteRender, w: u32, h: u32)
    requires
        w != s.target_w || h != s.target_h,
    ensures
        ({
            let (s1, sent) = begin_frame_spec(s, w, h);
            let (s2, _, open) = adopt_spec(s1, sent);
            let (s3, again) = note_open_spec(s2, open, sent);
            &&& sent == Some((w, h))
            &&& s3.cur_w == w && s3.cur_h == h
            &&& s3.shared_open && s3.opened_w == w && s3.opened_h == h
            &&& !again
        }),
{
}

impl SatelliteRender {
    /// The state of a window whose client area is `w` by `h`, with the shared
    /// texture opened (or not) at spawn.
    pub fn new(w: u32, h: u32, shared_open: bool) -> (s: Self)
        ensures
            s.cur_w == w && s.cur_h == h && s.target_w == w && s.target_h == h,
            s.opened_w == w && s.opened_h == h,
            s.shared_open == shared_open,
            s.last_frame == NO_FRAME,
            !s.need_open,
    {
        SatelliteRender {
            cur_w: w,
            cur_h: h,
            target_w: w,
            target_h: h,
            opened_w: w,
            opened_h: h,
            shared_open,
            last_frame: NO_FRAME,
            need_open: false,
        }
    }

    /// First step of a frame: a minimized window does nothing; otherwise a
    /// client size (`client_w` by `client_h`) that differs from the last one
    /// sent becomes the new target and is sent to the engine.
    pub fn begin_frame(&mut self, minimized: bool, client_w: u32, client_h: u32) -> (r: PumpStart)
        ensures
            minimized ==> r == PumpStart::Minimized && *final(self) == *old(self),
            !minimized ==> ({
                let (next, sent) = begin_frame_spec(*old(self), client_w, client_h);
                r == PumpStart::Proceed { resize_view: sent } && *final(self) == next
            }),
    {
        if minimized {
            return PumpStart::Minimized;
        }
        if client_w != self.target_w || client_h != self.target_h {
            self.target_w = client_w;
            self.target_h = client_h;
            PumpStart::Proceed { resize_view: Some((client_w, client_h)) }
        } else {
            PumpStart::Proceed { resize_view: None }
        }
    }

    /// Second step: adopts the engine's texture size `engine_size` when it
    /// differs from the swap chain's (dropping the shared texture and
    /// forgetting the last frame), then decides whether to open the shared
    /// texture: it is needed when not open or opened at another size, and
    /// possible when the engine's texture has the swap chain's size.
    pub fn adopt_engine_size(&mut self, engine_size: Option<(u32, u32)>) -> (r: PumpTexture)
        ensures
            ({
                let (next, resize, open) = adopt_spec(*old(self), engine_size);
                &&& *final(self) == next
                &&& r.resize_swap_chain == resize
                &&& r.open_texture == open
            }),
    {
        let mut resize_swap_chain: Option<(u32, u32)> = None;
        match engine_size {
            Some((ew, eh)) => {
                if ew != self.cur_w || eh != self.cur_h {
                    self.cur_w = ew;
                    self.cur_h = eh;
                    self.shared_open = false;
                    self.last_frame = NO_FRAME;
                    self.opened_w = 0;
                    self.opened_h = 0;
                    resize_swap_chain = Some((ew, eh));
                }
            },
            None => {},
        }
        let need = !self.shared_open || self.opened_w != self.cur_w || self.opened_h != self.cur_h;
        self.need_open = need;
        let open_texture = need && can_open_shared_texture(engine_size, self.cur_w, self.cur_h);
        PumpTexture { resize_swap_chain, open_texture }
    }

    /// Third step: records whether opening the shared texture succeeded, and
    /// tells whether a new engine frame must be requested (the engine's size
    /// still differs from the swap chain's, or nothing is open).
    pub fn note_open(&mut self, opened: bool, engine_size: Option<(u32, u32)>) -> (request_frame: bool)
        ensures
            (*final(self), request_frame) == note_open_spec(*old(self), opened, engine_size),
    {
        if opened {
            self.shared_open = true;
            self.opened_w = self.cur_w;
            self.opened_h = self.cur_h;
        }
        let mismatch = match engine_size {
            Some((ew, eh)) => ew != self.cur_w || eh != self.cur_h,
            None => false,
        };
        mismatch || !self.shared_open
    }

    /// Last step: with the engine's frame counter `frame`, decides what to
    /// draw. With a shared texture, a new frame (or a freshly opened texture)
    /// is blitted; without one, the window is cleared. Returns whether
    /// something was presented.
    pub fn present(&mut self, frame: u64) -> (r: (Presentation, bool))
        ensures
            old(self).shared_open && (frame != old(self).last_frame || old(self).need_open) ==> {
                r == (Presentation::Blit, true) && *final(self) == SatelliteRender { last_frame: frame, ..*old(self) }
            },
            old(self).shared_open && !(frame != old(self).last_frame || old(self).need_open) ==> {
                r == (Presentation::Skip, false) && *final(self) == *old(self)
            },
            !old(self).shared_open ==> r == (Presentation::Clear, true) && *final(self) == *old(self),
    {
        if self.shared_open {
            if frame != self.last_frame || self.need_open {
                self.last_frame = frame;
                (Presentation::Blit, true)
            } else {
                (Presentation::Skip, false)
            }
        } else {
            (Presentation::Clear, true)
        }
    }
}

/// On a resizable window that is not maximized, a point within the resize
/// border of exactly one edge, away from the corners, answers that edge's
/// code; a point near two edges answers the corner; a point inside the
/// borders answers nothing (the default handling).
pub proof fn law_hit_test_edges(rc: Rect, x: int, y: int, dpi: u32)
    ensures
        ({
            let b = border_spec(dpi);
            let near_left = x < rc.left + b;
            let near_right = x >= rc.right - b;
            let near_top = y < rc.top + b;
            let near_bottom = y >= rc.bottom - b;
            let r = hit_test_spec(true, false, rc, x, y, dpi);
            &&& near_top && !near_bottom && !near_left && !near_right ==> r == Some(12u32)
            &&& near_bottom && !near_top && !near_left && !near_right ==> r == Some(15u32)
            &&& near_left && !near_right && !near_top && !near_bottom ==> r == Some(10u32)
            &&& near_right && !near_left && !near_top && !near_bottom ==> r == Some(11u32)
            &&& near_top && near_left ==> r == Some(13u32)
            &&& near_top && near_right && !near_left ==> r == Some(14u32)
            &&& near_bottom && near_left && !near_top ==> r == Some(16u32)
            &&& near_bottom && near_right && !near_left && !near_top ==> r == Some(17u32)
            &&& !near_left && !near_right && !near_top && !near_bottom ==> r is None
            &&& HTTOP == 12 && HTBOTTOM == 15 && HTLEFT == 10 && HTRIGHT == 11
        }),
        forall|resizable: bool, maximized: bool| !resizable || maximized ==> hit_test_spec(resizable, maximized, rc, x, y, dpi) is None,
{
}

/// The resize border is 8 pixels at 96 DPI and scales with the DPI,
/// rounded down: the largest whole number of pixels not above 8 * dpi / 96.
pub proof fn law_border_scales_with_dpi(dpi: u32, dpi2: u32)
    ensures
        border_spec(dpi) * 96 <= 8 * dpi,
        8 * dpi < (border_spec(dpi) + 1) * 96,
        dpi <= dpi2 ==> border_spec(dpi) <= border_spec(dpi2),
{
    assert(border_spec(dpi) * 96 <= 8 * dpi && 8 * dpi < (border_spec(dpi) + 1) * 96) by (nonlinear_arith)
        requires
            border_spec(dpi) == (8 * dpi as int) / 96,
    ;
    if dpi <= dpi2 {
        assert(border_spec(dpi) <= border_spec(dpi2)) by (nonlinear_arith)
            requires
                border_spec(dpi) == (8 * dpi as int) / 96,
                border_spec(dpi2) == (8 * dpi2 as int) / 96,
                dpi <= dpi2,
        ;
    }
}

} // verus!
