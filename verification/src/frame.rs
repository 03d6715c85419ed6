//! The hand-off of frames between the engine's render thread and the host:
//! the presented and copied frame counters, the damage the engine reports, the
//! full-repaint request, and what the host does with all of it on each tick.
use vstd::prelude::*;
use crate::error::RendererType;
use crate::metrics::Geometry;

verus! {

/// A rectangle of texture pixels, `[left, right) x [top, bottom)`.
#[derive(Clone, Copy, Debug, PartialEq, Eq, Structural)]
pub struct DamageRect {
    pub left: u32,
    pub top: u32,
    pub right: u32,
    pub bottom: u32,
}

pub open spec fn min_u32(a: u32, b: u32) -> u32 {
    if a < b { a } else { b }
}

/// A rectangle cut down to a `w` x `h` texture.
pub open spec fn clamp_rect(r: DamageRect, w: u32, h: u32) -> DamageRect {
    DamageRect {
        left: min_u32(r.left, w),
        top: min_u32(r.top, h),
        right: min_u32(r.right, w),
        bottom: min_u32(r.bottom, h),
    }
}

/// The rectangle covers at least one pixel.
pub open spec fn rect_nonempty(r: DamageRect) -> bool {
    r.left < r.right && r.top < r.bottom
}

/// The region of a `w` x `h` texture that a damage rectangle asks to copy,
/// when it covers any pixel of it.
pub open spec fn copy_box_spec(r: DamageRect, w: u32, h: u32) -> Option<DamageRect> {
    if rect_nonempty(clamp_rect(r, w, h)) {
        Some(clamp_rect(r, w, h))
    } else {
        None
    }
}

/// The copy regions of a list of damage rectangles, in order, empty ones left out.
pub open spec fn copy_boxes(d: Seq<DamageRect>, w: u32, h: u32) -> Seq<DamageRect>
    decreases d.len(),
{
    if d.len() == 0 {
        Seq::empty()
    } else {
        let rest = copy_boxes(d.drop_last(), w, h);
        match copy_box_spec(d.last(), w, h) {
            Some(b) => rest.push(b),
            None => rest,
        }
    }
}

fn min_u32_exec(a: u32, b: u32) -> (m: u32)
    ensures
        m == min_u32(a, b),
{
    if a < b { a } else { b }
}

/// The region of a `w` x `h` texture covered by `r`, or `None` when it covers
/// no pixel of it.
pub fn copy_box(r: DamageRect, w: u32, h: u32) -> (b: Option<DamageRect>)
    ensures
        b == copy_box_spec(r, w, h),
{
    let c = DamageRect {
        left: min_u32_exec(r.left, w),
        top: min_u32_exec(r.top, h),
        right: min_u32_exec(r.right, w),
        bottom: min_u32_exec(r.bottom, h),
    };
    if c.left < c.right && c.top < c.bottom {
        Some(c)
    } else {
        None
    }
}

/// The regions to copy out of a `w` x `h` texture for the given damage.
pub fn copy_regions(damage: &Vec<DamageRect>, w: u32, h: u32) -> (boxes: Vec<DamageRect>)
    ensures
        boxes@ == copy_boxes(damage@, w, h),
{
    let mut boxes: Vec<DamageRect> = Vec::new();
    let mut i: usize = 0;
    while i < damage.len()
        invariant
            i <= damage@.len(),
            boxes@ == copy_boxes(damage@.subrange(0, i as int), w, h),
        decreases damage@.len() - i,
    {
        let ghost before = damage@.subrange(0, i as int);
        let ghost after = damage@.subrange(0, i + 1);
        assert(after.drop_last() =~= before);
        assert(after.last() == damage@[i as int]);
        match copy_box(damage[i], w, h) {
            Some(b) => boxes.push(b),
            None => {},
        }
        i = i + 1;
    }
    assert(damage@.subrange(0, damage@.len() as int) =~= damage@);
    boxes
}

/// Every region that is copied lies inside the texture and covers at least one
/// pixel, whatever damage the engine reported.
pub proof fn lemma_copy_boxes_inside(d: Seq<DamageRect>, w: u32, h: u32)
    ensures
        forall|i: int| 0 <= i < copy_boxes(d, w, h).len() ==> {
            let b = #[trigger] copy_boxes(d, w, h)[i];
            &&& rect_nonempty(b)
            &&& b.right <= w
            &&& b.bottom <= h
        },
        copy_boxes(d, w, h).len() <= d.len(),
    decreases d.len(),
{
    if d.len() > 0 {
        lemma_copy_boxes_inside(d.drop_last(), w, h);
    }
}


/// What a resize asks of the host once the overlay's geometry has changed.
#[derive(Clone, Copy, Debug)]
pub struct ResizeWork {
    /// The new length of the software renderer's pixel buffer.
    pub pixel_buffer_len: Option<usize>,
    /// The size handed to the EGL state as its pending resize.
    pub pending_gl_resize: Option<(u32, u32)>,
    /// The engine is sent the new window metrics.
    pub send_metrics: bool,
}

/// The length in bytes of a `w` x `h` RGBA pixel buffer.
pub open spec fn rgba_len(w: u32, h: u32) -> int {
    w * h * 4
}

/// Sets `buf` to `len` bytes: a longer buffer is cut, a shorter one is filled
/// with zero bytes, and the bytes kept are unchanged.
pub fn resize_pixel_buffer(buf: &mut Vec<u8>, len: usize)
    ensures
        final(buf)@.len() == len,
        forall|i: int| 0 <= i < len && i < old(buf)@.len() ==> final(buf)@[i] == old(buf)@[i],
        forall|i: int| old(buf)@.len() <= i < len ==> final(buf)@[i] == 0u8,
{
    buf.resize(len, 0u8);
    proof {
        if len > old(buf)@.len() {
            assert forall|i: int| 0 <= i < old(buf)@.len() implies buf@[i] == old(buf)@[i] by {
                assert(buf@.subrange(0, old(buf)@.len() as int)[i] == buf@[i]);
            }
        }
    }
}

/// The frame counter after one more present; the counter wraps like the
/// atomic it stands for.
pub open spec fn next_count(n: u64) -> u64 {
    if n == u64::MAX { 0 } else { (n + 1) as u64 }
}

/// What the host does with an overlay's texture on one tick.
#[derive(Clone, Debug, PartialEq, Eq)]
pub enum TickPlan {
    /// Nothing to do this tick.
    Idle,
    /// The overlay is hidden but secondary views still render: hand the
    /// implicit view's keyed mutex back to the engine when `acknowledge`, then
    /// ask the engine for a new frame.
    HiddenHandoff { acknowledge: bool },
    /// Upload the software renderer's pixels.
    UploadSoftware,
    /// A new frame without damage: hand the keyed mutex back, copy nothing.
    Acknowledge,
    /// Copy these regions from the shared texture.
    CopyRegions(Vec<DamageRect>),
}

/// The frame hand-off state of an overlay. `buffer_damage` holds the engine's
/// own damage rectangles (handed back to it as they came); `frame_damage`
/// holds the integer rectangles the host copies.
pub struct FrameSync<R> {
    pub renderer: RendererType,
    pub visible: bool,
    pub width: u32,
    pub height: u32,
    pub presented: u64,
    pub copied: u64,
    pub buffer_damage: Vec<R>,
    pub frame_damage: Vec<DamageRect>,
    pub full_repaint: bool,
    pub software_first_frame: bool,
}

/// The fields that a step leaves alone: renderer, visibility, size and the
/// software first-frame flag.
pub open spec fn same_setup<R>(a: FrameSync<R>, b: FrameSync<R>) -> bool {
    &&& b.renderer == a.renderer
    &&& b.visible == a.visible
    &&& b.width == a.width
    &&& b.height == a.height
    &&& b.software_first_frame == a.software_first_frame
}

/// `b` is `a` after the engine presented a frame with this buffer and frame
/// damage.
pub open spec fn present_post<R>(a: FrameSync<R>, b: FrameSync<R>, buffer_damage: Seq<R>, frame_damage: Seq<DamageRect>) -> bool {
    &&& same_setup(a, b)
    &&& b.buffer_damage@ == buffer_damage
    &&& b.frame_damage@ == a.frame_damage@ + frame_damage
    &&& b.presented == next_count(a.presented)
    &&& b.copied == a.copied
    &&& b.full_repaint == a.full_repaint
}

/// `b` is `a` after the engine asked for the existing damage and was told
/// about `n` rectangles.
pub open spec fn existing_damage_post<R>(a: FrameSync<R>, b: FrameSync<R>, n: int) -> bool {
    &&& same_setup(a, b)
    &&& n == (if a.full_repaint { 0 } else { a.buffer_damage@.len() as int })
    &&& !b.full_repaint
    &&& b.buffer_damage@ == a.buffer_damage@
    &&& b.frame_damage@ == a.frame_damage@
    &&& b.presented == a.presented
    &&& b.copied == a.copied
}

/// `b` is `a` after a tick that decided `p`.
pub open spec fn tick_post<R>(a: FrameSync<R>, b: FrameSync<R>, secondary_views: bool, device_lost: bool, shared_open: bool, p: TickPlan) -> bool {
    let hidden = !a.visible || a.width == 0 || a.height == 0;
    let fresh = a.presented > a.copied;
    &&& same_setup(a, b)
    &&& b.presented == a.presented
    &&& b.buffer_damage@ == a.buffer_damage@
    &&& b.full_repaint == a.full_repaint
    &&& if hidden {
        &&& b.frame_damage@ == a.frame_damage@
        &&& if secondary_views {
            &&& p == TickPlan::HiddenHandoff { acknowledge: fresh }
            &&& b.copied == (if fresh { a.presented } else { a.copied })
        } else {
            &&& p == TickPlan::Idle
            &&& b.copied == a.copied
        }
    } else if a.renderer == RendererType::Software {
        &&& p == TickPlan::UploadSoftware
        &&& b.copied == a.copied
        &&& b.frame_damage@ == a.frame_damage@
    } else if device_lost || !shared_open || !fresh {
        &&& p == TickPlan::Idle
        &&& b.copied == a.copied
        &&& b.frame_damage@ == a.frame_damage@
    } else {
        &&& b.copied == a.presented
        &&& b.frame_damage@.len() == 0
        &&& if a.frame_damage@.len() == 0 {
            p == TickPlan::Acknowledge
        } else {
            p matches TickPlan::CopyRegions(boxes) && boxes@ == copy_boxes(a.frame_damage@, a.width, a.height)
        }
    }
}

/// The tick hands a presented frame over to the host.
pub open spec fn takes_frame(p: TickPlan) -> bool {
    ||| p == TickPlan::Acknowledge
    ||| p matches TickPlan::CopyRegions(_)
    ||| p == TickPlan::HiddenHandoff { acknowledge: true }
}

/// A frame is handed over once: a second tick with nothing presented in
/// between hands over nothing.
pub proof fn law_frame_taken_once<R>(
    s0: FrameSync<R>,
    s1: FrameSync<R>,
    s2: FrameSync<R>,
    secondary_views: bool,
    device_lost: bool,
    shared_open: bool,
    p1: TickPlan,
    p2: TickPlan,
)
    requires
        tick_post(s0, s1, secondary_views, device_lost, shared_open, p1),
        tick_post(s1, s2, secondary_views, device_lost, shared_open, p2),
        takes_frame(p1),
    ensures
        !takes_frame(p2),
{
}

/// A full repaint that was asked for is reported once: the next request for
/// the existing damage is told of none, the one after of the stored damage.
pub proof fn law_full_repaint_reported_once<R>(s0: FrameSync<R>, s1: FrameSync<R>, s2: FrameSync<R>, n1: int, n2: int)
    requires
        s0.full_repaint,
        existing_damage_post(s0, s1, n1),
        existing_damage_post(s1, s2, n2),
    ensures
        n1 == 0,
        n2 == s0.buffer_damage@.len(),
{
}

/// What a present reports is what the next tick copies: on a visible OpenGL
/// overlay with everything copied so far, the tick after one present copies
/// exactly the regions of that present's frame damage within the overlay,
/// or only hands the frame back when it reported none.
pub proof fn law_present_then_tick<R>(
    s0: FrameSync<R>,
    s1: FrameSync<R>,
    s2: FrameSync<R>,
    buffer_damage: Seq<R>,
    frame_damage: Seq<DamageRect>,
    secondary_views: bool,
    p: TickPlan,
)
    requires
        s0.visible,
        s0.width > 0,
        s0.height > 0,
        s0.renderer == RendererType::OpenGL,
        s0.copied == s0.presented,
        s0.presented < u64::MAX,
        s0.frame_damage@.len() == 0,
        present_post(s0, s1, buffer_damage, frame_damage),
        tick_post(s1, s2, secondary_views, false, true, p),
    ensures
        frame_damage.len() == 0 ==> p == TickPlan::Acknowledge,
        frame_damage.len() > 0 ==> (p matches TickPlan::CopyRegions(boxes) && boxes@ == copy_boxes(frame_damage, s0.width, s0.height)),
        s2.copied == s2.presented,
        s2.frame_damage@.len() == 0,
{
    assert(s1.frame_damage@ =~= frame_damage);
}

impl<R> FrameSync<R> {
    /// A fresh, visible overlay of the given size: no frame presented yet and
    /// a full repaint pending.
    pub fn new(renderer: RendererType, width: u32, height: u32) -> (s: Self)
        ensures
            s.renderer == renderer,
            s.visible,
            s.width == width,
            s.height == height,
            s.presented == 0,
            s.copied == 0,
            s.buffer_damage@.len() == 0,
            s.frame_damage@.len() == 0,
            s.full_repaint,
            !s.software_first_frame,
    {
        FrameSync {
            renderer,
            visible: true,
            width,
            height,
            presented: 0,
            copied: 0,
            buffer_damage: Vec::new(),
            frame_damage: Vec::new(),
            full_repaint: true,
            software_first_frame: false,
        }
    }

    /// The engine presented a frame: its buffer damage replaces the stored
    /// one, its frame damage is added to what the host has not copied yet,
    /// and the presented counter moves on.
    pub fn record_present(&mut self, buffer_damage: Vec<R>, frame_damage: Vec<DamageRect>)
        ensures
            present_post(*old(self), *final(self), buffer_damage@, frame_damage@),
    {
        self.buffer_damage = buffer_damage;
        let mut fd = frame_damage;
        self.frame_damage.append(&mut fd);
        if self.presented == u64::MAX {
            self.presented = 0;
        } else {
            self.presented = self.presented + 1;
        }
    }

    /// How many of the stored buffer-damage rectangles the engine is told are
    /// already dirty. A pending full repaint is consumed and reports none, so
    /// the engine repaints everything.
    pub fn existing_damage(&mut self) -> (n: usize)
        ensures
            existing_damage_post(*old(self), *final(self), n as int),
    {
        if self.full_repaint {
            self.full_repaint = false;
            0
        } else {
            self.buffer_damage.len()
        }
    }

    /// Asks for a full repaint on the next frame (after a resize or a device
    /// recovery).
    pub fn request_full_repaint(&mut self)
        ensures
            final(self).full_repaint,
            final(self).buffer_damage@ == old(self).buffer_damage@,
            final(self).frame_damage@ == old(self).frame_damage@,
            final(self).presented == old(self).presented,
            final(self).copied == old(self).copied,
            final(self).renderer == old(self).renderer,
            final(self).visible == old(self).visible,
            final(self).width == old(self).width,
            final(self).height == old(self).height,
            final(self).software_first_frame == old(self).software_first_frame,
    {
        self.full_repaint = true;
    }

    /// The software renderer delivered a frame.
    pub fn note_software_frame(&mut self)
        ensures
            final(self).software_first_frame,
            final(self).buffer_damage@ == old(self).buffer_damage@,
            final(self).frame_damage@ == old(self).frame_damage@,
            final(self).presented == old(self).presented,
            final(self).copied == old(self).copied,
            final(self).full_repaint == old(self).full_repaint,
            final(self).renderer == old(self).renderer,
            final(self).visible == old(self).visible,
            final(self).width == old(self).width,
            final(self).height == old(self).height,
    {
        self.software_first_frame = true;
    }

    /// Applies a resize request from `(x, y)` at the current size to `new`.
    /// A request that changes nothing and is not forced is skipped (`None`).
    /// Otherwise the size is taken over; when the host device could be had,
    /// the software renderer's buffer (if any) gets the new RGBA length, the
    /// OpenGL renderer (with its EGL state) gets a pending resize and a full
    /// repaint, and a running engine is sent the new metrics.
    pub fn plan_resize(
        &mut self,
        x: i32,
        y: i32,
        new: Geometry,
        force: bool,
        device_ok: bool,
        has_pixel_buffer: bool,
        has_gl_state: bool,
        engine_running: bool,
    ) -> (w: Option<ResizeWork>)
        requires
            !(!force && (x, y, old(self).width, old(self).height) == new) && device_ok
                && old(self).renderer == RendererType::Software && has_pixel_buffer
                ==> rgba_len(new.2, new.3) <= usize::MAX,
        ensures
            final(self).renderer == old(self).renderer,
            final(self).visible == old(self).visible,
            final(self).presented == old(self).presented,
            final(self).copied == old(self).copied,
            final(self).buffer_damage@ == old(self).buffer_damage@,
            final(self).frame_damage@ == old(self).frame_damage@,
            final(self).software_first_frame == old(self).software_first_frame,
            (!force && (x, y, old(self).width, old(self).height) == new) ==> {
                &&& w.is_none()
                &&& final(self).width == old(self).width
                &&& final(self).height == old(self).height
                &&& final(self).full_repaint == old(self).full_repaint
            },
            !(!force && (x, y, old(self).width, old(self).height) == new) ==> {
                let gl = old(self).renderer == RendererType::OpenGL && has_gl_state && device_ok;
                &&& final(self).width == new.2
                &&& final(self).height == new.3
                &&& final(self).full_repaint == (old(self).full_repaint || gl)
                &&& w == Some(ResizeWork {
                    pixel_buffer_len: if device_ok && old(self).renderer == RendererType::Software && has_pixel_buffer {
                        Some(rgba_len(new.2, new.3) as usize)
                    } else {
                        None
                    },
                    pending_gl_resize: if gl { Some((new.2, new.3)) } else { None },
                    send_metrics: device_ok && engine_running,
                })
            },
    {
        if !force && x == new.0 && y == new.1 && self.width == new.2 && self.height == new.3 {
            return None;
        }
        self.width = new.2;
        self.height = new.3;
        if !device_ok {
            return Some(ResizeWork { pixel_buffer_len: None, pending_gl_resize: None, send_metrics: false });
        }
        let mut pixel_buffer_len: Option<usize> = None;
        let mut pending_gl_resize: Option<(u32, u32)> = None;
        match self.renderer {
            RendererType::Software => {
                if has_pixel_buffer {
                    let len: usize = (new.2 as usize) * (new.3 as usize) * 4;
                    pixel_buffer_len = Some(len);
                }
            },
            RendererType::OpenGL => {
                if has_gl_state {
                    pending_gl_resize = Some((new.2, new.3));
                    self.full_repaint = true;
                }
            },
        }
        Some(ResizeWork { pixel_buffer_len, pending_gl_resize, send_metrics: engine_running })
    }

    /// The number of frames presented; the software renderer has no counter.
    pub fn presented_frame_count(&self) -> (n: Option<u64>)
        ensures
            n == (match self.renderer {
                RendererType::OpenGL => Some(self.presented),
                RendererType::Software => None,
            }),
    {
        match self.renderer {
            RendererType::OpenGL => Some(self.presented),
            RendererType::Software => None,
        }
    }

    /// The renderer has produced at least one frame.
    pub fn has_first_frame(&self) -> (b: bool)
        ensures
            b == (match self.renderer {
                RendererType::OpenGL => self.presented > 0,
                RendererType::Software => self.software_first_frame,
            }),
    {
        match self.renderer {
            RendererType::OpenGL => self.presented > 0,
            RendererType::Software => self.software_first_frame,
        }
    }

    /// Decides what one tick does. A hidden or zero-sized overlay only keeps
    /// the engine going while secondary views render; the software renderer
    /// uploads; the OpenGL renderer copies the damaged regions of a newly
    /// presented frame, unless the device is lost or the shared texture is not
    /// open. The frame damage is drained and the copied counter catches up
    /// whenever a new frame is handled.
    pub fn plan_tick(&mut self, secondary_views: bool, device_lost: bool, shared_open: bool) -> (p: TickPlan)
        ensures
            tick_post(*old(self), *final(self), secondary_views, device_lost, shared_open, p),
    {
        if !self.visible || self.width == 0 || self.height == 0 {
            if secondary_views {
                let fresh = self.presented > self.copied;
                if fresh {
                    self.copied = self.presented;
                }
                return TickPlan::HiddenHandoff { acknowledge: fresh };
            }
            return TickPlan::Idle;
        }
        match self.renderer {
            RendererType::Software => TickPlan::UploadSoftware,
            RendererType::OpenGL => {
                if device_lost || !shared_open || self.presented <= self.copied {
                    return TickPlan::Idle;
                }
                let mut damage: Vec<DamageRect> = Vec::new();
                std::mem::swap(&mut damage, &mut self.frame_damage);
                self.copied = self.presented;
                if damage.len() == 0 {
                    TickPlan::Acknowledge
                } else {
                    TickPlan::CopyRegions(copy_regions(&damage, self.width, self.height))
                }
            }
        }
    }
}

} // verus!
