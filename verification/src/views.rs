//! Secondary Flutter views driven by one engine: the registry that numbers
//! them, the checks and outcomes of adding, removing and resizing a view, and
//! the per-frame copy of a view's shared texture.
use vstd::prelude::*;
use vstd::string::StringExecFns;
use crate::error::{FlutterEmbedderError, RendererType};
use crate::frame::{DamageRect, copy_boxes, copy_regions, next_count};
use crate::text::{decimal, push_decimal_i64};

verus! {

/// The id of the implicit view, the overlay itself.
pub const IMPLICIT_VIEW_ID: i64 = 0;

/// The host-side state of one secondary view.
pub struct ViewState {
    pub view_id: i64,
    /// The view has an OS window (and so a window-control channel).
    pub windowed: bool,
    pub width: u32,
    pub height: u32,
    /// The size of the engine's shared texture for this view.
    pub texture_size: (u32, u32),
    /// The size of the host's private copy of it.
    pub host_texture_size: (u32, u32),
    pub presented: u64,
    pub copied: u64,
    /// The shared texture is open on the host device.
    pub shared_open: bool,
    /// Damage reported by the engine and not copied yet.
    pub frame_damage: Vec<DamageRect>,
}

/// A view of `s` has this id.
pub open spec fn has_view(s: Seq<ViewState>, id: i64) -> bool {
    exists|i: int| 0 <= i < s.len() && #[trigger] s[i].view_id == id
}

/// The ids of the views, in order.
pub open spec fn view_ids_of(s: Seq<ViewState>) -> Seq<i64> {
    s.map_values(|v: ViewState| v.view_id)
}

/// What a view's frame needs before its copy: the host texture rebuilt at the
/// engine's texture size, and the shared texture opened.
#[derive(Clone, Copy, Debug)]
pub struct ViewTickPrep {
    pub presented: u64,
    pub recreate_host_texture: Option<(u32, u32)>,
    pub reopen_shared: bool,
}

/// How a view's new frame is copied.
#[derive(Clone, Debug)]
pub enum ViewCopy {
    /// No damage was reported: copy the whole texture.
    Full,
    /// Copy these regions.
    Regions(Vec<DamageRect>),
}

/// Why adding a view failed before the engine was asked.
#[derive(Clone, Debug)]
pub enum AddViewFailure {
    /// The ANGLE device could not be had, with the reason.
    AngleDevice(String),
    /// The overlay has no EGL state.
    NoAngleState,
    /// The shared texture could not be created, with the reason.
    SharedTexture(String),
    /// The host device could not open the shared texture.
    OpenShared,
}

pub open spec fn op_failed(e: FlutterEmbedderError, text: Seq<char>) -> bool {
    e matches FlutterEmbedderError::OperationFailed(s) && s@ == text
}

/// The text of an add-view failure.
pub open spec fn add_view_failure_text(f: AddViewFailure) -> Seq<char> {
    match f {
        AddViewFailure::AngleDevice(e) => "angle device unavailable: "@ + e@,
        AddViewFailure::NoAngleState => "no ANGLE state on host overlay"@,
        AddViewFailure::SharedTexture(e) => "shared texture failed: "@ + e@,
        AddViewFailure::OpenShared => "OpenSharedResource failed for new view"@,
    }
}

/// The error of an add-view failure.
pub fn add_view_error(f: &AddViewFailure) -> (e: FlutterEmbedderError)
    ensures
        op_failed(e, add_view_failure_text(*f)),
{
    let mut m = match f {
        AddViewFailure::AngleDevice(_) => String::from_str("angle device unavailable: "),
        AddViewFailure::NoAngleState => String::from_str("no ANGLE state on host overlay"),
        AddViewFailure::SharedTexture(_) => String::from_str("shared texture failed: "),
        AddViewFailure::OpenShared => String::from_str("OpenSharedResource failed for new view"),
    };
    match f {
        AddViewFailure::AngleDevice(e) => m.append(e.as_str()),
        AddViewFailure::SharedTexture(e) => m.append(e.as_str()),
        _ => {},
    }
    FlutterEmbedderError::OperationFailed(m)
}

/// The text of an engine call that returned `code`: `prefix` and the code.
pub fn code_text(prefix: &str, code: i32) -> (s: String)
    ensures
        s@ == prefix@ + decimal(code as int),
{
    let mut s = String::from_str(prefix);
    push_decimal_i64(&mut s, code as i64);
    s
}

/// The checks before a view is added: a running engine, the OpenGL renderer
/// with the compositor, and a non-zero size.
pub fn check_add_view(engine_running: bool, renderer: RendererType, compositor_active: bool, width: u32, height: u32) -> (r: Result<(), FlutterEmbedderError>)
    ensures
        !engine_running ==> r matches Err(FlutterEmbedderError::EngineNotRunning),
        engine_running && (renderer != RendererType::OpenGL || !compositor_active) ==> (r matches Err(e)
            && op_failed(e, "add_view requires the OpenGL renderer with the compositor active"@)),
        engine_running && renderer == RendererType::OpenGL && compositor_active && (width == 0 || height == 0)
            ==> (r matches Err(e) && op_failed(e, "add_view: width/height must be non-zero"@)),
        engine_running && renderer == RendererType::OpenGL && compositor_active && width != 0 && height != 0
            ==> r is Ok,
{
    if !engine_running {
        return Err(FlutterEmbedderError::EngineNotRunning);
    }
    if renderer != RendererType::OpenGL || !compositor_active {
        return Err(FlutterEmbedderError::OperationFailed(String::from_str(
            "add_view requires the OpenGL renderer with the compositor active",
        )));
    }
    if width == 0 || height == 0 {
        return Err(FlutterEmbedderError::OperationFailed(String::from_str(
            "add_view: width/height must be non-zero",
        )));
    }
    Ok(())
}

/// The checks before a view is removed: a running engine, and not the
/// implicit view.
pub fn check_remove_view(engine_running: bool, view_id: i64) -> (r: Result<(), FlutterEmbedderError>)
    ensures
        !engine_running ==> r matches Err(FlutterEmbedderError::EngineNotRunning),
        engine_running && view_id == IMPLICIT_VIEW_ID ==> (r matches Err(e)
            && op_failed(e, "cannot remove the implicit view (view 0)"@)),
        engine_running && view_id != IMPLICIT_VIEW_ID ==> r is Ok,
{
    if !engine_running {
        return Err(FlutterEmbedderError::EngineNotRunning);
    }
    if view_id == IMPLICIT_VIEW_ID {
        return Err(FlutterEmbedderError::OperationFailed(String::from_str(
            "cannot remove the implicit view (view 0)",
        )));
    }
    Ok(())
}

/// The outcome of sending a view's new metrics: engine code 0 is success.
pub fn resize_metrics_result(code: i32) -> (r: Result<(), FlutterEmbedderError>)
    ensures
        code == 0 ==> r is Ok,
        code != 0 ==> (r matches Err(e) && op_failed(e, "resize metrics failed: "@ + decimal(code as int))),
{
    if code == 0 {
        Ok(())
    } else {
        Err(FlutterEmbedderError::OperationFailed(code_text("resize metrics failed: ", code)))
    }
}

/// The secondary views of an engine. Ids are handed out in increasing order
/// from 1; the implicit view 0 is the overlay and never stored here.
pub struct ViewRegistry {
    views: Vec<ViewState>,
    next_id: i64,
}

impl ViewRegistry {
    pub closed spec fn views(&self) -> Seq<ViewState> {
        self.views@
    }

    /// The id the next added view gets.
    pub closed spec fn next_id(&self) -> i64 {
        self.next_id
    }

    /// Ids are positive, below the next id to hand out, and increase in the
    /// order the views were added (so no id occurs twice).
    pub open spec fn wf(&self) -> bool {
        &&& self.next_id() >= 1
        &&& forall|i: int, j: int| 0 <= i < j < self.views().len()
            ==> #[trigger] self.views()[i].view_id < #[trigger] self.views()[j].view_id
        &&& forall|i: int| 0 <= i < self.views().len()
            ==> 0 < #[trigger] self.views()[i].view_id < self.next_id()
    }

    pub fn new() -> (r: Self)
        ensures
            r.wf(),
            r.views().len() == 0,
            r.next_id() == 1,
    {
        ViewRegistry { views: Vec::new(), next_id: 1 }
    }

    /// The index of the view with this id.
    pub fn position(&self, id: i64) -> (r: Option<usize>)
        requires
            self.wf(),
        ensures
            match r {
                Some(i) => i < self.views().len() && self.views()[i as int].view_id == id,
                None => !has_view(self.views(), id),
            },
    {
        let mut i: usize = 0;
        while i < self.views.len()
            invariant
                i <= self.views@.len(),
                forall|j: int| 0 <= j < i ==> #[trigger] self.views@[j].view_id != id,
            decreases self.views@.len() - i,
        {
            if self.views[i].view_id == id {
                return Some(i);
            }
            i = i + 1;
        }
        None
    }

    /// The ids of the secondary views, in order of addition, which is
    /// ascending order.
    pub fn secondary_view_ids(&self) -> (ids: Vec<i64>)
        requires
            self.wf(),
        ensures
            ids@ == view_ids_of(self.views()),
            forall|i: int, j: int| 0 <= i < j < ids@.len() ==> #[trigger] ids@[i] < #[trigger] ids@[j],
    {
        let mut ids: Vec<i64> = Vec::new();
        let mut i: usize = 0;
        while i < self.views.len()
            invariant
                i <= self.views@.len(),
                ids@ == view_ids_of(self.views@.subrange(0, i as int)),
            decreases self.views@.len() - i,
        {
            ids.push(self.views[i].view_id);
            i = i + 1;
            assert(view_ids_of(self.views@.subrange(0, i as int)) =~= view_ids_of(
                self.views@.subrange(0, i - 1),
            ).push(self.views@[i - 1].view_id));
        }
        assert(self.views@.subrange(0, self.views@.len() as int) =~= self.views@);
        ids
    }

    /// Adds a view of the given size under a new id and returns the id. The
    /// view starts with its shared texture open, at its size, and no frame.
    pub fn begin_add_view(&mut self, windowed: bool, width: u32, height: u32) -> (id: i64)
        requires
            old(self).wf(),
            old(self).next_id() < i64::MAX,
        ensures
            final(self).wf(),
            id == old(self).next_id(),
            id > 0,
            !has_view(old(self).views(), id),
            final(self).next_id() == id + 1,
            final(self).views().len() == old(self).views().len() + 1,
            final(self).views().drop_last() == old(self).views(),
            ({
                let v = final(self).views().last();
                &&& v.view_id == id
                &&& v.windowed == windowed
                &&& v.width == width && v.height == height
                &&& v.texture_size == (width, height)
                &&& v.host_texture_size == (width, height)
                &&& v.presented == 0 && v.copied == 0
                &&& v.shared_open
                &&& v.frame_damage@.len() == 0
            }),
    {
        let id = self.next_id;
        self.next_id = self.next_id + 1;
        self.views.push(ViewState {
            view_id: id,
            windowed,
            width,
            height,
            texture_size: (width, height),
            host_texture_size: (width, height),
            presented: 0,
            copied: 0,
            shared_open: true,
            frame_damage: Vec::new(),
        });
        assert(final(self).views().drop_last() =~= old(self).views());
        id
    }

    /// Forgets the view with this id; true when there was one.
    pub fn remove(&mut self, id: i64) -> (removed: bool)
        requires
            old(self).wf(),
        ensures
            final(self).wf(),
            removed == has_view(old(self).views(), id),
            !has_view(final(self).views(), id),
            final(self).next_id() == old(self).next_id(),
            forall|other: i64| other != id ==> (has_view(final(self).views(), other) == has_view(old(self).views(), other)),
    {
        match self.position(id) {
            Some(i) => {
                let ghost before = self.views@;
                self.views.remove(i);
                proof {
                    assert forall|other: i64| other != id implies has_view(self.views@, other) == has_view(before, other) by {
                        if has_view(before, other) {
                            let k = choose|k: int| 0 <= k < before.len() && #[trigger] before[k].view_id == other;
                            if k < i {
                                assert(self.views@[k].view_id == other);
                            } else {
                                assert(k != i);
                                assert(self.views@[k - 1].view_id == other);
                            }
                        }
                        if has_view(self.views@, other) {
                            let k = choose|k: int| 0 <= k < self.views@.len() && #[trigger] self.views@[k].view_id == other;
                            if k < i {
                                assert(before[k].view_id == other);
                            } else {
                                assert(before[k + 1].view_id == other);
                            }
                        }
                    }
                    if has_view(self.views@, id) {
                        let k = choose|k: int| 0 <= k < self.views@.len() && #[trigger] self.views@[k].view_id == id;
                        if k < i {
                            assert(before[k].view_id == id);
                        } else {
                            assert(before[k + 1].view_id == id);
                        }
                    }
                }
                true
            },
            None => false,
        }
    }

    /// The outcome of adding view `id` once the engine was asked: the call's
    /// code (0 when the request started) and the engine's answer. On failure
    /// the view is forgotten again.
    pub fn finish_add_view(&mut self, id: i64, start_code: i32, added: bool) -> (r: Result<i64, FlutterEmbedderError>)
        requires
            old(self).wf(),
        ensures
            final(self).wf(),
            final(self).next_id() == old(self).next_id(),
            start_code != 0 ==> {
                &&& r matches Err(e) && op_failed(e, "FlutterEngineAddView failed to start: "@ + decimal(start_code as int))
                &&& !has_view(final(self).views(), id)
            },
            start_code == 0 && !added ==> {
                &&& r matches Err(e) && op_failed(e, "engine reported add_view failed"@)
                &&& !has_view(final(self).views(), id)
            },
            start_code == 0 && added ==> (r matches Ok(v) && v == id) && final(self).views() == old(self).views(),
            forall|other: i64| other != id ==> (has_view(final(self).views(), other) == has_view(old(self).views(), other)),
    {
        if start_code != 0 {
            self.remove(id);
            return Err(FlutterEmbedderError::OperationFailed(code_text("FlutterEngineAddView failed to start: ", start_code)));
        }
        if !added {
            self.remove(id);
            proof { reveal_strlit("engine reported add_view failed"); }
            return Err(FlutterEmbedderError::OperationFailed(String::from_str("engine reported add_view failed")));
        }
        Ok(id)
    }

    /// The outcome of removing view `id` once the engine was asked. A request
    /// the engine refused to start keeps the view; otherwise the view is
    /// forgotten and the removal succeeds, whatever the engine answered.
    pub fn finish_remove_view(&mut self, id: i64, start_code: i32) -> (r: Result<(), FlutterEmbedderError>)
        requires
            old(self).wf(),
        ensures
            final(self).wf(),
            final(self).next_id() == old(self).next_id(),
            start_code != 0 ==> {
                &&& r matches Err(e) && op_failed(e, "FlutterEngineRemoveView failed to start: "@ + decimal(start_code as int))
                &&& final(self).views() == old(self).views()
            },
            start_code == 0 ==> r is Ok && !has_view(final(self).views(), id)
                && forall|other: i64| other != id ==> (has_view(final(self).views(), other) == has_view(old(self).views(), other)),
    {
        if start_code != 0 {
            return Err(FlutterEmbedderError::OperationFailed(code_text("FlutterEngineRemoveView failed to start: ", start_code)));
        }
        self.remove(id);
        Ok(())
    }

    /// Takes a new size for view `id`. A zero dimension is refused, an unknown
    /// view is an invalid handle.
    pub fn resize_view(&mut self, id: i64, width: u32, height: u32) -> (r: Result<(), FlutterEmbedderError>)
        requires
            old(self).wf(),
        ensures
            final(self).wf(),
            final(self).next_id() == old(self).next_id(),
            final(self).views().len() == old(self).views().len(),
            width == 0 || height == 0 ==> (r matches Err(e) && op_failed(e, "resize_view: zero dimension"@)),
            width != 0 && height != 0 && !has_view(old(self).views(), id) ==> (r matches Err(FlutterEmbedderError::InvalidHandle)),
            width != 0 && height != 0 && has_view(old(self).views(), id) ==> r is Ok,
            forall|i: int| 0 <= i < old(self).views().len() ==> {
                let (a, b) = (#[trigger] old(self).views()[i], final(self).views()[i]);
                &&& b.view_id == a.view_id
                &&& b.windowed == a.windowed
                &&& b.texture_size == a.texture_size
                &&& b.host_texture_size == a.host_texture_size
                &&& b.presented == a.presented
                &&& b.copied == a.copied
                &&& b.shared_open == a.shared_open
                &&& b.frame_damage@ == a.frame_damage@
                &&& if a.view_id == id && width != 0 && height != 0 {
                    b.width == width && b.height == height
                } else {
                    b.width == a.width && b.height == a.height
                }
            },
    {
        if width == 0 || height == 0 {
            proof { reveal_strlit("resize_view: zero dimension"); }
            return Err(FlutterEmbedderError::OperationFailed(String::from_str("resize_view: zero dimension")));
        }
        match self.position(id) {
            Some(i) => {
                let ghost before = self.views@;
                self.views[i].width = width;
                self.views[i].height = height;
                proof {
                    assert forall|k: int| 0 <= k < before.len() && k != i implies self.views@[k] == before[k] by {}
                }
                Ok(())
            },
            None => Err(FlutterEmbedderError::InvalidHandle),
        }
    }

    /// The engine presented a frame for view `id` with this damage: the
    /// damage is added to what is not copied yet and the counter moves on.
    /// Unknown views are ignored.
    pub fn record_view_present(&mut self, id: i64, damage: Vec<DamageRect>)
        requires
            old(self).wf(),
        ensures
            final(self).wf(),
            final(self).next_id() == old(self).next_id(),
            final(self).views().len() == old(self).views().len(),
            forall|i: int| 0 <= i < old(self).views().len() ==> {
                let (a, b) = (#[trigger] old(self).views()[i], final(self).views()[i]);
                &&& b.view_id == a.view_id
                &&& b.windowed == a.windowed
                &&& b.width == a.width && b.height == a.height
                &&& b.texture_size == a.texture_size
                &&& b.host_texture_size == a.host_texture_size
                &&& b.copied == a.copied
                &&& b.shared_open == a.shared_open
                &&& if a.view_id == id {
                    &&& b.presented == next_count(a.presented)
                    &&& b.frame_damage@ == a.frame_damage@ + damage@
                } else {
                    &&& b.presented == a.presented
                    &&& b.frame_damage@ == a.frame_damage@
                }
            },
    {
        match self.position(id) {
            Some(i) => {
                let ghost before = self.views@;
                let mut d = damage;
                self.views[i].frame_damage.append(&mut d);
                if self.views[i].presented == u64::MAX {
                    self.views[i].presented = 0;
                } else {
                    self.views[i].presented = self.views[i].presented + 1;
                }
                proof {
                    assert forall|k: int| 0 <= k < before.len() && k != i implies self.views@[k] == before[k] by {}
                }
            },
            None => {},
        }
    }

    /// The engine's shared texture for view `id` now has this size and is
    /// not open on the host yet.
    pub fn set_texture_size(&mut self, id: i64, width: u32, height: u32)
        requires
            old(self).wf(),
        ensures
            final(self).wf(),
            final(self).next_id() == old(self).next_id(),
            final(self).views().len() == old(self).views().len(),
            forall|i: int| 0 <= i < old(self).views().len() ==> {
                let (a, b) = (#[trigger] old(self).views()[i], final(self).views()[i]);
                &&& b.view_id == a.view_id
                &&& b.windowed == a.windowed
                &&& b.width == a.width && b.height == a.height
                &&& b.host_texture_size == a.host_texture_size
                &&& b.presented == a.presented
                &&& b.copied == a.copied
                &&& b.frame_damage@ == a.frame_damage@
                &&& if a.view_id == id {
                    b.texture_size == (width, height) && !b.shared_open
                } else {
                    b.texture_size == a.texture_size && b.shared_open == a.shared_open
                }
            },
    {
        match self.position(id) {
            Some(i) => {
                let ghost before = self.views@;
                self.views[i].texture_size = (width, height);
                self.views[i].shared_open = false;
                proof {
                    assert forall|k: int| 0 <= k < before.len() && k != i implies self.views@[k] == before[k] by {}
                }
            },
            None => {},
        }
    }

    /// The size of the engine's shared texture for view `id`, if the view exists.
    pub fn view_texture_size(&self, id: i64) -> (r: Option<(u32, u32)>)
        requires
            self.wf(),
        ensures
            !has_view(self.views(), id) ==> r.is_none(),
            forall|i: int| 0 <= i < self.views().len() && #[trigger] self.views()[i].view_id == id
                ==> r == Some(self.views()[i].texture_size),
    {
        match self.position(id) {
            Some(i) => Some(self.views[i].texture_size),
            None => None,
        }
    }

    /// The size the host last gave view `id`, if the view exists.
    pub fn view_size(&self, id: i64) -> (r: Option<(u32, u32)>)
        requires
            self.wf(),
        ensures
            !has_view(self.views(), id) ==> r.is_none(),
            forall|i: int| 0 <= i < self.views().len() && #[trigger] self.views()[i].view_id == id
                ==> r == Some((self.views()[i].width, self.views()[i].height)),
    {
        match self.position(id) {
            Some(i) => Some((self.views[i].width, self.views[i].height)),
            None => None,
        }
    }

    /// The frames the engine has presented for view `id`; 0 for an unknown view.
    pub fn view_frame_counter(&self, id: i64) -> (n: u64)
        requires
            self.wf(),
        ensures
            !has_view(self.views(), id) ==> n == 0,
            forall|i: int| 0 <= i < self.views().len() && #[trigger] self.views()[i].view_id == id
                ==> n == self.views()[i].presented,
    {
        match self.position(id) {
            Some(i) => self.views[i].presented,
            None => 0,
        }
    }

    /// The first half of a view's tick: nothing unless the view exists and has
    /// a frame not copied yet; otherwise what must be prepared first.
    pub fn begin_view_tick(&self, id: i64) -> (r: Option<ViewTickPrep>)
        requires
            self.wf(),
        ensures
            !has_view(self.views(), id) ==> r.is_none(),
            forall|i: int| 0 <= i < self.views().len() && #[trigger] self.views()[i].view_id == id ==> {
                let v = self.views()[i];
                if v.presented > v.copied {
                    r matches Some(p) && p.presented == v.presented
                        && p.recreate_host_texture == (if v.texture_size != v.host_texture_size {
                            Some(v.texture_size)
                        } else {
                            None::<(u32, u32)>
                        })
                        && p.reopen_shared == !v.shared_open
                } else {
                    r.is_none()
                }
            },
    {
        match self.position(id) {
            Some(i) => {
                let v = &self.views[i];
                if v.presented > v.copied {
                    let recreate = if v.texture_size.0 != v.host_texture_size.0 || v.texture_size.1 != v.host_texture_size.1 {
                        Some(v.texture_size)
                    } else {
                        None
                    };
                    Some(ViewTickPrep { presented: v.presented, recreate_host_texture: recreate, reopen_shared: !v.shared_open })
                } else {
                    None
                }
            },
            None => None,
        }
    }

    /// The host rebuilt its copy of view `id` at the engine's texture size
    /// (`rebuilt`), and opened the shared texture (`opened`).
    pub fn note_view_prepared(&mut self, id: i64, rebuilt: bool, opened: bool)
        requires
            old(self).wf(),
        ensures
            final(self).wf(),
            final(self).next_id() == old(self).next_id(),
            final(self).views().len() == old(self).views().len(),
            forall|i: int| 0 <= i < old(self).views().len() ==> {
                let (a, b) = (#[trigger] old(self).views()[i], final(self).views()[i]);
                &&& b.view_id == a.view_id
                &&& b.windowed == a.windowed
                &&& b.width == a.width && b.height == a.height
                &&& b.texture_size == a.texture_size
                &&& b.presented == a.presented
                &&& b.copied == a.copied
                &&& b.frame_damage@ == a.frame_damage@
                &&& if a.view_id == id {
                    &&& b.host_texture_size == (if rebuilt { a.texture_size } else { a.host_texture_size })
                    &&& b.shared_open == (a.shared_open || opened)
                } else {
                    &&& b.host_texture_size == a.host_texture_size
                    &&& b.shared_open == a.shared_open
                }
            },
    {
        match self.position(id) {
            Some(i) => {
                let ghost before = self.views@;
                if rebuilt {
                    let t = self.views[i].texture_size;
                    self.views[i].host_texture_size = t;
                }
                if opened {
                    self.views[i].shared_open = true;
                }
                proof {
                    assert forall|k: int| 0 <= k < before.len() && k != i implies self.views@[k] == before[k] by {}
                }
            },
            None => {},
        }
    }

    /// The second half of a view's tick: with the shared texture open, the
    /// damage is drained and turned into copies within the texture (the whole
    /// texture when there is none), and the copied counter takes the presented
    /// value read at the start. Without it nothing happens.
    pub fn finish_view_tick(&mut self, id: i64, presented: u64) -> (r: Option<ViewCopy>)
        requires
            old(self).wf(),
        ensures
            final(self).wf(),
            final(self).next_id() == old(self).next_id(),
            final(self).views().len() == old(self).views().len(),
            !has_view(old(self).views(), id) ==> r.is_none(),
            forall|i: int| 0 <= i < old(self).views().len() ==> {
                let (a, b) = (#[trigger] old(self).views()[i], final(self).views()[i]);
                &&& b.view_id == a.view_id
                &&& b.windowed == a.windowed
                &&& b.width == a.width && b.height == a.height
                &&& b.texture_size == a.texture_size
                &&& b.host_texture_size == a.host_texture_size
                &&& b.presented == a.presented
                &&& b.shared_open == a.shared_open
                &&& if a.view_id == id && a.shared_open {
                    &&& b.copied == presented
                    &&& b.frame_damage@.len() == 0
                    &&& if a.frame_damage@.len() == 0 {
                        r matches Some(ViewCopy::Full)
                    } else {
                        r matches Some(ViewCopy::Regions(boxes))
                            && boxes@ == copy_boxes(a.frame_damage@, a.texture_size.0, a.texture_size.1)
                    }
                } else {
                    &&& b.copied == a.copied
                    &&& b.frame_damage@ == a.frame_damage@
                    &&& a.view_id == id ==> r.is_none()
                }
            },
    {
        match self.position(id) {
            Some(i) => {
                if !self.views[i].shared_open {
                    return None;
                }
                let ghost before = self.views@;
                let mut damage: Vec<DamageRect> = Vec::new();
                std::mem::swap(&mut damage, &mut self.views[i].frame_damage);
                self.views[i].copied = presented;
                proof {
                    assert forall|k: int| 0 <= k < before.len() && k != i implies self.views@[k] == before[k] by {}
                }
                if damage.len() == 0 {
                    Some(ViewCopy::Full)
                } else {
                    let (tw, th) = self.views[i].texture_size;
                    Some(ViewCopy::Regions(copy_regions(&damage, tw, th)))
                }
            },
            None => None,
        }
    }
}

} // verus!
