//! The overlay manager: the set of live overlays in z-order (last is topmost),
//! keyboard focus, keybind registrations, device-recovery cooldown and the
//! per-frame bookkeeping that decides what each overlay does.
//!
//! The manager is generic over `H`, the handle of an overlay's engine and GPU
//! resources, and over the callback types of the two keybind tables; it never
//! looks inside them.
use vstd::prelude::*;
use vstd::string::StringExecFns;
use crate::error::FlutterEmbedderError;
use crate::metrics::should_skip_resize;
use crate::keybind::{Keybind, Modifiers};
use crate::messages::PendingPlatformMessage;
use crate::cursor::{cursor_for_set_cursor, set_cursor_spec, CursorKind};
use vstd::utf8::encode_utf8;
use crate::winmsg::{
    WM_CHAR, WM_KEYDOWN, WM_KEYUP, WM_LBUTTONDOWN, WM_LBUTTONUP, WM_MBUTTONDOWN, WM_MBUTTONUP,
    WM_MOUSEMOVE, WM_MOUSEWHEEL, WM_NCMOUSELEAVE, WM_RBUTTONDOWN, WM_RBUTTONUP, WM_SYSKEYDOWN,
    WM_SYSKEYUP,
};

verus! {

/// Number of frames during which no device recovery is attempted after a
/// failed attempt.
pub const RECOVERY_COOLDOWN_FRAMES: u32 = 300;

/// The post-processing effect applied to an overlay's texture.
#[derive(PartialEq, Eq, Structural, Clone, Copy, Debug)]
pub enum EffectKind {
    Passthrough,
    Hologram,
    WarpField,
    Glitch,
}

/// Where an effect applies: the whole overlay or one widget's rectangle
/// (the rectangle itself is kept by the renderer).
#[derive(PartialEq, Eq, Structural, Clone, Copy, Debug)]
pub enum EffectTargetKind {
    Fullscreen,
    Widget,
}

/// An overlay's effect configuration and the frame countdown of a timed glitch.
#[derive(PartialEq, Eq, Structural, Clone, Copy, Debug)]
pub struct EffectState {
    pub kind: EffectKind,
    pub target: EffectTargetKind,
    pub frames_remaining: u32,
    pub total_frames: u32,
}

pub open spec fn default_effect() -> EffectState {
    EffectState {
        kind: EffectKind::Passthrough,
        target: EffectTargetKind::Fullscreen,
        frames_remaining: 0,
        total_frames: 0,
    }
}

impl EffectState {
    /// No effect, fullscreen target, no countdown.
    pub fn passthrough() -> (e: Self)
        ensures
            e == default_effect(),
    {
        EffectState {
            kind: EffectKind::Passthrough,
            target: EffectTargetKind::Fullscreen,
            frames_remaining: 0,
            total_frames: 0,
        }
    }
}

/// What the manager knows about one overlay.
pub struct OverlayState {
    /// The identifier the overlay is registered under.
    pub name: String,
    pub x: i32,
    pub y: i32,
    pub width: u32,
    pub height: u32,
    pub visible: bool,
    /// When set, the visibility keybind hides only the UI (the overlay keeps
    /// rendering) instead of hiding the overlay.
    pub keep_alive: bool,
    pub ui_hidden: bool,
    /// Whether the pointer is over an interactive widget of this overlay.
    pub hovered: bool,
    pub has_first_frame: bool,
    pub device_lost: bool,
    /// Whether the overlay's engine handle is non-null.
    pub engine_running: bool,
    /// Whether the overlay drives secondary views.
    pub has_secondary_views: bool,
    pub effect: EffectState,
    /// The cursor kind last requested by the application, if any.
    pub desired_cursor: Option<String>,
}

impl OverlayState {
    /// The state of a freshly created overlay.
    pub fn new(name: String, x: i32, y: i32, width: u32, height: u32) -> (s: Self)
        ensures
            s.name@ == name@,
            s.x == x && s.y == y && s.width == width && s.height == height,
            s.visible && !s.keep_alive && !s.ui_hidden && !s.hovered,
            !s.has_first_frame && !s.device_lost && s.engine_running && !s.has_secondary_views,
            s.effect == default_effect(),
            s.desired_cursor is None,
    {
        OverlayState {
            name,
            x,
            y,
            width,
            height,
            visible: true,
            keep_alive: false,
            ui_hidden: false,
            hovered: false,
            has_first_frame: false,
            device_lost: false,
            engine_running: true,
            has_secondary_views: false,
            effect: EffectState::passthrough(),
            desired_cursor: None,
        }
    }
}

/// An overlay as the manager holds it: its state and its handle.
pub struct ManagedOverlay<H> {
    pub state: OverlayState,
    pub handle: H,
}

/// A keybind that toggles an overlay's visibility.
pub struct VisibilityToggle<T> {
    pub key_name: String,
    pub keybind: Keybind,
    pub overlay_id: String,
    pub callback: Option<T>,
}

/// A keybind that fires an action callback.
pub struct KeybindAction<A> {
    pub key_name: String,
    pub keybind: Keybind,
    pub action_id: String,
    pub overlay_id: String,
    pub callback: Option<A>,
    pub allow_repeat: bool,
}

/// The names of a sequence of overlays, in order.
pub open spec fn names<H>(s: Seq<ManagedOverlay<H>>) -> Seq<Seq<char>> {
    s.map_values(|o: ManagedOverlay<H>| o.state.name@)
}

/// No two overlays share a name.
pub open spec fn unique_names<H>(s: Seq<ManagedOverlay<H>>) -> bool {
    forall|i: int, j: int|
        0 <= i < s.len() && 0 <= j < s.len() && i != j ==> #[trigger] s[i].state.name@ != #[trigger] s[j].state.name@
}

/// Some overlay of `s` is named `n`.
pub open spec fn has_name<H>(s: Seq<ManagedOverlay<H>>, n: Seq<char>) -> bool {
    exists|i: int| 0 <= i < s.len() && #[trigger] s[i].state.name@ == n
}

/// `s` without the overlay at `i`, then that overlay on top.
pub open spec fn raised<H>(s: Seq<ManagedOverlay<H>>, i: int) -> Seq<ManagedOverlay<H>> {
    s.remove(i).push(s[i])
}

pub open spec fn not_found_text(id: Seq<char>) -> Seq<char> {
    "No overlay with identifier '"@ + id + "' found."@
}

pub open spec fn no_instance_text() -> Seq<char> {
    "No active overlay instance found."@
}

pub open spec fn ambiguous_text() -> Seq<char> {
    "Multiple overlays exist; an identifier is required."@
}

/// What looking up `identifier` among `s` gives: the index of the overlay, or
/// the error message.
pub open spec fn lookup<H>(s: Seq<ManagedOverlay<H>>, identifier: Option<Seq<char>>, r: Result<usize, String>) -> bool {
    match identifier {
        Some(id) => match r {
            Ok(i) => i < s.len() && s[i as int].state.name@ == id,
            Err(e) => !has_name(s, id) && e@ == not_found_text(id),
        },
        None => if s.len() == 1 {
            r == Ok::<usize, String>(0)
        } else if s.len() == 0 {
            r matches Err(e) && e@ == no_instance_text()
        } else {
            r matches Err(e) && e@ == ambiguous_text()
        },
    }
}

pub open spec fn opt_view(identifier: Option<&str>) -> Option<Seq<char>> {
    match identifier {
        Some(s) => Some(s@),
        None => None,
    }
}


/// Raising the overlay at `i` keeps the set of names and their uniqueness.
proof fn lemma_raised_names<H>(s: Seq<ManagedOverlay<H>>, i: int)
    requires
        0 <= i < s.len(),
    ensures
        raised(s, i).len() == s.len(),
        unique_names(s) ==> unique_names(raised(s, i)),
        forall|n: Seq<char>| has_name(raised(s, i), n) <==> has_name(s, n),
{
    let r = raised(s, i);
    assert forall|n: Seq<char>| has_name(r, n) implies has_name(s, n) by {
        let k = choose|k: int| 0 <= k < r.len() && #[trigger] r[k].state.name@ == n;
        if k == r.len() - 1 {
            assert(s[i].state.name@ == n);
        } else if k < i {
            assert(s[k].state.name@ == n);
        } else {
            assert(s[k + 1].state.name@ == n);
        }
    }
    assert forall|n: Seq<char>| has_name(s, n) implies has_name(r, n) by {
        let k = choose|k: int| 0 <= k < s.len() && #[trigger] s[k].state.name@ == n;
        if k == i {
            assert(r[r.len() - 1].state.name@ == n);
        } else if k < i {
            assert(r[k].state.name@ == n);
        } else {
            assert(r[k - 1].state.name@ == n);
        }
    }
    if unique_names(s) {
        assert forall|a: int, b: int| 0 <= a < r.len() && 0 <= b < r.len() && a != b
            implies #[trigger] r[a].state.name@ != #[trigger] r[b].state.name@ by {
            let ia = if a == r.len() - 1 { i } else if a < i { a } else { a + 1 };
            let ib = if b == r.len() - 1 { i } else if b < i { b } else { b + 1 };
            assert(r[a] == s[ia]);
            assert(r[b] == s[ib]);
        }
    }
}

/// Removing the overlay at `i` keeps uniqueness and every other name.
proof fn lemma_removed_names<H>(s: Seq<ManagedOverlay<H>>, i: int)
    requires
        0 <= i < s.len(),
        unique_names(s),
    ensures
        unique_names(s.remove(i)),
        !has_name(s.remove(i), s[i].state.name@),
        forall|n: Seq<char>| n != s[i].state.name@ ==> (has_name(s.remove(i), n) <==> has_name(s, n)),
{
    let r = s.remove(i);
    assert forall|a: int, b: int| 0 <= a < r.len() && 0 <= b < r.len() && a != b
        implies #[trigger] r[a].state.name@ != #[trigger] r[b].state.name@ by {
        let ia = if a < i { a } else { a + 1 };
        let ib = if b < i { b } else { b + 1 };
        assert(r[a] == s[ia]);
        assert(r[b] == s[ib]);
    }
    if has_name(r, s[i].state.name@) {
        let k = choose|k: int| 0 <= k < r.len() && #[trigger] r[k].state.name@ == s[i].state.name@;
        let ik = if k < i { k } else { k + 1 };
        assert(r[k] == s[ik]);
    }
    assert forall|n: Seq<char>| n != s[i].state.name@ implies (has_name(r, n) <==> has_name(s, n)) by {
        if has_name(r, n) {
            let k = choose|k: int| 0 <= k < r.len() && #[trigger] r[k].state.name@ == n;
            let ik = if k < i { k } else { k + 1 };
            assert(r[k] == s[ik]);
            assert(s[ik].state.name@ == n);
        }
        if has_name(s, n) {
            let k = choose|k: int| 0 <= k < s.len() && #[trigger] s[k].state.name@ == n;
            if k < i {
                assert(r[k] == s[k]);
                assert(r[k].state.name@ == n);
            } else {
                assert(k != i);
                assert(r[k - 1] == s[k]);
                assert(r[k - 1].state.name@ == n);
            }
        }
    }
}

/// Pushing an overlay whose name is new keeps uniqueness and adds that name.
proof fn lemma_pushed_names<H>(s: Seq<ManagedOverlay<H>>, o: ManagedOverlay<H>)
    requires
        unique_names(s),
        !has_name(s, o.state.name@),
    ensures
        unique_names(s.push(o)),
        forall|n: Seq<char>| has_name(s.push(o), n) <==> (has_name(s, n) || n == o.state.name@),
{
    let r = s.push(o);
    assert forall|a: int, b: int| 0 <= a < r.len() && 0 <= b < r.len() && a != b
        implies #[trigger] r[a].state.name@ != #[trigger] r[b].state.name@ by {
        if a < s.len() && b < s.len() {
            assert(r[a] == s[a] && r[b] == s[b]);
        } else if a < s.len() {
            assert(r[a] == s[a]);
            assert(r[b] == o);
            if s[a].state.name@ == o.state.name@ {
                assert(has_name(s, o.state.name@));
            }
        } else {
            assert(r[b] == s[b]);
            assert(r[a] == o);
            if s[b].state.name@ == o.state.name@ {
                assert(has_name(s, o.state.name@));
            }
        }
    }
    assert forall|n: Seq<char>| has_name(r, n) <==> (has_name(s, n) || n == o.state.name@) by {
        if has_name(r, n) {
            let k = choose|k: int| 0 <= k < r.len() && #[trigger] r[k].state.name@ == n;
            if k < s.len() {
                assert(s[k] == r[k]);
            }
        }
        if has_name(s, n) {
            let k = choose|k: int| 0 <= k < s.len() && #[trigger] s[k].state.name@ == n;
            assert(r[k] == s[k]);
        }
        if n == o.state.name@ {
            assert(r[s.len() as int] == o);
        }
    }
}


/// The z-position `identifier` resolves to: the overlay with that name, or
/// the only overlay when no identifier is given.
pub open spec fn resolve_spec<H>(s: Seq<ManagedOverlay<H>>, identifier: Option<Seq<char>>) -> Option<int> {
    match identifier {
        Some(n) => if has_name(s, n) {
            Some(choose|i: int| 0 <= i < s.len() && #[trigger] s[i].state.name@ == n)
        } else {
            None
        },
        None => if s.len() == 1 {
            Some(0int)
        } else {
            None
        },
    }
}

/// `a` and `b` have the same names, position by position.
pub open spec fn same_names<H>(a: Seq<ManagedOverlay<H>>, b: Seq<ManagedOverlay<H>>) -> bool {
    a.len() == b.len() && forall|i: int| 0 <= i < a.len() ==> #[trigger] a[i].state.name@ == b[i].state.name@
}

/// Overlays with the same names have the same name facts.
proof fn lemma_same_names<H>(a: Seq<ManagedOverlay<H>>, b: Seq<ManagedOverlay<H>>)
    requires
        same_names(a, b),
    ensures
        unique_names(a) ==> unique_names(b),
        forall|n: Seq<char>| has_name(a, n) <==> has_name(b, n),
{
    assert forall|n: Seq<char>| has_name(a, n) <==> has_name(b, n) by {
        if has_name(a, n) {
            let k = choose|k: int| 0 <= k < a.len() && #[trigger] a[k].state.name@ == n;
            assert(b[k].state.name@ == n);
        }
        if has_name(b, n) {
            let k = choose|k: int| 0 <= k < b.len() && #[trigger] b[k].state.name@ == n;
            assert(a[k].state.name@ == n);
        }
    }
    if unique_names(a) {
        assert forall|i: int, j: int| 0 <= i < b.len() && 0 <= j < b.len() && i != j
            implies #[trigger] b[i].state.name@ != #[trigger] b[j].state.name@ by {
            assert(a[i].state.name@ == b[i].state.name@);
            assert(a[j].state.name@ == b[j].state.name@);
        }
    }
}


/// What the engine side reports about an overlay each frame.
#[derive(PartialEq, Eq, Structural, Clone, Copy, Debug)]
pub struct RuntimeFlags {
    pub hovered: bool,
    pub has_first_frame: bool,
    pub device_lost: bool,
    pub engine_running: bool,
    pub has_secondary_views: bool,
}

/// The point `(x, y)` lies in the visible overlay `o`: `x` in
/// `[o.x, o.x + width)` and `y` in `[o.y, o.y + height)`, the extents read as
/// `i32`.
pub open spec fn hit<H>(o: ManagedOverlay<H>, x: i32, y: i32) -> bool {
    &&& o.state.visible
    &&& x >= o.state.x
    &&& (x as int) < (o.state.x as int) + ((o.state.width as i32) as int)
    &&& y >= o.state.y
    &&& (y as int) < (o.state.y as int) + ((o.state.height as i32) as int)
}

/// The names of the visible overlays of `s` among positions `[lo, s.len())`,
/// bottom first.
pub open spec fn visible_names_from<H>(s: Seq<ManagedOverlay<H>>, lo: int) -> Seq<Seq<char>>
    decreases s.len() - lo,
{
    if lo >= s.len() {
        Seq::empty()
    } else if s[lo].state.visible {
        seq![s[lo].state.name@] + visible_names_from(s, lo + 1)
    } else {
        visible_names_from(s, lo + 1)
    }
}

/// The names of the visible overlays of `s` among positions `[0, hi)`, bottom
/// first.
pub open spec fn visible_names_upto<H>(s: Seq<ManagedOverlay<H>>, hi: int) -> Seq<Seq<char>>
    decreases hi,
{
    if hi <= 0 {
        Seq::empty()
    } else if s[hi - 1].state.visible {
        visible_names_upto(s, hi - 1).push(s[hi - 1].state.name@)
    } else {
        visible_names_upto(s, hi - 1)
    }
}

pub open spec fn string_views(v: Seq<String>) -> Seq<Seq<char>> {
    v.map_values(|t: String| t@)
}


/// Bit 30 of a key message's `LPARAM`: the key was already down (auto-repeat).
pub open spec fn repeat_bit(lparam: isize) -> bool {
    (lparam >> 30u32) & 1isize == 1isize
}

pub open spec fn is_key_down(msg: u32) -> bool {
    msg == WM_KEYDOWN || msg == WM_SYSKEYDOWN
}

pub open spec fn is_key_event(msg: u32) -> bool {
    msg == WM_KEYDOWN || msg == WM_SYSKEYDOWN || msg == WM_KEYUP || msg == WM_SYSKEYUP || msg == WM_CHAR
}

pub open spec fn is_button_down(msg: u32) -> bool {
    msg == WM_LBUTTONDOWN || msg == WM_RBUTTONDOWN || msg == WM_MBUTTONDOWN
}

pub open spec fn is_pointer_event(msg: u32) -> bool {
    msg == WM_MOUSEMOVE || msg == WM_LBUTTONDOWN || msg == WM_RBUTTONDOWN || msg == WM_MBUTTONDOWN
        || msg == WM_LBUTTONUP || msg == WM_RBUTTONUP || msg == WM_MBUTTONUP || msg == WM_NCMOUSELEAVE
        || msg == WM_MOUSEWHEEL
}

pub open spec fn keybind_matches(k: Keybind, vk: u16, mods: Modifiers) -> bool {
    k.vk == vk && k.ctrl == mods.ctrl && k.shift == mods.shift && k.alt == mods.alt
}

/// A visibility toggle answers a key-down: its keybind matches and either the
/// key repeats (the repeat is swallowed) or its overlay exists.
pub open spec fn toggle_fires<H, T>(t: VisibilityToggle<T>, s: Seq<ManagedOverlay<H>>, vk: u16, mods: Modifiers, rep: bool) -> bool {
    keybind_matches(t.keybind, vk, mods) && (rep || has_name(s, t.overlay_id@))
}

/// The first toggle, in registration order, that answers the key-down.
pub open spec fn first_toggle<H, T>(ts: Seq<VisibilityToggle<T>>, s: Seq<ManagedOverlay<H>>, vk: u16, mods: Modifiers, rep: bool) -> Option<int> {
    if exists|t: int| 0 <= t < ts.len() && #[trigger] toggle_fires(ts[t], s, vk, mods, rep) {
        Some(choose|t: int| 0 <= t < ts.len() && #[trigger] toggle_fires(ts[t], s, vk, mods, rep)
            && forall|u: int| 0 <= u < t ==> !#[trigger] toggle_fires(ts[u], s, vk, mods, rep))
    } else {
        None
    }
}

/// The first keybind action, in registration order, whose keybind matches.
pub open spec fn first_action<A>(acts: Seq<KeybindAction<A>>, vk: u16, mods: Modifiers) -> Option<int> {
    if exists|a: int| 0 <= a < acts.len() && #[trigger] keybind_matches(acts[a].keybind, vk, mods) {
        Some(choose|a: int| 0 <= a < acts.len() && #[trigger] keybind_matches(acts[a].keybind, vk, mods)
            && forall|u: int| 0 <= u < a ==> !#[trigger] keybind_matches(acts[u].keybind, vk, mods))
    } else {
        None
    }
}

/// A pointer event stops at a visible overlay whose pointer is over an
/// interactive widget.
pub open spec fn routes_to<H>(o: ManagedOverlay<H>) -> bool {
    o.state.visible && o.state.hovered
}

/// The topmost overlay a pointer event stops at.
pub open spec fn topmost_route<H>(s: Seq<ManagedOverlay<H>>) -> Option<int> {
    if exists|k: int| 0 <= k < s.len() && #[trigger] routes_to(s[k]) {
        Some(choose|k: int| 0 <= k < s.len() && #[trigger] routes_to(s[k])
            && forall|j: int| k < j < s.len() ==> !#[trigger] routes_to(s[j]))
    } else {
        None
    }
}

/// The names of the visible overlays at positions `[k, s.len())`, topmost
/// first: the overlays a pointer event is forwarded to.
pub open spec fn visible_names_desc_from<H>(s: Seq<ManagedOverlay<H>>, k: int) -> Seq<Seq<char>>
    decreases s.len() - k,
{
    if k >= s.len() || k < 0 {
        Seq::empty()
    } else if s[k].state.visible {
        visible_names_desc_from(s, k + 1).push(s[k].state.name@)
    } else {
        visible_names_desc_from(s, k + 1)
    }
}

/// The overlay `o` after its visibility keybind fired, with the screen size
/// and whether a host swap chain is known.
pub open spec fn toggled<H>(o: ManagedOverlay<H>, screen: (u32, u32), has_swap_chain: bool) -> ManagedOverlay<H> {
    if o.state.keep_alive {
        ManagedOverlay { state: OverlayState { ui_hidden: !o.state.ui_hidden, ..o.state }, ..o }
    } else if !o.state.visible && has_swap_chain {
        ManagedOverlay {
            state: OverlayState { visible: true, x: 0, y: 0, width: screen.0, height: screen.1, ..o.state },
            ..o
        }
    } else {
        ManagedOverlay { state: OverlayState { visible: !o.state.visible, ..o.state }, ..o }
    }
}

/// The visibility reported for `o` once its keybind fired: whether its UI
/// shows (keep-alive overlays) or whether it is visible.
pub open spec fn toggled_visibility<H>(o: ManagedOverlay<H>) -> bool {
    if o.state.keep_alive {
        o.state.ui_hidden
    } else {
        !o.state.visible
    }
}

/// Names of overlays whose geometry a resize to `g` changes, bottom first.
pub open spec fn resized_names_upto<H>(s: Seq<ManagedOverlay<H>>, hi: int, g: (i32, i32, u32, u32)) -> Seq<Seq<char>>
    decreases hi,
{
    if hi <= 0 {
        Seq::empty()
    } else if needs_resize(s[hi - 1], g) {
        resized_names_upto(s, hi - 1, g).push(s[hi - 1].state.name@)
    } else {
        resized_names_upto(s, hi - 1, g)
    }
}

/// A resize to `g` applies to `o`: its engine runs and its geometry differs.
pub open spec fn needs_resize<H>(o: ManagedOverlay<H>, g: (i32, i32, u32, u32)) -> bool {
    o.state.engine_running && (o.state.x, o.state.y, o.state.width, o.state.height) != g
}

pub open spec fn with_geometry<H>(o: ManagedOverlay<H>, g: (i32, i32, u32, u32)) -> ManagedOverlay<H> {
    ManagedOverlay { state: OverlayState { x: g.0, y: g.1, width: g.2, height: g.3, ..o.state }, ..o }
}



/// The cursors the hovered overlays at positions `[k, s.len())` would set
/// for a `WM_SETCURSOR` message, topmost first.
pub open spec fn cursor_candidates_from<H>(s: Seq<ManagedOverlay<H>>, k: int, for_host_window: bool, lparam: isize) -> Seq<CursorKind>
    decreases s.len() - k,
{
    if k >= s.len() || k < 0 {
        Seq::empty()
    } else {
        let rest = cursor_candidates_from(s, k + 1, for_host_window, lparam);
        let desired = match s[k].state.desired_cursor {
            Some(d) => Some(d@),
            None => None,
        };
        if s[k].state.hovered && set_cursor_spec(for_host_window, lparam, desired) is Some {
            rest.push(set_cursor_spec(for_host_window, lparam, desired)->0)
        } else {
            rest
        }
    }
}

/// Names of overlays whose device is lost, bottom first.
pub open spec fn lost_names_upto<H>(s: Seq<ManagedOverlay<H>>, hi: int) -> Seq<Seq<char>>
    decreases hi,
{
    if hi <= 0 {
        Seq::empty()
    } else if s[hi - 1].state.device_lost {
        lost_names_upto(s, hi - 1).push(s[hi - 1].state.name@)
    } else {
        lost_names_upto(s, hi - 1)
    }
}

/// Some overlay's device is lost.
pub open spec fn any_lost<H>(s: Seq<ManagedOverlay<H>>) -> bool {
    exists|i: int| 0 <= i < s.len() && #[trigger] s[i].state.device_lost
}

pub open spec fn toggle_other_key<T>(key: Seq<char>) -> spec_fn(VisibilityToggle<T>) -> bool {
    |t: VisibilityToggle<T>| t.key_name@ != key
}

pub open spec fn action_not_pair<A>(key: Seq<char>, action: Seq<char>) -> spec_fn(KeybindAction<A>) -> bool {
    |a: KeybindAction<A>| !(a.key_name@ == key && a.action_id@ == action)
}

pub open spec fn action_other_id<A>(action: Seq<char>) -> spec_fn(KeybindAction<A>) -> bool {
    |a: KeybindAction<A>| a.action_id@ != action
}


/// An overlay is composited this frame: it is visible and has a frame.
pub open spec fn composites<H>(o: ManagedOverlay<H>) -> bool {
    o.state.visible && o.state.has_first_frame
}

/// The overlay after a frame: a composited overlay's glitch countdown
/// advances, keeps the glitch shader while it runs, and clears the effect
/// when it reaches zero.
pub open spec fn after_frame<H>(o: ManagedOverlay<H>) -> ManagedOverlay<H> {
    if composites(o) && o.state.effect.frames_remaining > 0 {
        let remaining = (o.state.effect.frames_remaining - 1) as u32;
        let effect = if remaining == 0 {
            EffectState {
                kind: EffectKind::Passthrough,
                target: EffectTargetKind::Fullscreen,
                frames_remaining: 0,
                total_frames: o.state.effect.total_frames,
            }
        } else {
            EffectState { kind: EffectKind::Glitch, frames_remaining: remaining, ..o.state.effect }
        };
        ManagedOverlay { state: OverlayState { effect: effect, ..o.state }, ..o }
    } else {
        o
    }
}

/// What a frame does with each overlay, bottom first, as `(name,
/// composited, glitch countdown after the frame and its length)`; overlays
/// that are neither composited nor drive secondary views are left out.
pub open spec fn render_steps_upto<H>(s: Seq<ManagedOverlay<H>>, hi: int) -> Seq<(Seq<char>, bool, Option<(u32, u32)>)>
    decreases hi,
{
    if hi <= 0 {
        Seq::empty()
    } else {
        let o = s[hi - 1];
        let rest = render_steps_upto(s, hi - 1);
        if composites(o) {
            let glitch = if o.state.effect.frames_remaining > 0 {
                Some(((o.state.effect.frames_remaining - 1) as u32, o.state.effect.total_frames))
            } else {
                None
            };
            rest.push((o.state.name@, true, glitch))
        } else if o.state.has_secondary_views {
            rest.push((o.state.name@, false, None))
        } else {
            rest
        }
    }
}

pub open spec fn step_view(st: RenderStep) -> (Seq<char>, bool, Option<(u32, u32)>) {
    (st.name@, st.composite, st.glitch_frame)
}

/// Some overlay is composited this frame.
pub open spec fn any_composites<H>(s: Seq<ManagedOverlay<H>>) -> bool {
    exists|i: int| 0 <= i < s.len() && #[trigger] composites(s[i])
}

/// What a fired visibility toggle did.
pub struct ToggleOutcome {
    /// The toggle that fired; its callback is to be called.
    pub toggle_index: usize,
    pub overlay_id: String,
    /// The visibility reported to the callback and to the application.
    pub visible: bool,
    /// The `overlay/visibility` message for the overlay.
    pub message: PendingPlatformMessage,
    /// The overlay was shown again and must be resized to the screen (its
    /// geometry is already updated).
    pub force_resize: bool,
}

/// What handling one window message decided.
pub struct InputOutcome {
    /// Whether the message is consumed (before any key forwarding).
    pub consumed: bool,
    pub toggle: Option<ToggleOutcome>,
    /// A keybind action whose callback is to be called.
    pub fired_action: Option<usize>,
    /// For a fired keybind action: its overlay and the `overlay/keybind`
    /// message, carrying the action's id, to send it.
    pub action_message: Option<(String, PendingPlatformMessage)>,
    /// The overlay whose implicit view gets focus.
    pub focus_view: Option<String>,
    /// The overlays the pointer event is forwarded to, in order.
    pub pointer_targets: Vec<String>,
    /// The overlay the key event is forwarded to; the message is consumed
    /// when that overlay handles it.
    pub key_target: Option<String>,
}

impl InputOutcome {
    /// Whether the message ends up consumed once the fired toggle's callback,
    /// if one ran, has answered `callback_answer`: the callback decides.
    pub fn consumed_with(&self, callback_answer: Option<bool>) -> (b: bool)
        ensures
            b == match (self.toggle, callback_answer) {
                (Some(_), Some(v)) => v,
                _ => self.consumed,
            },
    {
        match (&self.toggle, callback_answer) {
            (Some(_), Some(v)) => v,
            _ => self.consumed,
        }
    }
}

/// What a frame does with one overlay.
pub struct RenderStep {
    pub name: String,
    /// Ticked, its effect advanced and its texture composited; otherwise only
    /// ticked for its secondary views.
    pub composite: bool,
    /// A running glitch: the frames left after this one and the glitch's
    /// length, from which the fade is computed.
    pub glitch_frame: Option<(u32, u32)>,
}

/// What one frame of the UI does.
pub struct RenderUiPlan {
    pub steps: Vec<RenderStep>,
    /// This is the first frame anything was composited: `overlay/system_ready`
    /// is to be broadcast.
    pub announce_ready: bool,
}

/// The manager of all overlays.
pub struct OverlayManager<H, T, A> {
    overlays: Vec<ManagedOverlay<H>>,
    focused: Option<String>,
    has_swap_chain: bool,
    screen_width: u32,
    screen_height: u32,
    recovery_cooldown: u32,
    system_ready: bool,
    visibility_toggles: Vec<VisibilityToggle<T>>,
    keybind_actions: Vec<KeybindAction<A>>,
}

impl<H, T, A> OverlayManager<H, T, A> {
    /// The overlays in z-order, topmost last.
    pub closed spec fn overlays(&self) -> Seq<ManagedOverlay<H>> {
        self.overlays@
    }

    /// The name of the overlay with keyboard focus.
    pub closed spec fn focused(&self) -> Option<Seq<char>> {
        match self.focused {
            Some(f) => Some(f@),
            None => None,
        }
    }

    pub closed spec fn has_swap_chain(&self) -> bool {
        self.has_swap_chain
    }

    pub closed spec fn screen(&self) -> (u32, u32) {
        (self.screen_width, self.screen_height)
    }

    pub closed spec fn cooldown(&self) -> u32 {
        self.recovery_cooldown
    }

    pub closed spec fn system_ready(&self) -> bool {
        self.system_ready
    }

    pub closed spec fn toggles(&self) -> Seq<VisibilityToggle<T>> {
        self.visibility_toggles@
    }

    pub closed spec fn actions(&self) -> Seq<KeybindAction<A>> {
        self.keybind_actions@
    }

    /// Names are unique, and focus names an overlay exactly when there is one.
    pub open spec fn wf(&self) -> bool {
        &&& unique_names(self.overlays())
        &&& match self.focused() {
            Some(f) => has_name(self.overlays(), f),
            None => self.overlays().len() == 0,
        }
    }

    /// Everything but the overlays and focus is as in `other`.
    pub open spec fn keeps_config(&self, other: &Self) -> bool {
        &&& self.toggles() == other.toggles()
        &&& self.actions() == other.actions()
        &&& self.screen() == other.screen()
        &&& self.cooldown() == other.cooldown()
        &&& self.has_swap_chain() == other.has_swap_chain()
        &&& self.system_ready() == other.system_ready()
    }

    /// An empty manager.
    pub fn new() -> (m: Self)
        ensures
            m.wf(),
            m.overlays().len() == 0,
            m.focused() is None,
            !m.has_swap_chain(),
            m.screen() == (0u32, 0u32),
            m.cooldown() == 0,
            !m.system_ready(),
            m.toggles().len() == 0,
            m.actions().len() == 0,
    {
        OverlayManager {
            overlays: Vec::new(),
            focused: None,
            has_swap_chain: false,
            screen_width: 0,
            screen_height: 0,
            recovery_cooldown: 0,
            system_ready: false,
            visibility_toggles: Vec::new(),
            keybind_actions: Vec::new(),
        }
    }

    /// The number of overlays.
    pub fn len(&self) -> (n: usize)
        ensures
            n == self.overlays().len(),
    {
        self.overlays.len()
    }

    /// The overlay at z-position `i` (0 is the bottom).
    pub fn entry(&self, i: usize) -> (o: &ManagedOverlay<H>)
        requires
            i < self.overlays().len(),
        ensures
            *o == self.overlays()[i as int],
    {
        &self.overlays[i]
    }

    /// The z-position of the overlay named `id`, if any.
    pub fn position_of(&self, id: &str) -> (r: Option<usize>)
        ensures
            match r {
                Some(i) => i < self.overlays().len() && self.overlays()[i as int].state.name@ == id@,
                None => !has_name(self.overlays(), id@),
            },
    {
        let key = String::from_str(id);
        let mut i: usize = 0;
        while i < self.overlays.len()
            invariant
                key@ == id@,
                i <= self.overlays@.len(),
                forall|j: int| 0 <= j < i ==> #[trigger] self.overlays@[j].state.name@ != id@,
            decreases self.overlays@.len() - i,
        {
            if self.overlays[i].state.name == key {
                return Some(i);
            }
            i = i + 1;
        }
        None
    }

    /// Resolves `identifier` to an overlay: the named one, or the only one
    /// when no identifier is given.
    pub fn get_instance(&self, identifier: Option<&str>) -> (r: Result<usize, String>)
        ensures
            lookup(self.overlays(), opt_view(identifier), r),
    {
        match identifier {
            Some(id) => match self.position_of(id) {
                Some(i) => Ok(i),
                None => {
                    let mut e = String::from_str("No overlay with identifier '");
                    e.append(id);
                    e.append("' found.");
                    proof {
                        reveal_strlit("No overlay with identifier '");
                        reveal_strlit("' found.");
                    }
                    Err(e)
                },
            },
            None => {
                if self.overlays.len() == 1 {
                    Ok(0)
                } else if self.overlays.len() == 0 {
                    Err(String::from_str("No active overlay instance found."))
                } else {
                    Err(String::from_str("Multiple overlays exist; an identifier is required."))
                }
            },
        }
    }

    /// The z-position `identifier` resolves to, if any.
    pub fn resolve(&self, identifier: Option<&str>) -> (r: Option<usize>)
        requires
            self.wf(),
        ensures
            match r {
                Some(i) => resolve_spec(self.overlays(), opt_view(identifier)) == Some(i as int)
                    && i < self.overlays().len(),
                None => resolve_spec(self.overlays(), opt_view(identifier)) is None,
            },
    {
        let r = self.get_instance(identifier);
        match r {
            Ok(i) => {
                proof {
                    match opt_view(identifier) {
                        Some(n) => {
                            assert(has_name(self.overlays@, n)) by { assert(self.overlays@[i as int].state.name@ == n); }
                            let c = choose|k: int| 0 <= k < self.overlays@.len() && #[trigger] self.overlays@[k].state.name@ == n;
                            if c != i as int {
                                assert(self.overlays@[c].state.name@ != self.overlays@[i as int].state.name@);
                            }
                        },
                        None => {},
                    }
                }
                Some(i)
            },
            Err(_) => None,
        }
    }

    /// Moves the resolved overlay to the top of the z-order. Nothing happens
    /// when `identifier` does not resolve.
    pub fn bring_to_front(&mut self, identifier: Option<&str>)
        requires
            old(self).wf(),
        ensures
            final(self).wf(),
            final(self).focused() == old(self).focused(),
            final(self).overlays() == match resolve_spec(old(self).overlays(), opt_view(identifier)) {
                Some(i) => raised(old(self).overlays(), i),
                None => old(self).overlays(),
            },
            final(self).keeps_config(old(self)),
    {
        match self.resolve(identifier) {
            Some(i) => self.raise(i),
            None => {},
        }
    }

    fn raise(&mut self, i: usize)
        requires
            old(self).wf(),
            i < old(self).overlays().len(),
        ensures
            final(self).wf(),
            final(self).overlays() == raised(old(self).overlays(), i as int),
            final(self).focused() == old(self).focused(),
            final(self).keeps_config(old(self)),
    {
        proof { lemma_raised_names(self.overlays@, i as int); }
        let o = self.overlays.remove(i);
        self.overlays.push(o);
    }

    /// Gives keyboard focus to the resolved overlay and brings it to the
    /// front. Nothing happens when `identifier` does not resolve.
    pub fn set_keyboard_focus(&mut self, identifier: Option<&str>)
        requires
            old(self).wf(),
        ensures
            final(self).wf(),
            match resolve_spec(old(self).overlays(), opt_view(identifier)) {
                Some(i) => final(self).overlays() == raised(old(self).overlays(), i)
                    && final(self).focused() == Some(old(self).overlays()[i].state.name@),
                None => final(self).overlays() == old(self).overlays()
                    && final(self).focused() == old(self).focused(),
            },
            final(self).keeps_config(old(self)),
    {
        match self.resolve(identifier) {
            Some(i) => {
                let name = self.overlays[i].state.name.clone();
                proof {
                    lemma_raised_names(self.overlays@, i as int);
                    assert(self.overlays@[i as int].state.name@ == raised(self.overlays@, i as int).last().state.name@);
                }
                self.raise(i);
                self.focused = Some(name);
            },
            None => {},
        }
    }

    /// Whether the resolved overlay has keyboard focus.
    pub fn is_focused(&self, identifier: Option<&str>) -> (b: bool)
        requires
            self.wf(),
        ensures
            b == match resolve_spec(self.overlays(), opt_view(identifier)) {
                Some(i) => self.focused() == Some(self.overlays()[i].state.name@),
                None => false,
            },
    {
        match self.resolve(identifier) {
            Some(i) => match &self.focused {
                Some(f) => *f == self.overlays[i].state.name,
                None => false,
            },
            None => false,
        }
    }


    /// Sets the resolved overlay's visibility. Nothing happens when
    /// `identifier` does not resolve.
    pub fn set_overlay_visibility(&mut self, identifier: Option<&str>, visible: bool)
        requires
            old(self).wf(),
        ensures
            final(self).wf(),
            final(self).overlays() == match resolve_spec(old(self).overlays(), opt_view(identifier)) {
                Some(i) => old(self).overlays().update(i, ManagedOverlay {
                    state: OverlayState { visible, ..old(self).overlays()[i].state },
                    ..old(self).overlays()[i]
                }),
                None => old(self).overlays(),
            },
            final(self).focused() == old(self).focused(),
            final(self).keeps_config(old(self)),
    {
        match self.resolve(identifier) {
            Some(i) => {
                let ghost s0 = self.overlays@;
                self.overlays[i].state.visible = visible;
                proof { lemma_same_names(s0, self.overlays@); }
            },
            None => {},
        }
    }

    /// Moves the resolved overlay. Returns whether the engine must be told
    /// the new window metrics (the overlay resolved and its engine runs).
    pub fn set_overlay_position(&mut self, identifier: Option<&str>, x: i32, y: i32) -> (send_metrics: bool)
        requires
            old(self).wf(),
        ensures
            final(self).wf(),
            final(self).overlays() == match resolve_spec(old(self).overlays(), opt_view(identifier)) {
                Some(i) => old(self).overlays().update(i, ManagedOverlay {
                    state: OverlayState { x, y, ..old(self).overlays()[i].state },
                    ..old(self).overlays()[i]
                }),
                None => old(self).overlays(),
            },
            final(self).focused() == old(self).focused(),
            final(self).keeps_config(old(self)),
            send_metrics == match resolve_spec(old(self).overlays(), opt_view(identifier)) {
                Some(i) => old(self).overlays()[i].state.engine_running,
                None => false,
            },
    {
        match self.resolve(identifier) {
            Some(i) => {
                let ghost s0 = self.overlays@;
                self.overlays[i].state.x = x;
                self.overlays[i].state.y = y;
                proof { lemma_same_names(s0, self.overlays@); }
                self.overlays[i].state.engine_running
            },
            None => { false },
        }
    }

    /// Sets whether the visibility keybind only hides the resolved overlay's UI.
    pub fn set_keep_alive(&mut self, identifier: Option<&str>, keep_alive: bool)
        requires
            old(self).wf(),
        ensures
            final(self).wf(),
            final(self).overlays() == match resolve_spec(old(self).overlays(), opt_view(identifier)) {
                Some(i) => old(self).overlays().update(i, ManagedOverlay {
                    state: OverlayState { keep_alive, ..old(self).overlays()[i].state },
                    ..old(self).overlays()[i]
                }),
                None => old(self).overlays(),
            },
            final(self).focused() == old(self).focused(),
            final(self).keeps_config(old(self)),
    {
        match self.resolve(identifier) {
            Some(i) => {
                let ghost s0 = self.overlays@;
                self.overlays[i].state.keep_alive = keep_alive;
                proof { lemma_same_names(s0, self.overlays@); }
                
            },
            None => {  },
        }
    }

    /// Applies `kind` to the whole of the resolved overlay.
    pub fn set_fullscreen_effect(&mut self, identifier: Option<&str>, kind: EffectKind)
        requires
            old(self).wf(),
        ensures
            final(self).wf(),
            final(self).overlays() == match resolve_spec(old(self).overlays(), opt_view(identifier)) {
                Some(i) => old(self).overlays().update(i, ManagedOverlay {
                    state: OverlayState { effect: EffectState { kind, target: EffectTargetKind::Fullscreen, ..old(self).overlays()[i].state.effect }, ..old(self).overlays()[i].state },
                    ..old(self).overlays()[i]
                }),
                None => old(self).overlays(),
            },
            final(self).focused() == old(self).focused(),
            final(self).keeps_config(old(self)),
    {
        match self.resolve(identifier) {
            Some(i) => {
                let ghost s0 = self.overlays@;
                self.overlays[i].state.effect.kind = kind;
                self.overlays[i].state.effect.target = EffectTargetKind::Fullscreen;
                proof { lemma_same_names(s0, self.overlays@); }
                
            },
            None => {  },
        }
    }

    /// Applies `kind` to one widget's rectangle of the resolved overlay.
    pub fn set_widget_effect(&mut self, identifier: Option<&str>, kind: EffectKind)
        requires
            old(self).wf(),
        ensures
            final(self).wf(),
            final(self).overlays() == match resolve_spec(old(self).overlays(), opt_view(identifier)) {
                Some(i) => old(self).overlays().update(i, ManagedOverlay {
                    state: OverlayState { effect: EffectState { kind, target: EffectTargetKind::Widget, ..old(self).overlays()[i].state.effect }, ..old(self).overlays()[i].state },
                    ..old(self).overlays()[i]
                }),
                None => old(self).overlays(),
            },
            final(self).focused() == old(self).focused(),
            final(self).keeps_config(old(self)),
    {
        match self.resolve(identifier) {
            Some(i) => {
                let ghost s0 = self.overlays@;
                self.overlays[i].state.effect.kind = kind;
                self.overlays[i].state.effect.target = EffectTargetKind::Widget;
                proof { lemma_same_names(s0, self.overlays@); }
                
            },
            None => {  },
        }
    }

    /// Replaces the resolved overlay's effect configuration (a running glitch
    /// countdown is kept).
    pub fn update_effect_config(&mut self, identifier: Option<&str>, kind: EffectKind, target: EffectTargetKind)
        requires
            old(self).wf(),
        ensures
            final(self).wf(),
            final(self).overlays() == match resolve_spec(old(self).overlays(), opt_view(identifier)) {
                Some(i) => old(self).overlays().update(i, ManagedOverlay {
                    state: OverlayState { effect: EffectState { kind, target, ..old(self).overlays()[i].state.effect }, ..old(self).overlays()[i].state },
                    ..old(self).overlays()[i]
                }),
                None => old(self).overlays(),
            },
            final(self).focused() == old(self).focused(),
            final(self).keeps_config(old(self)),
    {
        match self.resolve(identifier) {
            Some(i) => {
                let ghost s0 = self.overlays@;
                self.overlays[i].state.effect.kind = kind;
                self.overlays[i].state.effect.target = target;
                proof { lemma_same_names(s0, self.overlays@); }
                
            },
            None => {  },
        }
    }

    /// Removes the resolved overlay's effect (a running glitch countdown is kept).
    pub fn clear_effect(&mut self, identifier: Option<&str>)
        requires
            old(self).wf(),
        ensures
            final(self).wf(),
            final(self).overlays() == match resolve_spec(old(self).overlays(), opt_view(identifier)) {
                Some(i) => old(self).overlays().update(i, ManagedOverlay {
                    state: OverlayState { effect: EffectState { kind: EffectKind::Passthrough, target: EffectTargetKind::Fullscreen, ..old(self).overlays()[i].state.effect }, ..old(self).overlays()[i].state },
                    ..old(self).overlays()[i]
                }),
                None => old(self).overlays(),
            },
            final(self).focused() == old(self).focused(),
            final(self).keeps_config(old(self)),
    {
        match self.resolve(identifier) {
            Some(i) => {
                let ghost s0 = self.overlays@;
                self.overlays[i].state.effect.kind = EffectKind::Passthrough;
                self.overlays[i].state.effect.target = EffectTargetKind::Fullscreen;
                proof { lemma_same_names(s0, self.overlays@); }
                
            },
            None => {  },
        }
    }

    /// Starts a fullscreen glitch on the resolved overlay that fades out over
    /// `frames` frames.
    pub fn trigger_glitch_effect(&mut self, identifier: Option<&str>, frames: u32)
        requires
            old(self).wf(),
        ensures
            final(self).wf(),
            final(self).overlays() == match resolve_spec(old(self).overlays(), opt_view(identifier)) {
                Some(i) => old(self).overlays().update(i, ManagedOverlay {
                    state: OverlayState { effect: EffectState { kind: EffectKind::Glitch, target: EffectTargetKind::Fullscreen, frames_remaining: frames, total_frames: frames }, ..old(self).overlays()[i].state },
                    ..old(self).overlays()[i]
                }),
                None => old(self).overlays(),
            },
            final(self).focused() == old(self).focused(),
            final(self).keeps_config(old(self)),
    {
        match self.resolve(identifier) {
            Some(i) => {
                let ghost s0 = self.overlays@;
                self.overlays[i].state.effect = EffectState {
                    kind: EffectKind::Glitch,
                    target: EffectTargetKind::Fullscreen,
                    frames_remaining: frames,
                    total_frames: frames,
                };
                proof { lemma_same_names(s0, self.overlays@); }
                
            },
            None => {  },
        }
    }

    /// Records what the engine side reports about the named overlay. Returns
    /// whether the name is known.
    pub fn sync_runtime(&mut self, identifier: &str, flags: RuntimeFlags) -> (found: bool)
        requires
            old(self).wf(),
        ensures
            final(self).wf(),
            found == resolve_spec(old(self).overlays(), Some(identifier@)) is Some,
            final(self).overlays() == match resolve_spec(old(self).overlays(), Some(identifier@)) {
                Some(i) => old(self).overlays().update(i, ManagedOverlay {
                    state: OverlayState {
                        hovered: flags.hovered,
                        has_first_frame: flags.has_first_frame,
                        device_lost: flags.device_lost,
                        engine_running: flags.engine_running,
                        has_secondary_views: flags.has_secondary_views,
                        ..old(self).overlays()[i].state
                    },
                    ..old(self).overlays()[i]
                }),
                None => old(self).overlays(),
            },
            final(self).focused() == old(self).focused(),
            final(self).keeps_config(old(self)),
    {
        match self.resolve(Some(identifier)) {
            Some(i) => {
                let ghost s0 = self.overlays@;
                self.overlays[i].state.hovered = flags.hovered;
                self.overlays[i].state.has_first_frame = flags.has_first_frame;
                self.overlays[i].state.device_lost = flags.device_lost;
                self.overlays[i].state.engine_running = flags.engine_running;
                self.overlays[i].state.has_secondary_views = flags.has_secondary_views;
                proof { lemma_same_names(s0, self.overlays@); }
                true
            },
            None => false,
        }
    }

    /// Records the cursor kind the named overlay's application asked for.
    pub fn set_desired_cursor(&mut self, identifier: &str, kind: Option<String>)
        requires
            old(self).wf(),
        ensures
            final(self).wf(),
            final(self).overlays() == match resolve_spec(old(self).overlays(), Some(identifier@)) {
                Some(i) => old(self).overlays().update(i, ManagedOverlay {
                    state: OverlayState { desired_cursor: kind, ..old(self).overlays()[i].state },
                    ..old(self).overlays()[i]
                }),
                None => old(self).overlays(),
            },
            final(self).focused() == old(self).focused(),
            final(self).keeps_config(old(self)),
    {
        match self.resolve(Some(identifier)) {
            Some(i) => {
                let ghost s0 = self.overlays@;
                self.overlays[i].state.desired_cursor = kind;
                proof { lemma_same_names(s0, self.overlays@); }
            },
            None => {},
        }
    }

    /// The name of the topmost visible overlay containing the point, if any.
    pub fn find_topmost_overlay_at_position(&self, x: i32, y: i32) -> (r: Option<String>)
        ensures
            match r {
                Some(n) => exists|i: int| 0 <= i < self.overlays().len()
                    && #[trigger] hit(self.overlays()[i], x, y)
                    && n@ == self.overlays()[i].state.name@
                    && forall|j: int| i < j < self.overlays().len() ==> !#[trigger] hit(self.overlays()[j], x, y),
                None => forall|j: int| 0 <= j < self.overlays().len() ==> !#[trigger] hit(self.overlays()[j], x, y),
            },
    {
        let mut k: usize = self.overlays.len();
        while k > 0
            invariant
                k <= self.overlays@.len(),
                self.overlays@ == self.overlays(),
                forall|j: int| k <= j < self.overlays().len() ==> !#[trigger] hit(self.overlays()[j], x, y),
            decreases k,
        {
            let i = k - 1;
            let st = &self.overlays[i].state;
            if st.visible {
                let w: i32 = #[verifier::truncate] (st.width as i32);
                let h: i32 = #[verifier::truncate] (st.height as i32);
                let right: i64 = st.x as i64 + w as i64;
                let bottom: i64 = st.y as i64 + h as i64;
                if x >= st.x && (x as i64) < right && y >= st.y && (y as i64) < bottom {
                    assert(hit(self.overlays()[i as int], x, y));
                    return Some(st.name.clone());
                }
            }
            k = i;
        }
        None
    }

    /// Whether any overlay has produced a frame.
    pub fn has_rendered_frame(&self) -> (b: bool)
        ensures
            b == exists|i: int| 0 <= i < self.overlays().len() && #[trigger] self.overlays()[i].state.has_first_frame,
    {
        let mut i: usize = 0;
        while i < self.overlays.len()
            invariant
                i <= self.overlays@.len(),
                forall|j: int| 0 <= j < i ==> !#[trigger] self.overlays@[j].state.has_first_frame,
            decreases self.overlays@.len() - i,
        {
            if self.overlays[i].state.has_first_frame {
                return true;
            }
            i = i + 1;
        }
        false
    }

    /// The overlay that is to host a new secondary view. A host swap chain
    /// must be known and the host device must have been had from it
    /// (`device_error` is the reason it could not); then the identifier is
    /// resolved, its lookup error becoming an operation failure.
    pub fn view_host(&self, identifier: Option<&str>, device_error: Option<&str>) -> (r: Result<usize, FlutterEmbedderError>)
        ensures
            !self.has_swap_chain() ==> (r matches Err(FlutterEmbedderError::OperationFailed(m))
                && m@ == "OverlayManager has no swap chain; cannot derive game device"@),
            self.has_swap_chain() && device_error is Some ==> (r matches Err(FlutterEmbedderError::OperationFailed(m))
                && m@ == "swap_chain.GetDevice failed: "@ + device_error->0@),
            self.has_swap_chain() && device_error is None ==> match r {
                Ok(i) => lookup(self.overlays(), opt_view(identifier), Ok::<usize, String>(i)),
                Err(e) => e matches FlutterEmbedderError::OperationFailed(m)
                    && lookup(self.overlays(), opt_view(identifier), Err::<usize, String>(m)),
            },
    {
        if !self.has_swap_chain {
            return Err(FlutterEmbedderError::OperationFailed(String::from_str(
                "OverlayManager has no swap chain; cannot derive game device",
            )));
        }
        match device_error {
            Some(e) => {
                let mut m = String::from_str("swap_chain.GetDevice failed: ");
                m.append(e);
                return Err(FlutterEmbedderError::OperationFailed(m));
            },
            None => {},
        }
        match self.get_instance(identifier) {
            Ok(i) => Ok(i),
            Err(m) => Err(FlutterEmbedderError::OperationFailed(m)),
        }
    }

    /// For every overlay, bottom first, its name and whether its own texture
    /// is ticked this frame: only a visible overlay that has produced a frame
    /// is. Every overlay then ticks its secondary views and asks for a frame.
    pub fn plan_tick_overlays(&self) -> (plan: Vec<(String, bool)>)
        ensures
            plan@.len() == self.overlays().len(),
            forall|i: int| 0 <= i < plan@.len() ==> {
                &&& (#[trigger] plan@[i]).0@ == self.overlays()[i].state.name@
                &&& plan@[i].1 == (self.overlays()[i].state.visible && self.overlays()[i].state.has_first_frame)
            },
    {
        let mut plan: Vec<(String, bool)> = Vec::new();
        let mut i: usize = 0;
        while i < self.overlays.len()
            invariant
                i <= self.overlays@.len(),
                plan@.len() == i,
                forall|j: int| 0 <= j < i ==> {
                    &&& (#[trigger] plan@[j]).0@ == self.overlays@[j].state.name@
                    &&& plan@[j].1 == (self.overlays@[j].state.visible && self.overlays@[j].state.has_first_frame)
                },
            decreases self.overlays@.len() - i,
        {
            let st = &self.overlays[i].state;
            plan.push((st.name.clone(), st.visible && st.has_first_frame));
            i = i + 1;
        }
        plan
    }

    /// The size of every overlay, bottom first.
    pub fn get_all_overlay_dimensions(&self) -> (dims: Vec<(String, (u32, u32))>)
        ensures
            dims@.len() == self.overlays().len(),
            forall|i: int| 0 <= i < dims@.len() ==> {
                &&& (#[trigger] dims@[i]).0@ == self.overlays()[i].state.name@
                &&& dims@[i].1 == (self.overlays()[i].state.width, self.overlays()[i].state.height)
            },
    {
        let mut dims: Vec<(String, (u32, u32))> = Vec::new();
        let mut i: usize = 0;
        while i < self.overlays.len()
            invariant
                i <= self.overlays@.len(),
                dims@.len() == i,
                forall|j: int| 0 <= j < i ==> {
                    &&& (#[trigger] dims@[j]).0@ == self.overlays@[j].state.name@
                    &&& dims@[j].1 == (self.overlays@[j].state.width, self.overlays@[j].state.height)
                },
            decreases self.overlays@.len() - i,
        {
            let st = &self.overlays[i].state;
            dims.push((st.name.clone(), (st.width, st.height)));
            i = i + 1;
        }
        dims
    }

    /// The names of the visible overlays, bottom first: the order in which
    /// they are composited.
    pub fn visible_names(&self) -> (names: Vec<String>)
        ensures
            string_views(names@) == visible_names_upto(self.overlays(), self.overlays().len() as int),
    {
        let mut names: Vec<String> = Vec::new();
        let mut i: usize = 0;
        while i < self.overlays.len()
            invariant
                i <= self.overlays@.len(),
                string_views(names@) == visible_names_upto(self.overlays@, i as int),
            decreases self.overlays@.len() - i,
        {
            if self.overlays[i].state.visible {
                let ghost before = names@;
                names.push(self.overlays[i].state.name.clone());
                proof {
                    assert(string_views(names@) =~= string_views(before).push(self.overlays@[i as int].state.name@));
                }
            }
            i = i + 1;
        }
        names
    }

    /// The message to queue on every visible overlay, with the overlays'
    /// names, bottom first.
    pub fn broadcast_platform_message(&self, channel: &str, message: &[u8]) -> (out: Vec<(String, PendingPlatformMessage)>)
        ensures
            out@.map_values(|e: (String, PendingPlatformMessage)| e.0@)
                == visible_names_upto(self.overlays(), self.overlays().len() as int),
            forall|i: int| 0 <= i < out@.len() ==> {
                &&& (#[trigger] out@[i]).1.channel@ == channel@
                &&& out@[i].1.payload_bytes@ == message@
            },
    {
        let mut out: Vec<(String, PendingPlatformMessage)> = Vec::new();
        let mut i: usize = 0;
        while i < self.overlays.len()
            invariant
                i <= self.overlays@.len(),
                out@.map_values(|e: (String, PendingPlatformMessage)| e.0@) == visible_names_upto(self.overlays@, i as int),
                forall|j: int| 0 <= j < out@.len() ==> {
                    &&& (#[trigger] out@[j]).1.channel@ == channel@
                    &&& out@[j].1.payload_bytes@ == message@
                },
            decreases self.overlays@.len() - i,
        {
            if self.overlays[i].state.visible {
                let ghost before = out@;
                out.push((self.overlays[i].state.name.clone(), PendingPlatformMessage::new(channel, message)));
                proof {
                    assert(out@.map_values(|e: (String, PendingPlatformMessage)| e.0@)
                        =~= before.map_values(|e: (String, PendingPlatformMessage)| e.0@).push(self.overlays@[i as int].state.name@));
                }
            }
            i = i + 1;
        }
        out
    }

    /// Records the screen size (the host's back buffer).
    pub fn update_screen_size(&mut self, width: u32, height: u32)
        requires
            old(self).wf(),
        ensures
            final(self).wf(),
            final(self).screen() == (width, height),
            final(self).overlays() == old(self).overlays(),
            final(self).focused() == old(self).focused(),
            final(self).toggles() == old(self).toggles(),
            final(self).actions() == old(self).actions(),
            final(self).cooldown() == old(self).cooldown(),
            final(self).has_swap_chain() == old(self).has_swap_chain(),
            final(self).system_ready() == old(self).system_ready(),
    {
        self.screen_width = width;
        self.screen_height = height;
    }

    /// Prepares the creation of overlay `identifier` on a host swap chain of
    /// `width` x `height`: an overlay already registered under that name is
    /// taken out (its handle is returned to be shut down, and it is replaced
    /// once the new overlay is created), and the screen size and the swap
    /// chain are recorded.
    pub fn begin_init(&mut self, identifier: &str, width: u32, height: u32) -> (replaced: Option<H>)
        requires
            old(self).wf(),
        ensures
            final(self).wf(),
            match replaced {
                Some(h) => exists|i: int| 0 <= i < old(self).overlays().len()
                    && #[trigger] old(self).overlays()[i].state.name@ == identifier@
                    && h == old(self).overlays()[i].handle
                    && final(self).overlays() == old(self).overlays().remove(i),
                None => !has_name(old(self).overlays(), identifier@)
                    && final(self).overlays() == old(self).overlays(),
            },
            !has_name(final(self).overlays(), identifier@),
            final(self).focused() == if old(self).focused() == Some(identifier@) {
                if final(self).overlays().len() == 0 {
                    None
                } else {
                    Some(final(self).overlays().last().state.name@)
                }
            } else {
                old(self).focused()
            },
            final(self).screen() == (width, height),
            final(self).has_swap_chain(),
            final(self).toggles() == old(self).toggles(),
            final(self).actions() == old(self).actions(),
            final(self).cooldown() == old(self).cooldown(),
            final(self).system_ready() == old(self).system_ready(),
    {
        let replaced = self.shutdown_instance(identifier);
        self.screen_width = width;
        self.screen_height = height;
        self.has_swap_chain = true;
        replaced
    }

    /// The first visibility toggle that answers a key-down of `vk`.
    fn find_toggle(&self, vk: u16, mods: Modifiers, rep: bool) -> (r: Option<usize>)
        requires
            self.wf(),
        ensures
            match r {
                Some(t) => first_toggle(self.toggles(), self.overlays(), vk, mods, rep) == Some(t as int)
                    && t < self.toggles().len() && toggle_fires(self.toggles()[t as int], self.overlays(), vk, mods, rep),
                None => first_toggle(self.toggles(), self.overlays(), vk, mods, rep) is None,
            },
    {
        let ghost ts = self.toggles();
        let ghost ov = self.overlays();
        let mut t: usize = 0;
        while t < self.visibility_toggles.len()
            invariant
                ts == self.toggles(),
                ov == self.overlays(),
                self.visibility_toggles@ == ts,
                t <= ts.len(),
                forall|u: int| 0 <= u < t ==> !#[trigger] toggle_fires(ts[u], ov, vk, mods, rep),
            decreases ts.len() - t,
        {
            let tg = &self.visibility_toggles[t];
            if tg.keybind.matches(vk, mods) {
                let fires = if rep {
                    true
                } else {
                    match self.position_of(tg.overlay_id.as_str()) {
                        Some(_) => true,
                        None => false,
                    }
                };
                if fires {
                    proof {
                        assert(toggle_fires(ts[t as int], ov, vk, mods, rep));
                        let c = choose|c: int| 0 <= c < ts.len() && #[trigger] toggle_fires(ts[c], ov, vk, mods, rep)
                            && forall|u: int| 0 <= u < c ==> !#[trigger] toggle_fires(ts[u], ov, vk, mods, rep);
                        if c < t as int {
                            assert(!toggle_fires(ts[c], ov, vk, mods, rep));
                        } else if c > t as int {
                            assert(!toggle_fires(ts[t as int], ov, vk, mods, rep));
                        }
                    }
                    return Some(t);
                }
            }
            t = t + 1;
        }
        None
    }

    /// The first keybind action whose keybind matches `vk`.
    fn find_action(&self, vk: u16, mods: Modifiers) -> (r: Option<usize>)
        ensures
            match r {
                Some(a) => first_action(self.actions(), vk, mods) == Some(a as int) && a < self.actions().len(),
                None => first_action(self.actions(), vk, mods) is None,
            },
    {
        let ghost acts = self.actions();
        let mut a: usize = 0;
        while a < self.keybind_actions.len()
            invariant
                acts == self.actions(),
                self.keybind_actions@ == acts,
                a <= acts.len(),
                forall|u: int| 0 <= u < a ==> !#[trigger] keybind_matches(acts[u].keybind, vk, mods),
            decreases acts.len() - a,
        {
            if self.keybind_actions[a].keybind.matches(vk, mods) {
                proof {
                    assert(keybind_matches(acts[a as int].keybind, vk, mods));
                    let c = choose|c: int| 0 <= c < acts.len() && #[trigger] keybind_matches(acts[c].keybind, vk, mods)
                        && forall|u: int| 0 <= u < c ==> !#[trigger] keybind_matches(acts[u].keybind, vk, mods);
                    if c < a as int {
                        assert(!keybind_matches(acts[c].keybind, vk, mods));
                    } else if c > a as int {
                        assert(!keybind_matches(acts[a as int].keybind, vk, mods));
                    }
                }
                return Some(a);
            }
            a = a + 1;
        }
        None
    }

    /// Applies the visibility toggle `t` to its overlay.
    fn apply_toggle(&mut self, t: usize) -> (o: ToggleOutcome)
        requires
            old(self).wf(),
            t < old(self).toggles().len(),
            has_name(old(self).overlays(), old(self).toggles()[t as int].overlay_id@),
        ensures
            final(self).wf(),
            ({
                let i = resolve_spec(old(self).overlays(), Some(old(self).toggles()[t as int].overlay_id@))->0;
                let before = old(self).overlays()[i];
                &&& final(self).overlays() == old(self).overlays().update(
                    i,
                    toggled(before, old(self).screen(), old(self).has_swap_chain()),
                )
                &&& o.visible == toggled_visibility(before)
                &&& o.force_resize == (!before.state.keep_alive && !before.state.visible && old(self).has_swap_chain())
            }),
            o.toggle_index == t,
            o.overlay_id@ == old(self).toggles()[t as int].overlay_id@,
            o.message.channel@ == "overlay/visibility"@,
            o.message.payload_bytes@ == encode_utf8(if o.visible { "true"@ } else { "false"@ }),
            final(self).focused() == old(self).focused(),
            final(self).keeps_config(old(self)),
    {
        let id = self.visibility_toggles[t].overlay_id.clone();
        let i = match self.resolve(Some(id.as_str())) {
            Some(i) => i,
            None => {
                proof { assert(false); }
                0
            },
        };
        let ghost s0 = self.overlays@;
        let visible: bool;
        let mut force_resize = false;
        if self.overlays[i].state.keep_alive {
            let hidden = !self.overlays[i].state.ui_hidden;
            self.overlays[i].state.ui_hidden = hidden;
            visible = !hidden;
        } else {
            let was = self.overlays[i].state.visible;
            self.overlays[i].state.visible = !was;
            if !was && self.has_swap_chain {
                self.overlays[i].state.x = 0;
                self.overlays[i].state.y = 0;
                self.overlays[i].state.width = self.screen_width;
                self.overlays[i].state.height = self.screen_height;
                force_resize = true;
            }
            visible = !was;
        }
        proof { lemma_same_names(s0, self.overlays@); }
        let message = if visible {
            PendingPlatformMessage::text("overlay/visibility", "true")
        } else {
            PendingPlatformMessage::text("overlay/visibility", "false")
        };
        ToggleOutcome { toggle_index: t, overlay_id: id, visible, message, force_resize }
    }

    /// The message announcing keybind action `a` to its overlay.
    fn action_message(&self, a: usize) -> (m: (String, PendingPlatformMessage))
        requires
            a < self.actions().len(),
        ensures
            m.0@ == self.actions()[a as int].overlay_id@,
            m.1.channel@ == "overlay/keybind"@,
            m.1.payload_bytes@ == encode_utf8(self.actions()[a as int].action_id@),
    {
        let act = &self.keybind_actions[a];
        (act.overlay_id.clone(), PendingPlatformMessage::text("overlay/keybind", act.action_id.as_str()))
    }

    /// The overlays a pointer event is forwarded to, topmost first, and the
    /// position of the one it stops at.
    fn pointer_route(&self) -> (r: (Vec<String>, Option<usize>))
        ensures
            match topmost_route(self.overlays()) {
                Some(k) => string_views(r.0@) == visible_names_desc_from(self.overlays(), k)
                    && (r.1 matches Some(i) && i as int == k) && k < self.overlays().len(),
                None => string_views(r.0@) == visible_names_desc_from(self.overlays(), 0) && r.1 is None,
            },
    {
        let ghost s = self.overlays();
        let mut targets: Vec<String> = Vec::new();
        let mut k: usize = self.overlays.len();
        while k > 0
            invariant
                self.overlays@ == s,
                k <= s.len(),
                string_views(targets@) == visible_names_desc_from(s, k as int),
                forall|j: int| k <= j < s.len() ==> !#[trigger] routes_to(s[j]),
            decreases k,
        {
            let i = k - 1;
            if self.overlays[i].state.visible {
                let ghost before = targets@;
                targets.push(self.overlays[i].state.name.clone());
                proof {
                    assert(string_views(targets@) =~= string_views(before).push(s[i as int].state.name@));
                }
                if self.overlays[i].state.hovered {
                    proof {
                        assert(routes_to(s[i as int]));
                        let c = choose|c: int| 0 <= c < s.len() && #[trigger] routes_to(s[c])
                            && forall|j: int| c < j < s.len() ==> !#[trigger] routes_to(s[j]);
                        if c > i as int {
                            assert(!routes_to(s[c]));
                        } else if c < i as int {
                            assert(!routes_to(s[i as int]));
                        }
                    }
                    return (targets, Some(i));
                }
            }
            k = i;
        }
        (targets, None)
    }

    /// Forwards a pointer event down the z-order: every visible overlay from
    /// the top receives it until one whose pointer is over an interactive
    /// widget; that one is raised and the event consumed.
    fn route_pointer(&mut self) -> (r: (Vec<String>, bool))
        requires
            old(self).wf(),
        ensures
            final(self).wf(),
            match topmost_route(old(self).overlays()) {
                Some(k) => string_views(r.0@) == visible_names_desc_from(old(self).overlays(), k)
                    && final(self).overlays() == raised(old(self).overlays(), k) && r.1,
                None => string_views(r.0@) == visible_names_desc_from(old(self).overlays(), 0)
                    && final(self).overlays() == old(self).overlays() && !r.1,
            },
            final(self).focused() == old(self).focused(),
            final(self).keeps_config(old(self)),
    {
        let (targets, stop) = self.pointer_route();
        match stop {
            Some(i) => {
                self.raise(i);
                (targets, true)
            },
            None => (targets, false),
        }
    }

    /// Decides what a window message does: visibility toggles and keybind
    /// actions first (they work on hidden overlays too), then view focus on
    /// a button press, then pointer routing down the z-order or key
    /// forwarding to the focused overlay. `mods` are the modifier keys held.
    #[verifier::rlimit(40)]
    pub fn handle_input_event(&mut self, msg: u32, wparam: usize, lparam: isize, mods: Modifiers) -> (out: InputOutcome)
        requires
            old(self).wf(),
        ensures
            final(self).wf(),
            final(self).focused() == old(self).focused(),
            final(self).keeps_config(old(self)),
            ({
                let s = old(self).overlays();
                let vk = (#[verifier::truncate] (wparam as u16));
                let rep = repeat_bit(lparam);
                let ft = first_toggle(old(self).toggles(), s, vk, mods, rep);
                let fa = first_action(old(self).actions(), vk, mods);
                &&& (out.action_message is Some) == (out.fired_action is Some)
                &&& out.action_message matches Some(am) ==> ({
                    let act = old(self).actions()[out.fired_action->0 as int];
                    &&& am.0@ == act.overlay_id@
                    &&& am.1.channel@ == "overlay/keybind"@
                    &&& am.1.payload_bytes@ == encode_utf8(act.action_id@)
                })
                &&& if s.len() == 0 {
                    &&& !out.consumed && out.toggle is None && out.fired_action is None
                    &&& out.focus_view is None && out.pointer_targets@.len() == 0 && out.key_target is None
                    &&& final(self).overlays() == s
                } else if is_key_down(msg) && ft is Some {
                    let tg = old(self).toggles()[ft->0];
                    &&& out.consumed && out.fired_action is None && out.focus_view is None
                    &&& out.pointer_targets@.len() == 0 && out.key_target is None
                    &&& if rep {
                        out.toggle is None && final(self).overlays() == s
                    } else {
                        let i = resolve_spec(s, Some(tg.overlay_id@))->0;
                        &&& out.toggle matches Some(o) && o.toggle_index == ft->0 && o.overlay_id@ == tg.overlay_id@
                            && o.visible == toggled_visibility(s[i])
                            && o.force_resize == (!s[i].state.keep_alive && !s[i].state.visible && old(self).has_swap_chain())
                            && o.message.channel@ == "overlay/visibility"@
                            && o.message.payload_bytes@ == encode_utf8(if o.visible { "true"@ } else { "false"@ })
                        &&& final(self).overlays() == s.update(i, toggled(s[i], old(self).screen(), old(self).has_swap_chain()))
                    }
                } else if is_key_down(msg) && fa is Some {
                    &&& out.consumed && out.toggle is None && out.focus_view is None
                    &&& out.pointer_targets@.len() == 0 && out.key_target is None
                    &&& out.fired_action == if rep && !old(self).actions()[fa->0].allow_repeat {
                        None
                    } else {
                        Some(fa->0 as usize)
                    }
                    &&& final(self).overlays() == s
                } else {
                    &&& out.toggle is None && out.fired_action is None
                    &&& match out.focus_view {
                        Some(f) => is_button_down(msg) && old(self).focused() == Some(f@),
                        None => !is_button_down(msg),
                    }
                    &&& if is_pointer_event(msg) {
                        out.key_target is None && match topmost_route(s) {
                            Some(k) => string_views(out.pointer_targets@) == visible_names_desc_from(s, k)
                                && final(self).overlays() == raised(s, k) && out.consumed,
                            None => string_views(out.pointer_targets@) == visible_names_desc_from(s, 0)
                                && final(self).overlays() == s && !out.consumed,
                        }
                    } else {
                        &&& out.pointer_targets@.len() == 0 && !out.consumed
                        &&& final(self).overlays() == s
                        &&& match out.key_target {
                            Some(f) => is_key_event(msg) && old(self).focused() == Some(f@),
                            None => !is_key_event(msg),
                        }
                    }
                }
            }),
    {
        let none_out = InputOutcome {
            consumed: false,
            toggle: None,
            fired_action: None,
            action_message: None,
            focus_view: None,
            pointer_targets: Vec::new(),
            key_target: None,
        };
        if self.overlays.len() == 0 {
            return none_out;
        }
        let vk: u16 = #[verifier::truncate] (wparam as u16);
        let rep: bool = (lparam >> 30u32) & 1isize == 1isize;
        let key_down = msg == WM_KEYDOWN || msg == WM_SYSKEYDOWN;
        if key_down {
            match self.find_toggle(vk, mods, rep) {
                Some(t) => {
                    if rep {
                        return InputOutcome { consumed: true, ..none_out };
                    }
                    let o = self.apply_toggle(t);
                    return InputOutcome { consumed: true, toggle: Some(o), ..none_out };
                },
                None => {},
            }
            match self.find_action(vk, mods) {
                Some(a) => {
                    if rep && !self.keybind_actions[a].allow_repeat {
                        return InputOutcome { consumed: true, ..none_out };
                    }
                    let m = self.action_message(a);
                    return InputOutcome { consumed: true, fired_action: Some(a), action_message: Some(m), ..none_out };
                },
                None => {},
            }
        }
        let button_down = msg == WM_LBUTTONDOWN || msg == WM_RBUTTONDOWN || msg == WM_MBUTTONDOWN;
        let focus_view = if button_down {
            match &self.focused {
                Some(f) => Some(f.clone()),
                None => {
                    proof { assert(false); }
                    None
                },
            }
        } else {
            None
        };
        let pointer = msg == WM_MOUSEMOVE || msg == WM_LBUTTONDOWN || msg == WM_RBUTTONDOWN
            || msg == WM_MBUTTONDOWN || msg == WM_LBUTTONUP || msg == WM_RBUTTONUP || msg == WM_MBUTTONUP
            || msg == WM_NCMOUSELEAVE || msg == WM_MOUSEWHEEL;
        if pointer {
            let (targets, consumed) = self.route_pointer();
            return InputOutcome { consumed, focus_view, pointer_targets: targets, ..none_out };
        }
        let key = msg == WM_KEYDOWN || msg == WM_SYSKEYDOWN || msg == WM_KEYUP || msg == WM_SYSKEYUP || msg == WM_CHAR;
        let key_target = if key {
            match &self.focused {
                Some(f) => Some(f.clone()),
                None => {
                    proof { assert(false); }
                    None
                },
            }
        } else {
            None
        };
        InputOutcome { focus_view, key_target, ..none_out }
    }

    /// The cursors to try for a `WM_SETCURSOR` message, topmost hovered
    /// overlay first; the first one that loads is set.
    pub fn set_cursor_candidates(&self, for_host_window: bool, lparam: isize) -> (c: Vec<CursorKind>)
        ensures
            c@ == cursor_candidates_from(self.overlays(), 0, for_host_window, lparam),
    {
        let ghost s = self.overlays();
        let mut c: Vec<CursorKind> = Vec::new();
        let mut k: usize = self.overlays.len();
        while k > 0
            invariant
                self.overlays@ == s,
                k <= s.len(),
                c@ == cursor_candidates_from(s, k as int, for_host_window, lparam),
            decreases k,
        {
            let i = k - 1;
            if self.overlays[i].state.hovered {
                match cursor_for_set_cursor(for_host_window, lparam, &self.overlays[i].state.desired_cursor) {
                    Some(kind) => c.push(kind),
                    None => {},
                }
            }
            k = i;
        }
        c
    }

    /// Applies a resize of the host's render area to `(x, y, width, height)`:
    /// records the screen size and moves every overlay whose engine runs and
    /// whose geometry differs. Returns the names of the overlays that changed,
    /// whose textures and metrics must follow.
    pub fn handle_resize(&mut self, x: i32, y: i32, width: u32, height: u32) -> (resized: Vec<String>)
        requires
            old(self).wf(),
        ensures
            final(self).wf(),
            final(self).screen() == (width, height),
            final(self).has_swap_chain(),
            final(self).overlays().len() == old(self).overlays().len(),
            forall|i: int| 0 <= i < old(self).overlays().len() ==> #[trigger] final(self).overlays()[i] == if needs_resize(
                old(self).overlays()[i],
                (x, y, width, height),
            ) {
                with_geometry(old(self).overlays()[i], (x, y, width, height))
            } else {
                old(self).overlays()[i]
            },
            string_views(resized@) == resized_names_upto(old(self).overlays(), old(self).overlays().len() as int, (x, y, width, height)),
            final(self).focused() == old(self).focused(),
            final(self).toggles() == old(self).toggles(),
            final(self).actions() == old(self).actions(),
            final(self).cooldown() == old(self).cooldown(),
            final(self).system_ready() == old(self).system_ready(),
    {
        self.screen_width = width;
        self.screen_height = height;
        self.has_swap_chain = true;
        let ghost s0 = self.overlays@;
        let ghost g = (x, y, width, height);
        let mut resized: Vec<String> = Vec::new();
        let mut i: usize = 0;
        while i < self.overlays.len()
            invariant
                self.overlays@.len() == s0.len(),
                i <= s0.len(),
                forall|j: int| 0 <= j < i ==> #[trigger] self.overlays@[j] == if needs_resize(s0[j], g) {
                    with_geometry(s0[j], g)
                } else {
                    s0[j]
                },
                forall|j: int| i <= j < s0.len() ==> #[trigger] self.overlays@[j] == s0[j],
                string_views(resized@) == resized_names_upto(s0, i as int, g),
                same_names(s0, self.overlays@),
                s0 == old(self).overlays@,
                g == (x, y, width, height),
                self.screen_width == width && self.screen_height == height && self.has_swap_chain,
                self.focused == old(self).focused,
                self.visibility_toggles@ == old(self).visibility_toggles@,
                self.keybind_actions@ == old(self).keybind_actions@,
                self.recovery_cooldown == old(self).recovery_cooldown,
                self.system_ready == old(self).system_ready,
            decreases s0.len() - i,
        {
            proof { assert(self.overlays@[i as int] == s0[i as int]); }
            let st = &self.overlays[i].state;
            let change = st.engine_running && !should_skip_resize((st.x, st.y, st.width, st.height), (x, y, width, height), false);
            assert(change == needs_resize(s0[i as int], g));
            let ghost before = resized@;
            let ghost ov_before = self.overlays@;
            if change {
                resized.push(self.overlays[i].state.name.clone());
                self.overlays[i].state.x = x;
                self.overlays[i].state.y = y;
                self.overlays[i].state.width = width;
                self.overlays[i].state.height = height;
                proof {
                    assert(string_views(resized@) =~= string_views(before).push(s0[i as int].state.name@));
                    assert(self.overlays@[i as int] == with_geometry(s0[i as int], g));
                    assert(self.overlays@ == ov_before.update(i as int, with_geometry(s0[i as int], g)));
                }
            }
            proof {
                assert(resized_names_upto(s0, i as int + 1, g) == if needs_resize(s0[i as int], g) {
                    resized_names_upto(s0, i as int, g).push(s0[i as int].state.name@)
                } else {
                    resized_names_upto(s0, i as int, g)
                });
            }
            i = i + 1;
        }
        proof { lemma_same_names(s0, self.overlays@); }
        resized
    }

    /// Whether some overlay's device is lost.
    pub fn is_any_device_lost(&self) -> (b: bool)
        ensures
            b == any_lost(self.overlays()),
    {
        let mut i: usize = 0;
        while i < self.overlays.len()
            invariant
                i <= self.overlays@.len(),
                forall|j: int| 0 <= j < i ==> !#[trigger] self.overlays@[j].state.device_lost,
            decreases self.overlays@.len() - i,
        {
            if self.overlays[i].state.device_lost {
                assert(self.overlays@[i as int].state.device_lost);
                return true;
            }
            i = i + 1;
        }
        false
    }

    /// Whether device recovery is to be attempted this frame: not while the
    /// cooldown of a failed attempt runs (each call counts it down), and
    /// then only when some device is lost.
    pub fn should_attempt_recovery(&mut self) -> (b: bool)
        requires
            old(self).wf(),
        ensures
            final(self).wf(),
            (b, final(self).cooldown() as int) == recovery_check(old(self).cooldown() as int, any_lost(old(self).overlays())),
            final(self).overlays() == old(self).overlays(),
            final(self).focused() == old(self).focused(),
            final(self).toggles() == old(self).toggles(),
            final(self).actions() == old(self).actions(),
            final(self).screen() == old(self).screen(),
            final(self).has_swap_chain() == old(self).has_swap_chain(),
            final(self).system_ready() == old(self).system_ready(),
    {
        if self.recovery_cooldown > 0 {
            self.recovery_cooldown = self.recovery_cooldown - 1;
            return false;
        }
        self.is_any_device_lost()
    }

    /// The names of the overlays whose device is lost, bottom first: the
    /// ones a recovery attempt works on.
    pub fn recovery_targets(&self) -> (names: Vec<String>)
        ensures
            string_views(names@) == lost_names_upto(self.overlays(), self.overlays().len() as int),
    {
        let mut names: Vec<String> = Vec::new();
        let mut i: usize = 0;
        while i < self.overlays.len()
            invariant
                i <= self.overlays@.len(),
                string_views(names@) == lost_names_upto(self.overlays@, i as int),
            decreases self.overlays@.len() - i,
        {
            if self.overlays[i].state.device_lost {
                let ghost before = names@;
                names.push(self.overlays[i].state.name.clone());
                proof {
                    assert(string_views(names@) =~= string_views(before).push(self.overlays@[i as int].state.name@));
                }
            }
            i = i + 1;
        }
        names
    }

    /// Records the outcome of a recovery attempt: when some overlay did not
    /// recover, no attempt is made for the next `RECOVERY_COOLDOWN_FRAMES`
    /// frames. Returns whether all recovered.
    pub fn finish_device_recovery(&mut self, all_recovered: bool) -> (b: bool)
        requires
            old(self).wf(),
        ensures
            final(self).wf(),
            b == all_recovered,
            final(self).cooldown() == if all_recovered { old(self).cooldown() } else { RECOVERY_COOLDOWN_FRAMES },
            final(self).overlays() == old(self).overlays(),
            final(self).focused() == old(self).focused(),
            final(self).toggles() == old(self).toggles(),
            final(self).actions() == old(self).actions(),
            final(self).screen() == old(self).screen(),
            final(self).has_swap_chain() == old(self).has_swap_chain(),
            final(self).system_ready() == old(self).system_ready(),
    {
        if !all_recovered {
            self.recovery_cooldown = RECOVERY_COOLDOWN_FRAMES;
        }
        all_recovered
    }

    /// Registers `keybind` (the parse of `key_name`, `None` when it did not
    /// parse) to toggle the visibility of `overlay_id`, replacing any toggle
    /// registered under the same key name. Nothing happens when the key name
    /// did not parse. Returns whether the toggle was registered.
    pub fn register_visibility_toggle(
        &mut self,
        key_name: &str,
        keybind: Option<Keybind>,
        overlay_id: &str,
        callback: Option<T>,
    ) -> (registered: bool)
        requires
            old(self).wf(),
        ensures
            final(self).wf(),
            registered == keybind is Some,
            match keybind {
                Some(k) => {
                    let kept = old(self).toggles().filter(toggle_other_key::<T>(key_name@));
                    &&& final(self).toggles().len() == kept.len() + 1
                    &&& final(self).toggles().take(kept.len() as int) == kept
                    &&& final(self).toggles().last().key_name@ == key_name@
                    &&& final(self).toggles().last().keybind == k
                    &&& final(self).toggles().last().overlay_id@ == overlay_id@
                    &&& final(self).toggles().last().callback == callback
                },
                None => final(self).toggles() == old(self).toggles(),
            },
            final(self).overlays() == old(self).overlays(),
            final(self).focused() == old(self).focused(),
            final(self).actions() == old(self).actions(),
            final(self).screen() == old(self).screen(),
            final(self).cooldown() == old(self).cooldown(),
            final(self).has_swap_chain() == old(self).has_swap_chain(),
            final(self).system_ready() == old(self).system_ready(),
    {
        match keybind {
            Some(k) => {
                self.remove_toggles_for_key(key_name);
                let ghost kept = self.visibility_toggles@;
                self.visibility_toggles.push(VisibilityToggle {
                    key_name: String::from_str(key_name),
                    keybind: k,
                    overlay_id: String::from_str(overlay_id),
                    callback,
                });
                assert(self.visibility_toggles@.take(kept.len() as int) =~= kept);
                true
            },
            None => false,
        }
    }

    /// Removes the visibility toggles registered under `key_name`. Returns
    /// whether one was.
    pub fn unregister_visibility_toggle(&mut self, key_name: &str) -> (removed: bool)
        requires
            old(self).wf(),
        ensures
            final(self).wf(),
            final(self).toggles() == old(self).toggles().filter(toggle_other_key::<T>(key_name@)),
            removed == (final(self).toggles().len() != old(self).toggles().len()),
            final(self).overlays() == old(self).overlays(),
            final(self).focused() == old(self).focused(),
            final(self).actions() == old(self).actions(),
            final(self).screen() == old(self).screen(),
            final(self).cooldown() == old(self).cooldown(),
            final(self).has_swap_chain() == old(self).has_swap_chain(),
            final(self).system_ready() == old(self).system_ready(),
    {
        let before = self.visibility_toggles.len();
        self.remove_toggles_for_key(key_name);
        self.visibility_toggles.len() != before
    }

    fn remove_toggles_for_key(&mut self, key_name: &str)
        requires
            old(self).wf(),
        ensures
            final(self).wf(),
            final(self).toggles() == old(self).toggles().filter(toggle_other_key::<T>(key_name@)),
            final(self).overlays() == old(self).overlays(),
            final(self).focused() == old(self).focused(),
            final(self).actions() == old(self).actions(),
            final(self).screen() == old(self).screen(),
            final(self).cooldown() == old(self).cooldown(),
            final(self).has_swap_chain() == old(self).has_swap_chain(),
            final(self).system_ready() == old(self).system_ready(),
    {
        let ghost s0 = self.visibility_toggles@;
        let ghost pred = toggle_other_key::<T>(key_name@);
        let key = String::from_str(key_name);
        let mut rest: Vec<VisibilityToggle<T>> = Vec::new();
        std::mem::swap(&mut rest, &mut self.visibility_toggles);
        let mut kept: Vec<VisibilityToggle<T>> = Vec::new();
        let ghost mut k: int = 0;
        while rest.len() > 0
            invariant
                key@ == key_name@,
                pred == toggle_other_key::<T>(key_name@),
                0 <= k <= s0.len(),
                rest@ == s0.subrange(k, s0.len() as int),
                kept@ == s0.subrange(0, k).filter(pred),
            decreases rest@.len(),
        {
            let t = rest.remove(0);
            proof {
                reveal(Seq::filter);
                assert(s0.subrange(0, k + 1).drop_last() =~= s0.subrange(0, k));
                assert(s0.subrange(0, k + 1).last() == t);
            }
            if !(t.key_name == key) {
                kept.push(t);
            }
            proof {
                k = k + 1;
                assert(rest@ =~= s0.subrange(k, s0.len() as int));
            }
        }
        proof {
            assert(s0.subrange(0, s0.len() as int) =~= s0);
        }
        self.visibility_toggles = kept;
    }

    /// Registers `keybind` (the parse of `key_name`, `None` when it did not
    /// parse) to fire `action_id`, replacing the action registered under the
    /// same key name and action. Nothing happens when the key name did not
    /// parse. Returns whether the action was registered.
    pub fn register_keybind_action(
        &mut self,
        key_name: &str,
        keybind: Option<Keybind>,
        action_id: &str,
        overlay_id: &str,
        callback: Option<A>,
        allow_repeat: bool,
    ) -> (registered: bool)
        requires
            old(self).wf(),
        ensures
            final(self).wf(),
            registered == keybind is Some,
            match keybind {
                Some(k) => {
                    let kept = old(self).actions().filter(action_not_pair::<A>(key_name@, action_id@));
                    &&& final(self).actions().len() == kept.len() + 1
                    &&& final(self).actions().take(kept.len() as int) == kept
                    &&& final(self).actions().last().key_name@ == key_name@
                    &&& final(self).actions().last().keybind == k
                    &&& final(self).actions().last().action_id@ == action_id@
                    &&& final(self).actions().last().overlay_id@ == overlay_id@
                    &&& final(self).actions().last().callback == callback
                    &&& final(self).actions().last().allow_repeat == allow_repeat
                },
                None => final(self).actions() == old(self).actions(),
            },
            final(self).overlays() == old(self).overlays(),
            final(self).focused() == old(self).focused(),
            final(self).toggles() == old(self).toggles(),
            final(self).screen() == old(self).screen(),
            final(self).cooldown() == old(self).cooldown(),
            final(self).has_swap_chain() == old(self).has_swap_chain(),
            final(self).system_ready() == old(self).system_ready(),
    {
        match keybind {
            Some(k) => {
                self.retain_actions(key_name, action_id, true);
                let ghost kept = self.keybind_actions@;
                self.keybind_actions.push(KeybindAction {
                    key_name: String::from_str(key_name),
                    keybind: k,
                    action_id: String::from_str(action_id),
                    overlay_id: String::from_str(overlay_id),
                    callback,
                    allow_repeat,
                });
                assert(self.keybind_actions@.take(kept.len() as int) =~= kept);
                true
            },
            None => false,
        }
    }

    /// Removes every keybind action of `action_id`.
    pub fn unregister_keybind_action(&mut self, action_id: &str)
        requires
            old(self).wf(),
        ensures
            final(self).wf(),
            final(self).actions() == old(self).actions().filter(action_other_id::<A>(action_id@)),
            final(self).overlays() == old(self).overlays(),
            final(self).focused() == old(self).focused(),
            final(self).toggles() == old(self).toggles(),
            final(self).screen() == old(self).screen(),
            final(self).cooldown() == old(self).cooldown(),
            final(self).has_swap_chain() == old(self).has_swap_chain(),
            final(self).system_ready() == old(self).system_ready(),
    {
        self.retain_actions("", action_id, false);
    }

    /// Keeps the actions that are not `(key_name, action_id)` when `pair`,
    /// or that are not of `action_id` otherwise.
    fn retain_actions(&mut self, key_name: &str, action_id: &str, pair: bool)
        requires
            old(self).wf(),
        ensures
            final(self).wf(),
            final(self).actions() == old(self).actions().filter(
                if pair { action_not_pair::<A>(key_name@, action_id@) } else { action_other_id::<A>(action_id@) },
            ),
            final(self).overlays() == old(self).overlays(),
            final(self).focused() == old(self).focused(),
            final(self).toggles() == old(self).toggles(),
            final(self).screen() == old(self).screen(),
            final(self).cooldown() == old(self).cooldown(),
            final(self).has_swap_chain() == old(self).has_swap_chain(),
            final(self).system_ready() == old(self).system_ready(),
    {
        let ghost s0 = self.keybind_actions@;
        let ghost pred = if pair { action_not_pair::<A>(key_name@, action_id@) } else { action_other_id::<A>(action_id@) };
        let key = String::from_str(key_name);
        let action = String::from_str(action_id);
        let mut rest: Vec<KeybindAction<A>> = Vec::new();
        std::mem::swap(&mut rest, &mut self.keybind_actions);
        let mut kept: Vec<KeybindAction<A>> = Vec::new();
        let ghost mut k: int = 0;
        while rest.len() > 0
            invariant
                key@ == key_name@,
                action@ == action_id@,
                pred == (if pair { action_not_pair::<A>(key_name@, action_id@) } else { action_other_id::<A>(action_id@) }),
                0 <= k <= s0.len(),
                rest@ == s0.subrange(k, s0.len() as int),
                kept@ == s0.subrange(0, k).filter(pred),
            decreases rest@.len(),
        {
            let a = rest.remove(0);
            proof {
                reveal(Seq::filter);
                assert(s0.subrange(0, k + 1).drop_last() =~= s0.subrange(0, k));
                assert(s0.subrange(0, k + 1).last() == a);
            }
            let drop = if pair {
                a.key_name == key && a.action_id == action
            } else {
                a.action_id == action
            };
            if !drop {
                kept.push(a);
            }
            proof {
                k = k + 1;
                assert(rest@ =~= s0.subrange(k, s0.len() as int));
            }
        }
        proof {
            assert(s0.subrange(0, s0.len() as int) =~= s0);
        }
        self.keybind_actions = kept;
    }

    /// Moves every keybind action of `action_id` to `new_keybind` (the parse
    /// of `new_key_name`). Nothing happens when the key name did not parse.
    pub fn rebind_keybind_action(&mut self, action_id: &str, new_key_name: &str, new_keybind: Option<Keybind>)
        requires
            old(self).wf(),
        ensures
            final(self).wf(),
            final(self).actions().len() == old(self).actions().len(),
            forall|i: int| 0 <= i < old(self).actions().len() ==> {
                let a = old(self).actions()[i];
                let b = #[trigger] final(self).actions()[i];
                if new_keybind is Some && a.action_id@ == action_id@ {
                    &&& b.key_name@ == new_key_name@
                    &&& b.keybind == new_keybind->0
                    &&& b.action_id == a.action_id && b.overlay_id == a.overlay_id
                    &&& b.callback == a.callback && b.allow_repeat == a.allow_repeat
                } else {
                    b == a
                }
            },
            final(self).overlays() == old(self).overlays(),
            final(self).focused() == old(self).focused(),
            final(self).toggles() == old(self).toggles(),
            final(self).screen() == old(self).screen(),
            final(self).cooldown() == old(self).cooldown(),
            final(self).has_swap_chain() == old(self).has_swap_chain(),
            final(self).system_ready() == old(self).system_ready(),
    {
        match new_keybind {
            Some(k) => {
                let ghost s0 = self.keybind_actions@;
                let action = String::from_str(action_id);
                let mut i: usize = 0;
                while i < self.keybind_actions.len()
                    invariant
                        action@ == action_id@,
                        self.keybind_actions@.len() == s0.len(),
                        i <= s0.len(),
                        forall|j: int| 0 <= j < i ==> {
                            let a = s0[j];
                            let b = #[trigger] self.keybind_actions@[j];
                            if a.action_id@ == action_id@ {
                                &&& b.key_name@ == new_key_name@
                                &&& b.keybind == k
                                &&& b.action_id == a.action_id && b.overlay_id == a.overlay_id
                                &&& b.callback == a.callback && b.allow_repeat == a.allow_repeat
                            } else {
                                b == a
                            }
                        },
                        forall|j: int| i <= j < s0.len() ==> #[trigger] self.keybind_actions@[j] == s0[j],
                        s0 == old(self).keybind_actions@,
                        self.overlays@ == old(self).overlays@,
                        self.focused == old(self).focused,
                        self.visibility_toggles@ == old(self).visibility_toggles@,
                        self.screen_width == old(self).screen_width && self.screen_height == old(self).screen_height,
                        self.has_swap_chain == old(self).has_swap_chain,
                        self.recovery_cooldown == old(self).recovery_cooldown,
                        self.system_ready == old(self).system_ready,
                    decreases s0.len() - i,
                {
                    if self.keybind_actions[i].action_id == action {
                        self.keybind_actions[i].key_name = String::from_str(new_key_name);
                        self.keybind_actions[i].keybind = k;
                    }
                    i = i + 1;
                }
            },
            None => {},
        }
    }

    /// The callback of visibility toggle `i`.
    pub fn toggle_callback(&self, i: usize) -> (c: Option<&T>)
        ensures
            i < self.toggles().len() ==> c == match self.toggles()[i as int].callback {
                Some(cb) => Some(&cb),
                None => None,
            },
            i >= self.toggles().len() ==> c is None,
    {
        if i < self.visibility_toggles.len() {
            match &self.visibility_toggles[i].callback {
                Some(cb) => Some(cb),
                None => None,
            }
        } else {
            None
        }
    }

    /// The callback and action of keybind action `i`.
    pub fn action_callback(&self, i: usize) -> (c: Option<(&A, &String)>)
        ensures
            i < self.actions().len() ==> match self.actions()[i as int].callback {
                Some(cb) => c == Some((&cb, &self.actions()[i as int].action_id)),
                None => c is None,
            },
            i >= self.actions().len() ==> c is None,
    {
        if i < self.keybind_actions.len() {
            match &self.keybind_actions[i].callback {
                Some(cb) => Some((cb, &self.keybind_actions[i].action_id)),
                None => None,
            }
        } else {
            None
        }
    }

    /// Plans one frame of the UI: which overlays are composited (advancing
    /// their glitch countdowns) or only ticked for their secondary views, and
    /// whether the system just became ready.
    pub fn plan_render_ui(&mut self) -> (plan: RenderUiPlan)
        requires
            old(self).wf(),
        ensures
            final(self).wf(),
            final(self).overlays().len() == old(self).overlays().len(),
            forall|i: int| 0 <= i < old(self).overlays().len() ==>
                #[trigger] final(self).overlays()[i] == after_frame(old(self).overlays()[i]),
            plan.steps@.map_values(|st: RenderStep| step_view(st))
                == render_steps_upto(old(self).overlays(), old(self).overlays().len() as int),
            plan.announce_ready == (any_composites(old(self).overlays()) && !old(self).system_ready()),
            final(self).system_ready() == (old(self).system_ready() || any_composites(old(self).overlays())),
            final(self).focused() == old(self).focused(),
            final(self).toggles() == old(self).toggles(),
            final(self).actions() == old(self).actions(),
            final(self).screen() == old(self).screen(),
            final(self).cooldown() == old(self).cooldown(),
            final(self).has_swap_chain() == old(self).has_swap_chain(),
    {
        let ghost s0 = self.overlays@;
        let mut steps: Vec<RenderStep> = Vec::new();
        let mut rendered_any = false;
        let mut i: usize = 0;
        while i < self.overlays.len()
            invariant
                s0 == old(self).overlays@,
                self.overlays@.len() == s0.len(),
                i <= s0.len(),
                forall|j: int| 0 <= j < i ==> #[trigger] self.overlays@[j] == after_frame(s0[j]),
                forall|j: int| i <= j < s0.len() ==> #[trigger] self.overlays@[j] == s0[j],
                steps@.map_values(|st: RenderStep| step_view(st)) == render_steps_upto(s0, i as int),
                rendered_any == exists|j: int| 0 <= j < i && #[trigger] composites(s0[j]),
                same_names(s0, self.overlays@),
                self.focused == old(self).focused,
                self.visibility_toggles@ == old(self).visibility_toggles@,
                self.keybind_actions@ == old(self).keybind_actions@,
                self.screen_width == old(self).screen_width && self.screen_height == old(self).screen_height,
                self.has_swap_chain == old(self).has_swap_chain,
                self.recovery_cooldown == old(self).recovery_cooldown,
                self.system_ready == old(self).system_ready,
            decreases s0.len() - i,
        {
            proof { assert(self.overlays@[i as int] == s0[i as int]); }
            let ghost before = steps@;
            let ghost ov_before = self.overlays@;
            let ghost o = s0[i as int];
            if self.overlays[i].state.visible && self.overlays[i].state.has_first_frame {
                let mut glitch_frame: Option<(u32, u32)> = None;
                let remaining = self.overlays[i].state.effect.frames_remaining;
                if remaining > 0 {
                    let left = remaining - 1;
                    let total = self.overlays[i].state.effect.total_frames;
                    glitch_frame = Some((left, total));
                    if left == 0 {
                        self.overlays[i].state.effect = EffectState {
                            kind: EffectKind::Passthrough,
                            target: EffectTargetKind::Fullscreen,
                            frames_remaining: 0,
                            total_frames: total,
                        };
                    } else {
                        self.overlays[i].state.effect.kind = EffectKind::Glitch;
                        self.overlays[i].state.effect.frames_remaining = left;
                    }
                }
                steps.push(RenderStep { name: self.overlays[i].state.name.clone(), composite: true, glitch_frame });
                rendered_any = true;
                proof {
                    assert(self.overlays@ == ov_before.update(i as int, after_frame(o)));
                    assert(steps@.map_values(|st: RenderStep| step_view(st))
                        =~= before.map_values(|st: RenderStep| step_view(st)).push(step_view(steps@.last())));
                }
            } else if self.overlays[i].state.has_secondary_views {
                steps.push(RenderStep { name: self.overlays[i].state.name.clone(), composite: false, glitch_frame: None });
                proof {
                    assert(steps@.map_values(|st: RenderStep| step_view(st))
                        =~= before.map_values(|st: RenderStep| step_view(st)).push(step_view(steps@.last())));
                }
            }
            proof {
                assert(render_steps_upto(s0, i as int + 1) == {
                    let rest = render_steps_upto(s0, i as int);
                    if composites(o) {
                        rest.push((o.state.name@, true, if o.state.effect.frames_remaining > 0 {
                            Some(((o.state.effect.frames_remaining - 1) as u32, o.state.effect.total_frames))
                        } else {
                            None
                        }))
                    } else if o.state.has_secondary_views {
                        rest.push((o.state.name@, false, None))
                    } else {
                        rest
                    }
                });
                if !composites(o) {
                    assert(after_frame(o) == o);
                }
            }
            i = i + 1;
        }
        proof { lemma_same_names(s0, self.overlays@); }
        let announce_ready = rendered_any && !self.system_ready;
        if rendered_any {
            self.system_ready = true;
        }
        RenderUiPlan { steps, announce_ready }
    }

    /// Adds an overlay on top of the z-order under its name. An overlay
    /// already registered under that name is taken out and its handle
    /// returned, for the caller to shut down. The first overlay added gets
    /// keyboard focus.
    pub fn add_overlay_instance(&mut self, state: OverlayState, handle: H) -> (replaced: Option<H>)
        requires
            old(self).wf(),
        ensures
            final(self).wf(),
            match replaced {
                Some(h) => exists|i: int| 0 <= i < old(self).overlays().len()
                    && #[trigger] old(self).overlays()[i].state.name@ == state.name@
                    && h == old(self).overlays()[i].handle
                    && final(self).overlays() == old(self).overlays().remove(i).push(
                        ManagedOverlay { state, handle },
                    ),
                None => !has_name(old(self).overlays(), state.name@)
                    && final(self).overlays() == old(self).overlays().push(ManagedOverlay { state, handle }),
            },
            final(self).focused() == match old(self).focused() {
                Some(f) => Some(f),
                None => Some(state.name@),
            },
            final(self).keeps_config(old(self)),
    {
        let ghost s0 = self.overlays@;
        let ghost name = state.name@;
        let existing = self.position_of(state.name.as_str());
        let mut replaced: Option<H> = None;
        match existing {
            Some(i) => {
                proof { lemma_removed_names(self.overlays@, i as int); }
                let old_entry = self.overlays.remove(i);
                replaced = Some(old_entry.handle);
            },
            None => {},
        }
        let ghost s1 = self.overlays@;
        assert(unique_names(s1) && !has_name(s1, name));
        if self.focused.is_none() {
            self.focused = Some(state.name.clone());
        }
        let entry = ManagedOverlay { state, handle };
        proof {
            lemma_pushed_names(s1, entry);
            match self.focused() {
                Some(f) => {
                    if f != name {
                        match existing {
                            Some(i) => { lemma_removed_names(s0, i as int); },
                            None => {},
                        }
                    }
                },
                None => {},
            }
        }
        self.overlays.push(entry);
        replaced
    }

    /// Removes the named overlay and returns its handle, for the caller to
    /// shut down. When it had focus, focus passes to the new topmost overlay
    /// (or to none when no overlay is left). Nothing happens for an unknown
    /// name.
    pub fn shutdown_instance(&mut self, identifier: &str) -> (removed: Option<H>)
        requires
            old(self).wf(),
        ensures
            final(self).wf(),
            match removed {
                Some(h) => exists|i: int| 0 <= i < old(self).overlays().len()
                    && #[trigger] old(self).overlays()[i].state.name@ == identifier@
                    && h == old(self).overlays()[i].handle
                    && final(self).overlays() == old(self).overlays().remove(i),
                None => !has_name(old(self).overlays(), identifier@)
                    && final(self).overlays() == old(self).overlays(),
            },
            final(self).focused() == if old(self).focused() == Some(identifier@) {
                if final(self).overlays().len() == 0 {
                    None
                } else {
                    Some(final(self).overlays().last().state.name@)
                }
            } else {
                old(self).focused()
            },
            final(self).keeps_config(old(self)),
    {
        let ghost s0 = self.overlays@;
        match self.position_of(identifier) {
            Some(i) => {
                proof { lemma_removed_names(s0, i as int); }
                let entry = self.overlays.remove(i);
                let key = String::from_str(identifier);
                let was_focused = match &self.focused {
                    Some(f) => *f == key,
                    None => false,
                };
                if was_focused {
                    let n = self.overlays.len();
                    if n == 0 {
                        self.focused = None;
                    } else {
                        let top = self.overlays[n - 1].state.name.clone();
                        proof {
                            assert(self.overlays@[n - 1] == self.overlays@.last());
                            assert(has_name(self.overlays@, self.overlays@[n - 1].state.name@));
                        }
                        self.focused = Some(top);
                    }
                } else {
                    proof {
                        match self.focused() {
                            Some(f) => { assert(f != identifier@); },
                            None => {},
                        }
                    }
                }
                Some(entry.handle)
            },
            None => None,
        }
    }

    /// Removes every overlay and returns their handles, bottom first.
    pub fn shutdown_all_instances(&mut self) -> (handles: Vec<H>)
        requires
            old(self).wf(),
        ensures
            final(self).wf(),
            final(self).overlays().len() == 0,
            final(self).focused() is None,
            handles@ == old(self).overlays().map_values(|o: ManagedOverlay<H>| o.handle),
            final(self).keeps_config(old(self)),
    {
        let ghost s0 = self.overlays@;
        let mut rest: Vec<ManagedOverlay<H>> = Vec::new();
        std::mem::swap(&mut rest, &mut self.overlays);
        self.focused = None;
        let mut handles: Vec<H> = Vec::new();
        while rest.len() > 0
            invariant
                handles@.len() + rest@.len() == s0.len(),
                rest@ == s0.subrange(handles@.len() as int, s0.len() as int),
                handles@ == s0.subrange(0, handles@.len() as int).map_values(|o: ManagedOverlay<H>| o.handle),
            decreases rest@.len(),
        {
            let ghost k: int = handles@.len() as int;
            let entry = rest.remove(0);
            handles.push(entry.handle);
            proof {
                assert(rest@ =~= s0.subrange(k + 1, s0.len() as int));
                assert(s0.subrange(0, k + 1).map_values(|o: ManagedOverlay<H>| o.handle)
                    =~= s0.subrange(0, k).map_values(|o: ManagedOverlay<H>| o.handle).push(handles@.last()));
            }
        }
        proof {
            assert(s0.subrange(0, s0.len() as int) =~= s0);
        }
        handles
    }
}


/// Firing a visibility keybind twice gives the overlay back its visibility:
/// a keep-alive overlay its shown or hidden UI, any other overlay its visible
/// flag.
pub proof fn law_toggle_twice_restores_visibility<H>(o: ManagedOverlay<H>, screen: (u32, u32), has_swap_chain: bool)
    ensures
        toggled(toggled(o, screen, has_swap_chain), screen, has_swap_chain).state.visible == o.state.visible,
        toggled(toggled(o, screen, has_swap_chain), screen, has_swap_chain).state.ui_hidden == o.state.ui_hidden,
        toggled(toggled(o, screen, has_swap_chain), screen, has_swap_chain).state.keep_alive == o.state.keep_alive,
{
}

/// Adding an overlay under a new name and then shutting that name down gives
/// back the overlays as they were: the only overlay of that name is the one
/// just added, on top.
pub proof fn law_add_then_shutdown<H>(s: Seq<ManagedOverlay<H>>, o: ManagedOverlay<H>)
    requires
        unique_names(s),
        !has_name(s, o.state.name@),
    ensures
        unique_names(s.push(o)),
        forall|i: int| 0 <= i < s.push(o).len() && #[trigger] s.push(o)[i].state.name@ == o.state.name@
            ==> i == s.len() && s.push(o).remove(i) == s,
{
    assert forall|i: int| 0 <= i < s.push(o).len() && #[trigger] s.push(o)[i].state.name@ == o.state.name@
        implies i == s.len() && s.push(o).remove(i) == s by {
        if i < s.len() {
            assert(s[i].state.name@ == o.state.name@);
        }
        assert(s.push(o).remove(s.len() as int) =~= s);
    }
    assert forall|i: int, j: int|
        0 <= i < s.push(o).len() && 0 <= j < s.push(o).len() && i != j
        implies #[trigger] s.push(o)[i].state.name@ != #[trigger] s.push(o)[j].state.name@ by {
        if i < s.len() && j < s.len() {
        } else if i < s.len() {
            assert(s[i].state.name@ != o.state.name@);
        } else {
            assert(s[j].state.name@ != o.state.name@);
        }
    }
}

/// One recovery check: while the cooldown is positive it is taken one down
/// and no attempt is made; otherwise an attempt is made when a device is
/// lost. The answer and the cooldown after the check.
pub open spec fn recovery_check(cooldown: int, lost: bool) -> (bool, int) {
    if cooldown > 0 { (false, cooldown - 1) } else { (lost, 0) }
}

/// The cooldown after `n` checks that started from `cooldown`.
pub open spec fn cooldown_after(cooldown: int, n: nat) -> int
    decreases n,
{
    if n == 0 { cooldown } else { cooldown_after(recovery_check(cooldown, false).1, (n - 1) as nat) }
}

/// After a failed recovery sets the cooldown, the next
/// `RECOVERY_COOLDOWN_FRAMES` checks make no attempt, and the one after them
/// attempts exactly when a device is lost.
pub proof fn law_recovery_cooldown(lost: bool)
    ensures
        forall|k: nat| k < RECOVERY_COOLDOWN_FRAMES
            ==> !#[trigger] recovery_check(cooldown_after(RECOVERY_COOLDOWN_FRAMES as int, k), lost).0,
        recovery_check(cooldown_after(RECOVERY_COOLDOWN_FRAMES as int, RECOVERY_COOLDOWN_FRAMES as nat), lost).0 == lost,
{
    assert forall|k: nat| k < RECOVERY_COOLDOWN_FRAMES
        implies !#[trigger] recovery_check(cooldown_after(RECOVERY_COOLDOWN_FRAMES as int, k), lost).0 by {
        lemma_cooldown_counts_down(RECOVERY_COOLDOWN_FRAMES as int, k);
    }
    lemma_cooldown_counts_down(RECOVERY_COOLDOWN_FRAMES as int, RECOVERY_COOLDOWN_FRAMES as nat);
}

proof fn lemma_cooldown_counts_down(cooldown: int, n: nat)
    requires
        n <= cooldown,
    ensures
        cooldown_after(cooldown, n) == cooldown - n,
    decreases n,
{
    if n > 0 {
        lemma_cooldown_counts_down(cooldown - 1, (n - 1) as nat);
    }
}

/// The overlay after `n` frames.
pub open spec fn after_frames<H>(o: ManagedOverlay<H>, n: nat) -> ManagedOverlay<H>
    decreases n,
{
    if n == 0 { o } else { after_frames(after_frame(o), (n - 1) as nat) }
}

/// A glitch running on an overlay that keeps being composited counts down
/// one frame at a time, keeping its length (from which the host computes the
/// fade), and then clears itself: the overlay is back to the passthrough
/// effect with no frames left.
pub proof fn law_glitch_clears_itself<H>(o: ManagedOverlay<H>, n: nat)
    requires
        composites(o),
        o.state.effect.kind == EffectKind::Glitch,
        o.state.effect.frames_remaining == n,
        n > 0,
    ensures
        forall|k: nat| k < n ==> (#[trigger] after_frames(o, k)).state.effect.kind == EffectKind::Glitch
            && after_frames(o, k).state.effect.frames_remaining == n - k
            && after_frames(o, k).state.effect.total_frames == o.state.effect.total_frames
            && composites(after_frames(o, k)),
        after_frames(o, n).state.effect.kind == EffectKind::Passthrough,
        after_frames(o, n).state.effect.frames_remaining == 0,
        after_frames(o, n).state.effect.target == EffectTargetKind::Fullscreen,
    decreases n,
{
    let o1 = after_frame(o);
    if n > 1 {
        law_glitch_clears_itself(o1, (n - 1) as nat);
        assert forall|k: nat| k < n implies (#[trigger] after_frames(o, k)).state.effect.kind == EffectKind::Glitch
            && after_frames(o, k).state.effect.frames_remaining == n - k
            && after_frames(o, k).state.effect.total_frames == o.state.effect.total_frames
            && composites(after_frames(o, k)) by {
            if k > 0 {
                assert(after_frames(o, k) == after_frames(o1, (k - 1) as nat));
            }
        }
        assert(after_frames(o, n) == after_frames(o1, (n - 1) as nat));
    } else {
        assert(after_frames(o, 1) == after_frames(o1, 0));
        assert forall|k: nat| k < n implies (#[trigger] after_frames(o, k)).state.effect.kind == EffectKind::Glitch
            && after_frames(o, k).state.effect.frames_remaining == n - k
            && after_frames(o, k).state.effect.total_frames == o.state.effect.total_frames
            && composites(after_frames(o, k)) by {
            assert(k == 0);
        }
    }
}

/// The overlay as [`OverlayManager::trigger_glitch_effect`] leaves it: a
/// fullscreen glitch of `n` frames.
pub open spec fn glitch_started<H>(o: ManagedOverlay<H>, n: u32) -> ManagedOverlay<H> {
    ManagedOverlay {
        state: OverlayState {
            effect: EffectState { kind: EffectKind::Glitch, target: EffectTargetKind::Fullscreen, frames_remaining: n, total_frames: n },
            ..o.state
        },
        ..o
    }
}

/// A glitch of `n` frames triggered on a visible overlay that has a frame,
/// whatever effect it had before, runs for `n` frames of length `n`, counting
/// down, and then clears itself.
pub proof fn law_triggered_glitch_clears_itself<H>(o: ManagedOverlay<H>, n: u32)
    requires
        composites(o),
        n >= 1,
    ensures
        forall|k: nat| k < n ==> (#[trigger] after_frames(glitch_started(o, n), k)).state.effect.kind == EffectKind::Glitch
            && after_frames(glitch_started(o, n), k).state.effect.frames_remaining == n - k
            && after_frames(glitch_started(o, n), k).state.effect.total_frames == n,
        after_frames(glitch_started(o, n), n as nat).state.effect.kind == EffectKind::Passthrough,
        after_frames(glitch_started(o, n), n as nat).state.effect.frames_remaining == 0,
{
    law_glitch_clears_itself(glitch_started(o, n), n as nat);
}

/// A resize repeated with the same geometry changes nothing: once the
/// overlays have been resized to `g` (as [`OverlayManager::handle_resize`]
/// leaves them), none needs a resize to `g`, none is reported resized, and
/// a second resize leaves every overlay as it is.
pub proof fn law_resize_idempotent<H>(s: Seq<ManagedOverlay<H>>, s2: Seq<ManagedOverlay<H>>, g: (i32, i32, u32, u32))
    requires
        s2.len() == s.len(),
        forall|i: int| 0 <= i < s.len() ==> #[trigger] s2[i] == if needs_resize(s[i], g) {
            with_geometry(s[i], g)
        } else {
            s[i]
        },
    ensures
        forall|i: int| 0 <= i < s2.len() ==> !needs_resize(#[trigger] s2[i], g),
        resized_names_upto(s2, s2.len() as int, g) == Seq::<Seq<char>>::empty(),
{
    assert forall|i: int| 0 <= i < s2.len() implies !needs_resize(#[trigger] s2[i], g) by {
        assert(s2[i] == if needs_resize(s[i], g) { with_geometry(s[i], g) } else { s[i] });
    }
    lemma_no_resize_names(s2, s2.len() as int, g);
}

proof fn lemma_no_resize_names<H>(s: Seq<ManagedOverlay<H>>, hi: int, g: (i32, i32, u32, u32))
    requires
        hi <= s.len(),
        forall|i: int| 0 <= i < s.len() ==> !needs_resize(#[trigger] s[i], g),
    ensures
        resized_names_upto(s, hi, g) == Seq::<Seq<char>>::empty(),
    decreases hi,
{
    if hi > 0 {
        assert(!needs_resize(s[hi - 1], g));
        lemma_no_resize_names(s, hi - 1, g);
    }
}

/// A visibility toggle that shows a hidden overlay (not keep-alive) while a
/// swap chain is known makes it visible at the origin with exactly the
/// screen's width and height; one that hides a visible overlay only hides
/// it, keeping its geometry; a keep-alive overlay only flips whether its UI
/// is hidden.
pub proof fn law_toggle_shows_hidden_overlay_full_screen<H>(o: ManagedOverlay<H>, screen_width: u32, screen_height: u32, has_swap_chain: bool)
    ensures
        !o.state.keep_alive && !o.state.visible && has_swap_chain ==> {
            let t = toggled(o, (screen_width, screen_height), has_swap_chain);
            &&& t.state.visible
            &&& t.state.x == 0 && t.state.y == 0
            &&& t.state.width == screen_width
            &&& t.state.height == screen_height
            &&& t.state.name == o.state.name
        },
        !o.state.keep_alive && o.state.visible ==> {
            let t = toggled(o, (screen_width, screen_height), has_swap_chain);
            &&& !t.state.visible
            &&& t.state.x == o.state.x && t.state.y == o.state.y
            &&& t.state.width == o.state.width && t.state.height == o.state.height
        },
        !o.state.keep_alive ==> toggled_visibility(o) == toggled(o, (screen_width, screen_height), has_swap_chain).state.visible,
        o.state.keep_alive ==> toggled_visibility(o) == !toggled(o, (screen_width, screen_height), has_swap_chain).state.ui_hidden,
        o.state.keep_alive ==> {
            let t = toggled(o, (screen_width, screen_height), has_swap_chain);
            &&& t.state.ui_hidden == !o.state.ui_hidden
            &&& t.state.visible == o.state.visible
            &&& t.state.width == o.state.width && t.state.height == o.state.height
        },
{
}

} // verus!
