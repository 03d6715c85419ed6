//! Cross-thread controls of a satellite window, the registry that finds them
//! by view id, and the handling of control requests sent by the application.
use vstd::prelude::*;
use vstd::string::StringExecFns;
use vstd::string::StrSliceExecFns;
use vstd::utf8::encode_utf8;
use std::collections::HashMap;
use std::sync::Arc;
use std::sync::atomic::{AtomicBool, AtomicIsize, AtomicU64, Ordering};

verus! {

broadcast use vstd::std_specs::hash::group_hash_axioms;

/// Private window messages a controller posts to a satellite window.
pub const WM_APP_MINIMIZE: u32 = 0x8001;
pub const WM_APP_MAXIMIZE: u32 = 0x8002;
pub const WM_APP_RESTORE: u32 = 0x8003;
pub const WM_APP_CLOSE: u32 = 0x8004;

/// The platform channel on which the application sends window controls.
pub const WINDOW_CONTROL_CHANNEL: &'static str = "flutter_embedder/satellite_window";

/// A message to post to a window.
#[derive(PartialEq, Eq, Structural, Clone, Copy, Debug)]
pub struct WindowPost {
    pub hwnd: isize,
    pub msg: u32,
}

/// The post of `msg` to the window `hwnd`; none while the window does not
/// exist (`hwnd == 0`).
pub open spec fn post_spec(hwnd: isize, msg: u32) -> Option<WindowPost> {
    if hwnd == 0 {
        None
    } else {
        Some(WindowPost { hwnd, msg })
    }
}

/// The post of `msg` to the window `hwnd`, if the window exists.
pub fn post_target(hwnd: isize, msg: u32) -> (p: Option<WindowPost>)
    ensures
        p == post_spec(hwnd, msg),
{
    if hwnd == 0 {
        None
    } else {
        Some(WindowPost { hwnd, msg })
    }
}

/// A second owner of the shared value behind `a`.
#[verifier::external_body]
fn share_arc<T>(a: &Arc<T>) -> (r: Arc<T>)
    ensures
        r == *a,
{
    Arc::clone(a)
}

/// Handles shared between a satellite window's thread and its controllers:
/// the close request, the window handle (0 while the window does not exist)
/// and the number of frames presented. The values are written by other
/// threads, so no read is known in advance.
pub struct WindowControls {
    should_close: Arc<AtomicBool>,
    hwnd: Arc<AtomicIsize>,
    present_count: Arc<AtomicU64>,
}

impl WindowControls {
    /// Controls over the given shared cells.
    pub fn new(should_close: Arc<AtomicBool>, hwnd: Arc<AtomicIsize>, present_count: Arc<AtomicU64>) -> (c: Self)
        ensures
            c.cells() == (should_close, hwnd, present_count),
    {
        WindowControls { should_close, hwnd, present_count }
    }

    /// The shared cells, by identity.
    pub closed spec fn cells(&self) -> (Arc<AtomicBool>, Arc<AtomicIsize>, Arc<AtomicU64>) {
        (self.should_close, self.hwnd, self.present_count)
    }

    /// Controls over the same cells.
    pub fn share(&self) -> (c: Self)
        ensures
            c == *self,
    {
        WindowControls {
            should_close: share_arc(&self.should_close),
            hwnd: share_arc(&self.hwnd),
            present_count: share_arc(&self.present_count),
        }
    }

    /// The number of frames the window has presented. The count is read from
    /// a cell the window thread increments, so no value is stated.
    pub fn present_count(&self) -> u64 {
        self.present_count.load(Ordering::Acquire)
    }

    /// The window handle, 0 while the window does not exist. The handle is
    /// read from a cell the window thread writes, so no value is stated.
    pub fn hwnd_value(&self) -> isize {
        self.hwnd.load(Ordering::Acquire)
    }

    /// Whether closing the window was requested. The flag is read from a cell
    /// other threads write, so no value is stated.
    pub fn close_requested(&self) -> bool {
        self.should_close.load(Ordering::Acquire)
    }

    /// The post that minimizes the window, if it exists. Whether it exists
    /// depends on the handle read from the shared cell, so only the post's
    /// message and its non-null target are stated.
    pub fn minimize(&self) -> (p: Option<WindowPost>)
        ensures
            p matches Some(w) ==> w.msg == WM_APP_MINIMIZE && w.hwnd != 0,
    {
        post_target(self.hwnd_value(), WM_APP_MINIMIZE)
    }

    /// The post that maximizes the window, if it exists. Whether it exists
    /// depends on the handle read from the shared cell, so only the post's
    /// message and its non-null target are stated.
    pub fn maximize(&self) -> (p: Option<WindowPost>)
        ensures
            p matches Some(w) ==> w.msg == WM_APP_MAXIMIZE && w.hwnd != 0,
    {
        post_target(self.hwnd_value(), WM_APP_MAXIMIZE)
    }

    /// The post that restores the window, if it exists. Whether it exists
    /// depends on the handle read from the shared cell, so only the post's
    /// message and its non-null target are stated.
    pub fn restore(&self) -> (p: Option<WindowPost>)
        ensures
            p matches Some(w) ==> w.msg == WM_APP_RESTORE && w.hwnd != 0,
    {
        post_target(self.hwnd_value(), WM_APP_RESTORE)
    }

    /// Requests the window to close, and returns the post that wakes it, if
    /// it exists. The request is a store into a shared cell and whether the
    /// post exists depends on the handle read from another, so only the
    /// post's message and its non-null target are stated.
    pub fn close(&self) -> (p: Option<WindowPost>)
        ensures
            p matches Some(w) ==> w.msg == WM_APP_CLOSE && w.hwnd != 0,
    {
        self.should_close.store(true, Ordering::Release);
        post_target(self.hwnd_value(), WM_APP_CLOSE)
    }

    /// Publishes the window handle (0 once the window is gone).
    pub fn set_hwnd(&self, hwnd: isize) {
        self.hwnd.store(hwnd, Ordering::Release);
    }

    /// Counts one presented frame.
    pub fn note_present(&self) {
        let _ = self.present_count.fetch_add(1, Ordering::Release);
    }
}

/// The controls of the open satellite windows, by view id.
pub struct WindowControlsRegistry {
    map: HashMap<i64, WindowControls>,
}

impl WindowControlsRegistry {
    /// The registered controls, by view id.
    pub closed spec fn view(&self) -> Map<i64, WindowControls> {
        self.map@
    }

    /// An empty registry.
    pub fn new() -> (r: Self)
        ensures
            r.view() == Map::<i64, WindowControls>::empty(),
    {
        WindowControlsRegistry { map: HashMap::new() }
    }

    /// Registers `controls` for `view_id`, replacing earlier controls.
    pub fn register_window_controls(&mut self, view_id: i64, controls: WindowControls)
        ensures
            final(self).view() == old(self).view().insert(view_id, controls),
    {
        self.map.insert(view_id, controls);
    }

    /// Forgets the controls of `view_id`.
    pub fn unregister_window_controls(&mut self, view_id: i64)
        ensures
            final(self).view() == old(self).view().remove(view_id),
    {
        self.map.remove(&view_id);
    }

    /// The controls of `view_id`, if registered.
    pub fn lookup_window_controls(&self, view_id: i64) -> (c: Option<WindowControls>)
        ensures
            match c {
                Some(w) => self.view().contains_key(view_id) && w == self.view()[view_id],
                None => !self.view().contains_key(view_id),
            },
    {
        match self.map.get(&view_id) {
            Some(w) => Some(w.share()),
            None => None,
        }
    }
}

/// A lookup gives back what was registered last for that view; after the
/// view is unregistered the lookup finds nothing; other views are untouched
/// by both.
pub proof fn law_registry_read_after_write(m: Map<i64, WindowControls>, id: i64, c: WindowControls, other: i64)
    requires
        other != id,
    ensures
        m.insert(id, c).contains_key(id),
        m.insert(id, c)[id] == c,
        !m.insert(id, c).remove(id).contains_key(id),
        m.insert(id, c).contains_key(other) == m.contains_key(other),
        m.contains_key(other) ==> m.insert(id, c)[other] == m[other],
        m.remove(id).contains_key(other) == m.contains_key(other),
{
}

/// A window-control request as the application sends it.
pub struct ControlRequest {
    pub view_id: Option<i64>,
    pub method: String,
    pub title: Option<String>,
}

/// What a window-control request asks of the window.
pub enum ControlAction {
    Minimize,
    Maximize,
    Restore,
    StartDrag,
    Close,
    SetTitle(String),
    QueryMaximized,
    Nothing,
}

/// The action a method name asks for; `setTitle` without a title does
/// nothing.
pub open spec fn control_action_spec(method: Seq<char>, title: Option<Seq<char>>, a: ControlAction) -> bool {
    if method == "minimize"@ {
        a is Minimize
    } else if method == "maximize"@ {
        a is Maximize
    } else if method == "restore"@ {
        a is Restore
    } else if method == "startDrag"@ {
        a is StartDrag
    } else if method == "close"@ {
        a is Close
    } else if method == "setTitle"@ {
        match title {
            Some(t) => a matches ControlAction::SetTitle(s) && s@ == t,
            None => a is Nothing,
        }
    } else if method == "isMaximized"@ {
        a is QueryMaximized
    } else {
        a is Nothing
    }
}

/// The action `method` (with the request's `title`) asks for.
pub fn control_action(method: &str, title: &Option<String>) -> (a: ControlAction)
    ensures
        control_action_spec(method@, match title { Some(t) => Some(t@), None => None }, a),
{
    let m = String::from_str(method);
    if m == String::from_str("minimize") {
        ControlAction::Minimize
    } else if m == String::from_str("maximize") {
        ControlAction::Maximize
    } else if m == String::from_str("restore") {
        ControlAction::Restore
    } else if m == String::from_str("startDrag") {
        ControlAction::StartDrag
    } else if m == String::from_str("close") {
        ControlAction::Close
    } else if m == String::from_str("setTitle") {
        match title {
            Some(t) => ControlAction::SetTitle(t.clone()),
            None => ControlAction::Nothing,
        }
    } else if m == String::from_str("isMaximized") {
        ControlAction::QueryMaximized
    } else {
        ControlAction::Nothing
    }
}

/// Resolves a window-control request: the controls of its view and the
/// action asked. `None` when the request did not parse, names no view, or
/// names a view without a window; the answer is then `{}`.
pub fn handle_window_control_message(req: &Option<ControlRequest>, registry: &WindowControlsRegistry) -> (r: Option<(WindowControls, ControlAction)>)
    ensures
        match req {
            Some(q) => match q.view_id {
                Some(v) => match r {
                    Some((c, a)) => registry.view().contains_key(v) && c == registry.view()[v]
                        && control_action_spec(q.method@, match q.title { Some(t) => Some(t@), None => None }, a),
                    None => !registry.view().contains_key(v),
                },
                None => r is None,
            },
            None => r is None,
        },
{
    match req {
        Some(q) => match q.view_id {
            Some(v) => match registry.lookup_window_controls(v) {
                Some(c) => Some((c, control_action(q.method.as_str(), &q.title))),
                None => None,
            },
            None => None,
        },
        None => None,
    }
}

/// The answer to a window-control request: `{"isMaximized":true|false}` for
/// the maximized query, `{}` for everything else.
pub fn control_response(query_maximized: bool, maximized: bool) -> (bytes: Vec<u8>)
    ensures
        bytes@ == encode_utf8(
            if !query_maximized {
                "{}"@
            } else if maximized {
                "{\"isMaximized\":true}"@
            } else {
                "{\"isMaximized\":false}"@
            },
        ),
{
    if !query_maximized {
        "{}".as_bytes_vec()
    } else if maximized {
        "{\"isMaximized\":true}".as_bytes_vec()
    } else {
        "{\"isMaximized\":false}".as_bytes_vec()
    }
}

/// Each window-control method name asks for its own action: `minimize`
/// minimizes, `maximize` maximizes, `restore` restores, `startDrag` starts a
/// drag, `close` closes, `isMaximized` queries, `setTitle` sets the given
/// title; any other name does nothing.
pub proof fn law_control_method_names(title: Option<Seq<char>>, a: ControlAction)
    ensures
        control_action_spec("minimize"@, title, a) ==> a is Minimize,
        control_action_spec("maximize"@, title, a) ==> a is Maximize,
        control_action_spec("restore"@, title, a) ==> a is Restore,
        control_action_spec("startDrag"@, title, a) ==> a is StartDrag,
        control_action_spec("close"@, title, a) ==> a is Close,
        control_action_spec("isMaximized"@, title, a) ==> a is QueryMaximized,
        control_action_spec("setTitle"@, title, a) ==> match title {
            Some(t) => a matches ControlAction::SetTitle(s) && s@ == t,
            None => a is Nothing,
        },
        control_action_spec(""@, title, a) ==> a is Nothing,
{
    reveal_strlit("minimize");
    reveal_strlit("maximize");
    reveal_strlit("restore");
    reveal_strlit("startDrag");
    reveal_strlit("close");
    reveal_strlit("setTitle");
    reveal_strlit("isMaximized");
    reveal_strlit("");
    assert("minimize"@[1] != "maximize"@[1]);
    assert("minimize"@ != "maximize"@);
    assert("minimize"@.len() != "restore"@.len());
    assert("minimize"@ != "restore"@);
    assert("minimize"@.len() != "startDrag"@.len());
    assert("minimize"@ != "startDrag"@);
    assert("minimize"@.len() != "close"@.len());
    assert("minimize"@ != "close"@);
    assert("minimize"@[0] != "setTitle"@[0]);
    assert("minimize"@ != "setTitle"@);
    assert("minimize"@.len() != "isMaximized"@.len());
    assert("minimize"@ != "isMaximized"@);
    assert("minimize"@.len() != ""@.len());
    assert("minimize"@ != ""@);
    assert("maximize"@.len() != "restore"@.len());
    assert("maximize"@ != "restore"@);
    assert("maximize"@.len() != "startDrag"@.len());
    assert("maximize"@ != "startDrag"@);
    assert("maximize"@.len() != "close"@.len());
    assert("maximize"@ != "close"@);
    assert("maximize"@[0] != "setTitle"@[0]);
    assert("maximize"@ != "setTitle"@);
    assert("maximize"@.len() != "isMaximized"@.len());
    assert("maximize"@ != "isMaximized"@);
    assert("maximize"@.len() != ""@.len());
    assert("maximize"@ != ""@);
    assert("restore"@.len() != "startDrag"@.len());
    assert("restore"@ != "startDrag"@);
    assert("restore"@.len() != "close"@.len());
    assert("restore"@ != "close"@);
    assert("restore"@.len() != "setTitle"@.len());
    assert("restore"@ != "setTitle"@);
    assert("restore"@.len() != "isMaximized"@.len());
    assert("restore"@ != "isMaximized"@);
    assert("restore"@.len() != ""@.len());
    assert("restore"@ != ""@);
    assert("startDrag"@.len() != "close"@.len());
    assert("startDrag"@ != "close"@);
    assert("startDrag"@.len() != "setTitle"@.len());
    assert("startDrag"@ != "setTitle"@);
    assert("startDrag"@.len() != "isMaximized"@.len());
    assert("startDrag"@ != "isMaximized"@);
    assert("startDrag"@.len() != ""@.len());
    assert("startDrag"@ != ""@);
    assert("close"@.len() != "setTitle"@.len());
    assert("close"@ != "setTitle"@);
    assert("close"@.len() != "isMaximized"@.len());
    assert("close"@ != "isMaximized"@);
    assert("close"@.len() != ""@.len());
    assert("close"@ != ""@);
    assert("setTitle"@.len() != "isMaximized"@.len());
    assert("setTitle"@ != "isMaximized"@);
    assert("setTitle"@.len() != ""@.len());
    assert("setTitle"@ != ""@);
    assert("isMaximized"@.len() != ""@.len());
    assert("isMaximized"@ != ""@);
}

} // verus!
