//! The thread of a satellite window: the order of the outside steps that
//! create the window, its device, swap chain and view, the loop that pumps
//! messages and frames until the window is closed, and the tear-down.
use vstd::prelude::*;
use vstd::string::StringExecFns;
use crate::error::FlutterEmbedderError;
use crate::satellite::{extent, extent_spec, Rect};

verus! {

/// Which outcome the window thread is waiting for.
#[derive(PartialEq, Eq, Structural, Clone, Copy, Debug)]
pub enum ThreadPhase {
    AwaitWindow,
    AwaitDevice,
    AwaitContext,
    AwaitClientRect,
    AwaitSwapChain,
    AwaitBlit,
    AwaitView,
    /// Waiting for the close flag read at the top of the loop.
    AwaitCheck,
    /// Waiting for the outcome of a round of window messages.
    AwaitMessages,
    AwaitRemove,
    Done,
}

/// The outside step the host performs next.
#[derive(Debug)]
pub enum WindowThreadAction {
    /// Register the window class and create the window.
    CreateWindow,
    /// Publish the window handle, refresh the frame, and create the window's
    /// own D3D11 device on the game's adapter.
    PublishAndCreateDevice { hwnd: isize },
    /// Get the device's immediate context.
    CreateContext,
    /// Read the client rectangle.
    ReadClientRect,
    /// Create the swap chain at this size.
    CreateSwapChain { width: u32, height: u32 },
    /// Create the blit pipeline at this size.
    CreateBlit { width: u32, height: u32 },
    /// Add the window's view to the engine at this size.
    AddView { width: u32, height: u32 },
    /// Publish the view id, register its keyboard state and the window's
    /// controls, focus the view, open its shared texture and set up the
    /// render state; then read the close flag.
    Start { view_id: i64, width: u32, height: u32 },
    /// Dispatch the waiting window messages (a quit message sets the close
    /// flag); then read the close flag.
    PumpMessages,
    /// Pump one frame; then read the close flag.
    PumpFrame,
    /// Remove the view from the engine (a failure is only logged).
    RemoveView { view_id: i64 },
    /// Forget the view's keyboard state and the window's controls, publish
    /// view id -1 and window handle 0, and destroy the window. The thread
    /// then ends successfully.
    Teardown { view_id: i64 },
    /// The thread ends with this error.
    Fail(FlutterEmbedderError),
}

/// The outcome of the step the host was asked to perform.
#[derive(Debug)]
pub enum WindowThreadEvent {
    WindowCreated(Result<isize, FlutterEmbedderError>),
    DeviceCreated(Result<(), String>),
    ContextCreated(Result<(), String>),
    ClientRect(Rect),
    SwapChainCreated(Result<(), FlutterEmbedderError>),
    BlitCreated(Result<(), FlutterEmbedderError>),
    ViewAdded(Result<i64, FlutterEmbedderError>),
    /// The close flag as read.
    Checked(bool),
    /// The close flag as read after a round of messages.
    MessagesPumped(bool),
    ViewRemoved,
}

/// The error text a failed device step reports.
pub open spec fn prefixed(prefix: Seq<char>, e: Seq<char>) -> Seq<char> {
    prefix + e
}

/// How many steps at most remain before the thread reaches the loop, or
/// ends; the loop itself runs until the window is closed.
pub open spec fn setup_steps_left(phase: ThreadPhase) -> nat {
    match phase {
        ThreadPhase::AwaitWindow => 7,
        ThreadPhase::AwaitDevice => 6,
        ThreadPhase::AwaitContext => 5,
        ThreadPhase::AwaitClientRect => 4,
        ThreadPhase::AwaitSwapChain => 3,
        ThreadPhase::AwaitBlit => 2,
        ThreadPhase::AwaitView => 1,
        _ => 0,
    }
}

/// `a` is the step that phase `phase` waits on, for a thread with this
/// window handle, client size and view id; after the end, the tear-down is
/// asked for again.
pub open spec fn is_pending_action(a: WindowThreadAction, phase: ThreadPhase, hwnd: isize, width: u32, height: u32, view_id: i64) -> bool {
    match phase {
        ThreadPhase::AwaitWindow => a matches WindowThreadAction::CreateWindow,
        ThreadPhase::AwaitDevice => a matches WindowThreadAction::PublishAndCreateDevice { hwnd: h } && h == hwnd,
        ThreadPhase::AwaitContext => a matches WindowThreadAction::CreateContext,
        ThreadPhase::AwaitClientRect => a matches WindowThreadAction::ReadClientRect,
        ThreadPhase::AwaitSwapChain => a matches WindowThreadAction::CreateSwapChain { width: w, height: h } && w == width && h == height,
        ThreadPhase::AwaitBlit => a matches WindowThreadAction::CreateBlit { width: w, height: h } && w == width && h == height,
        ThreadPhase::AwaitView => a matches WindowThreadAction::AddView { width: w, height: h } && w == width && h == height,
        ThreadPhase::AwaitCheck => a matches WindowThreadAction::PumpFrame,
        ThreadPhase::AwaitMessages => a matches WindowThreadAction::PumpMessages,
        ThreadPhase::AwaitRemove => a matches WindowThreadAction::RemoveView { view_id: v } && v == view_id,
        ThreadPhase::Done => a matches WindowThreadAction::Teardown { view_id: v } && v == view_id,
    }
}

/// The window thread's state: the phase, the window handle and view id once
/// known, and the client size the swap chain and view were made at.
pub struct WindowThread {
    pub phase: ThreadPhase,
    pub hwnd: isize,
    pub view_id: i64,
    pub width: u32,
    pub height: u32,
}

impl WindowThread {
    /// No window handle is known before the window is created.
    pub open spec fn wf(&self) -> bool {
        self.phase == ThreadPhase::AwaitWindow ==> self.hwnd == 0
    }

    /// A thread about to create its window.
    pub fn start() -> (r: (WindowThread, WindowThreadAction))
        ensures
            r.0.phase == ThreadPhase::AwaitWindow,
            r.0.hwnd == 0,
            r.0.view_id == -1,
            r.0.wf(),
            r.1 matches WindowThreadAction::CreateWindow,
    {
        (WindowThread { phase: ThreadPhase::AwaitWindow, hwnd: 0, view_id: -1, width: 0, height: 0 },
            WindowThreadAction::CreateWindow)
    }

    /// Takes the outcome of the last step and returns the next one.
    ///
    /// Each failed setup step ends the thread with its error (a failed device
    /// or context creation prefixed `window device: ` or `window
    /// GetImmediateContext: `). The client size is the client rectangle's,
    /// each side at least 1. Once the view is added the thread loops: it reads
    /// the close flag, pumps the window messages, reads it again and pumps a
    /// frame; a set flag leads to the view's removal and the tear-down. An
    /// event that does not answer the pending step is ignored and the step
    /// that is pending is asked for again (after a tear-down: the tear-down).
    /// A window handle, once known, never changes to another one: it only
    /// goes back to 0 at the tear-down.
    pub fn step(&mut self, ev: WindowThreadEvent) -> (a: WindowThreadAction)
        requires
            old(self).wf(),
        ensures
            final(self).wf(),
            old(self).hwnd != 0 ==> final(self).hwnd == old(self).hwnd || final(self).hwnd == 0,
            setup_steps_left(final(self).phase) <= setup_steps_left(old(self).phase),
            match (old(self).phase, ev) {
                (ThreadPhase::AwaitWindow, WindowThreadEvent::WindowCreated(r)) => match r {
                    Ok(h) => final(self).phase == ThreadPhase::AwaitDevice && final(self).hwnd == h
                        && (a matches WindowThreadAction::PublishAndCreateDevice { hwnd } && hwnd == h),
                    Err(e) => final(self).phase == ThreadPhase::Done && (a matches WindowThreadAction::Fail(f) && f == e),
                },
                (ThreadPhase::AwaitDevice, WindowThreadEvent::DeviceCreated(r)) => match r {
                    Ok(_) => final(self).phase == ThreadPhase::AwaitContext && a matches WindowThreadAction::CreateContext,
                    Err(e) => final(self).phase == ThreadPhase::Done
                        && (a matches WindowThreadAction::Fail(FlutterEmbedderError::OperationFailed(m))
                            && m@ == prefixed("window device: "@, e@)),
                },
                (ThreadPhase::AwaitContext, WindowThreadEvent::ContextCreated(r)) => match r {
                    Ok(_) => final(self).phase == ThreadPhase::AwaitClientRect && a matches WindowThreadAction::ReadClientRect,
                    Err(e) => final(self).phase == ThreadPhase::Done
                        && (a matches WindowThreadAction::Fail(FlutterEmbedderError::OperationFailed(m))
                            && m@ == prefixed("window GetImmediateContext: "@, e@)),
                },
                (ThreadPhase::AwaitClientRect, WindowThreadEvent::ClientRect(rc)) => {
                    &&& final(self).phase == ThreadPhase::AwaitSwapChain
                    &&& final(self).width == extent_spec(rc.left, rc.right)
                    &&& final(self).height == extent_spec(rc.top, rc.bottom)
                    &&& (a matches WindowThreadAction::CreateSwapChain { width, height }
                        && width == final(self).width && height == final(self).height)
                },
                (ThreadPhase::AwaitSwapChain, WindowThreadEvent::SwapChainCreated(r)) => match r {
                    Ok(_) => final(self).phase == ThreadPhase::AwaitBlit
                        && (a matches WindowThreadAction::CreateBlit { width, height }
                            && width == old(self).width && height == old(self).height),
                    Err(e) => final(self).phase == ThreadPhase::Done && (a matches WindowThreadAction::Fail(f) && f == e),
                },
                (ThreadPhase::AwaitBlit, WindowThreadEvent::BlitCreated(r)) => match r {
                    Ok(_) => final(self).phase == ThreadPhase::AwaitView
                        && (a matches WindowThreadAction::AddView { width, height }
                            && width == old(self).width && height == old(self).height),
                    Err(e) => final(self).phase == ThreadPhase::Done && (a matches WindowThreadAction::Fail(f) && f == e),
                },
                (ThreadPhase::AwaitView, WindowThreadEvent::ViewAdded(r)) => match r {
                    Ok(v) => final(self).phase == ThreadPhase::AwaitCheck && final(self).view_id == v
                        && (a matches WindowThreadAction::Start { view_id, width, height }
                            && view_id == v && width == old(self).width && height == old(self).height),
                    Err(e) => final(self).phase == ThreadPhase::Done && (a matches WindowThreadAction::Fail(f) && f == e),
                },
                (ThreadPhase::AwaitCheck, WindowThreadEvent::Checked(close)) => if close {
                    final(self).phase == ThreadPhase::AwaitRemove
                        && (a matches WindowThreadAction::RemoveView { view_id } && view_id == old(self).view_id)
                } else {
                    final(self).phase == ThreadPhase::AwaitMessages && a matches WindowThreadAction::PumpMessages
                },
                (ThreadPhase::AwaitMessages, WindowThreadEvent::MessagesPumped(close)) => if close {
                    final(self).phase == ThreadPhase::AwaitRemove
                        && (a matches WindowThreadAction::RemoveView { view_id } && view_id == old(self).view_id)
                } else {
                    final(self).phase == ThreadPhase::AwaitCheck && a matches WindowThreadAction::PumpFrame
                },
                (ThreadPhase::AwaitRemove, WindowThreadEvent::ViewRemoved) => {
                    &&& final(self).phase == ThreadPhase::Done
                    &&& final(self).hwnd == 0
                    &&& final(self).view_id == -1
                    &&& (a matches WindowThreadAction::Teardown { view_id } && view_id == old(self).view_id)
                },
                _ => final(self).phase == old(self).phase && final(self).hwnd == old(self).hwnd
                    && final(self).view_id == old(self).view_id
                    && is_pending_action(a, old(self).phase, old(self).hwnd, old(self).width, old(self).height, old(self).view_id),
            },
    {
        match (self.phase, ev) {
            (ThreadPhase::AwaitWindow, WindowThreadEvent::WindowCreated(r)) => match r {
                Ok(h) => {
                    self.hwnd = h;
                    self.phase = ThreadPhase::AwaitDevice;
                    WindowThreadAction::PublishAndCreateDevice { hwnd: h }
                },
                Err(e) => {
                    self.phase = ThreadPhase::Done;
                    WindowThreadAction::Fail(e)
                },
            },
            (ThreadPhase::AwaitDevice, WindowThreadEvent::DeviceCreated(r)) => match r {
                Ok(_) => {
                    self.phase = ThreadPhase::AwaitContext;
                    WindowThreadAction::CreateContext
                },
                Err(e) => {
                    self.phase = ThreadPhase::Done;
                    let mut m = String::from_str("window device: ");
                    m.append(e.as_str());
                    WindowThreadAction::Fail(FlutterEmbedderError::OperationFailed(m))
                },
            },
            (ThreadPhase::AwaitContext, WindowThreadEvent::ContextCreated(r)) => match r {
                Ok(_) => {
                    self.phase = ThreadPhase::AwaitClientRect;
                    WindowThreadAction::ReadClientRect
                },
                Err(e) => {
                    self.phase = ThreadPhase::Done;
                    let mut m = String::from_str("window GetImmediateContext: ");
                    m.append(e.as_str());
                    WindowThreadAction::Fail(FlutterEmbedderError::OperationFailed(m))
                },
            },
            (ThreadPhase::AwaitClientRect, WindowThreadEvent::ClientRect(rc)) => {
                self.width = extent(rc.left, rc.right);
                self.height = extent(rc.top, rc.bottom);
                self.phase = ThreadPhase::AwaitSwapChain;
                WindowThreadAction::CreateSwapChain { width: self.width, height: self.height }
            },
            (ThreadPhase::AwaitSwapChain, WindowThreadEvent::SwapChainCreated(r)) => match r {
                Ok(_) => {
                    self.phase = ThreadPhase::AwaitBlit;
                    WindowThreadAction::CreateBlit { width: self.width, height: self.height }
                },
                Err(e) => {
                    self.phase = ThreadPhase::Done;
                    WindowThreadAction::Fail(e)
                },
            },
            (ThreadPhase::AwaitBlit, WindowThreadEvent::BlitCreated(r)) => match r {
                Ok(_) => {
                    self.phase = ThreadPhase::AwaitView;
                    WindowThreadAction::AddView { width: self.width, height: self.height }
                },
                Err(e) => {
                    self.phase = ThreadPhase::Done;
                    WindowThreadAction::Fail(e)
                },
            },
            (ThreadPhase::AwaitView, WindowThreadEvent::ViewAdded(r)) => match r {
                Ok(v) => {
                    self.view_id = v;
                    self.phase = ThreadPhase::AwaitCheck;
                    WindowThreadAction::Start { view_id: v, width: self.width, height: self.height }
                },
                Err(e) => {
                    self.phase = ThreadPhase::Done;
                    WindowThreadAction::Fail(e)
                },
            },
            (ThreadPhase::AwaitCheck, WindowThreadEvent::Checked(close)) => {
                if close {
                    self.phase = ThreadPhase::AwaitRemove;
                    WindowThreadAction::RemoveView { view_id: self.view_id }
                } else {
                    self.phase = ThreadPhase::AwaitMessages;
                    WindowThreadAction::PumpMessages
                }
            },
            (ThreadPhase::AwaitMessages, WindowThreadEvent::MessagesPumped(close)) => {
                if close {
                    self.phase = ThreadPhase::AwaitRemove;
                    WindowThreadAction::RemoveView { view_id: self.view_id }
                } else {
                    self.phase = ThreadPhase::AwaitCheck;
                    WindowThreadAction::PumpFrame
                }
            },
            (ThreadPhase::AwaitRemove, WindowThreadEvent::ViewRemoved) => {
                let v = self.view_id;
                self.view_id = -1;
                self.hwnd = 0;
                self.phase = ThreadPhase::Done;
                WindowThreadAction::Teardown { view_id: v }
            },
            _ => self.pending(),
        }
    }

    fn pending(&self) -> (a: WindowThreadAction)
        ensures
            is_pending_action(a, self.phase, self.hwnd, self.width, self.height, self.view_id),
    {
        match self.phase {
            ThreadPhase::AwaitWindow => WindowThreadAction::CreateWindow,
            ThreadPhase::AwaitDevice => WindowThreadAction::PublishAndCreateDevice { hwnd: self.hwnd },
            ThreadPhase::AwaitContext => WindowThreadAction::CreateContext,
            ThreadPhase::AwaitClientRect => WindowThreadAction::ReadClientRect,
            ThreadPhase::AwaitSwapChain => WindowThreadAction::CreateSwapChain { width: self.width, height: self.height },
            ThreadPhase::AwaitBlit => WindowThreadAction::CreateBlit { width: self.width, height: self.height },
            ThreadPhase::AwaitView => WindowThreadAction::AddView { width: self.width, height: self.height },
            ThreadPhase::AwaitCheck => WindowThreadAction::PumpFrame,
            ThreadPhase::AwaitMessages => WindowThreadAction::PumpMessages,
            ThreadPhase::AwaitRemove => WindowThreadAction::RemoveView { view_id: self.view_id },
            ThreadPhase::Done => WindowThreadAction::Teardown { view_id: self.view_id },
        }
    }
}

} // verus!
