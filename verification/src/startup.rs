//! The start of an overlay: the order of the outside steps (load the engine
//! library, read the swap chain, set up a renderer, load the AOT data, run the
//! engine), the choice between the OpenGL and the software renderer, and the
//! process-wide slot that lets only one overlay use OpenGL at a time.
use vstd::prelude::*;
use vstd::string::StringExecFns;
use crate::error::{FlutterEmbedderError, RendererType};

verus! {

/// Whether an overlay holds the one OpenGL context of the process.
pub struct OpenGlSlot {
    pub claimed: bool,
}

impl OpenGlSlot {
    pub fn new() -> (s: Self)
        ensures
            !s.claimed,
    {
        OpenGlSlot { claimed: false }
    }

    /// Claims the slot when it is free; true when this call claimed it.
    pub fn try_claim(&mut self) -> (won: bool)
        ensures
            won == !old(self).claimed,
            final(self).claimed,
    {
        if self.claimed {
            false
        } else {
            self.claimed = true;
            true
        }
    }

    /// Gives the slot back.
    pub fn release(&mut self)
        ensures
            !final(self).claimed,
    {
        self.claimed = false;
    }
}

/// The Dart argument that tells the application which renderer it runs on.
pub open spec fn renderer_arg_text(r: RendererType) -> Seq<char> {
    match r {
        RendererType::OpenGL => "--renderer=opengl"@,
        RendererType::Software => "--renderer=software"@,
    }
}

pub fn renderer_arg(r: RendererType) -> (s: &'static str)
    ensures
        s@ == renderer_arg_text(r),
{
    match r {
        RendererType::OpenGL => "--renderer=opengl",
        RendererType::Software => "--renderer=software",
    }
}

/// The Dart arguments given to an overlay, as text.
pub open spec fn given_args(given: Option<Vec<String>>) -> Seq<Seq<char>> {
    match given {
        Some(v) => v.deep_view(),
        None => Seq::empty(),
    }
}

/// The Dart arguments an overlay runs with: the given ones, then the
/// renderer's.
pub open spec fn dart_args_for(given: Seq<Seq<char>>, r: RendererType) -> Seq<Seq<char>> {
    given.push(renderer_arg_text(r))
}

/// The Dart arguments of an overlay: the given ones, then the renderer's.
pub fn dart_arguments(given: Option<Vec<String>>, r: RendererType) -> (args: Vec<String>)
    ensures
        args.deep_view() == dart_args_for(given_args(given), r),
{
    let ghost g = given_args(given);
    let mut args = match given {
        Some(v) => v,
        None => Vec::new(),
    };
    assert(args.deep_view() =~= g);
    args.push(String::from_str(renderer_arg(r)));
    assert(args.deep_view() =~= dart_args_for(g, r));
    args
}

/// The length in bytes of a `w` x `h` RGBA pixel buffer.
pub open spec fn rgba_bytes(w: u32, h: u32) -> int {
    w * h * 4
}

/// The zeroed pixel buffer of the software renderer. Its length is computed in
/// 32 bits, so it must fit there.
pub fn software_pixel_buffer(width: u32, height: u32) -> (buf: Vec<u8>)
    requires
        rgba_bytes(width, height) <= u32::MAX,
    ensures
        buf@.len() == rgba_bytes(width, height),
        forall|i: int| 0 <= i < buf@.len() ==> buf@[i] == 0u8,
{
    proof {
        assert(width * height * 4 <= u32::MAX);
    }
    let len: u32 = width * height * 4;
    let mut buf: Vec<u8> = Vec::new();
    let mut i: u32 = 0;
    while i < len
        invariant
            i <= len,
            buf@.len() == i,
            forall|k: int| 0 <= k < buf@.len() ==> buf@[k] == 0u8,
        decreases len - i,
    {
        buf.push(0u8);
        i = i + 1;
    }
    buf
}

/// The error every failed start ends in.
pub open spec fn init_error_text() -> Seq<char> {
    "Engine handle was null after internal init."@
}

pub fn init_error() -> (e: FlutterEmbedderError)
    ensures
        e matches FlutterEmbedderError::InitializationFailed(s) && s@ == init_error_text(),
{
    FlutterEmbedderError::InitializationFailed(String::from_str("Engine handle was null after internal init."))
}

/// Which outcome the start of an overlay is waiting for.
#[derive(Clone, Copy, Debug, PartialEq, Eq, Structural)]
pub enum InitPhase {
    AwaitDll,
    AwaitSwapChain,
    AwaitOpenGl,
    AwaitSharedOpen,
    AwaitSoftware,
    AwaitAot,
    AwaitRun,
    Done,
}

/// The outside step the host performs next.
#[derive(Debug)]
pub enum InitStep {
    /// Load (or find in the cache) the engine library.
    LoadEngineDll,
    /// Read the output window from the swap chain.
    ReadSwapChain,
    /// Build the ANGLE state and its shared texture at this size.
    InitOpenGl { width: u32, height: u32 },
    /// Open the shared texture on the host device and build the compositing
    /// texture, its view, the keyed mutexes and the frame query.
    OpenSharedOnHost,
    /// Build the software renderer's texture, view and pixel buffer.
    BuildSoftware { width: u32, height: u32 },
    /// Create the engine's AOT data when an AOT snapshot exists.
    LoadAotData,
    /// Run the engine on this renderer, with the multi-view compositor when
    /// `compositor`, in debug mode when `debug_build`, with these Dart
    /// entrypoint arguments.
    RunEngine { renderer: RendererType, compositor: bool, debug_build: bool, dart_args: Vec<String> },
    /// The start is over: the renderer in use, or the error.
    Finished(Result<RendererType, FlutterEmbedderError>),
}

/// The outcome of the step the host was asked to perform.
#[derive(Clone, Copy, Debug, PartialEq, Eq, Structural)]
pub enum InitEvent {
    DllLoaded(bool),
    SwapChainRead(bool),
    OpenGlReady(bool),
    SharedOpened(bool),
    SoftwareBuilt,
    /// Whether AOT data was created.
    AotLoaded(bool),
    /// Whether the engine runs (a non-null engine handle).
    EngineRan(bool),
}

/// How many steps at most remain before the start is over.
pub open spec fn init_steps_left(phase: InitPhase) -> nat {
    match phase {
        InitPhase::AwaitDll => 7,
        InitPhase::AwaitSwapChain => 6,
        InitPhase::AwaitOpenGl => 5,
        InitPhase::AwaitSharedOpen => 4,
        InitPhase::AwaitSoftware => 3,
        InitPhase::AwaitAot => 2,
        InitPhase::AwaitRun => 1,
        InitPhase::Done => 0,
    }
}

/// The event answers the step of this phase.
pub open spec fn init_answers(phase: InitPhase, ev: InitEvent) -> bool {
    match (phase, ev) {
        (InitPhase::AwaitDll, InitEvent::DllLoaded(_)) => true,
        (InitPhase::AwaitSwapChain, InitEvent::SwapChainRead(_)) => true,
        (InitPhase::AwaitOpenGl, InitEvent::OpenGlReady(_)) => true,
        (InitPhase::AwaitSharedOpen, InitEvent::SharedOpened(_)) => true,
        (InitPhase::AwaitSoftware, InitEvent::SoftwareBuilt) => true,
        (InitPhase::AwaitAot, InitEvent::AotLoaded(_)) => true,
        (InitPhase::AwaitRun, InitEvent::EngineRan(_)) => true,
        _ => false,
    }
}

pub open spec fn is_init_failure(s: InitStep) -> bool {
    s matches InitStep::Finished(Err(e)) && (e matches FlutterEmbedderError::InitializationFailed(t) && t@ == init_error_text())
}

/// `s` is the step that phase `phase` waits on, for an overlay of size
/// `width` x `height` on `renderer`.
pub open spec fn is_pending_step(s: InitStep, phase: InitPhase, width: u32, height: u32, renderer: RendererType, debug_build: bool, given: Seq<Seq<char>>) -> bool {
    match phase {
        InitPhase::AwaitDll => s matches InitStep::LoadEngineDll,
        InitPhase::AwaitSwapChain => s matches InitStep::ReadSwapChain,
        InitPhase::AwaitOpenGl => s matches InitStep::InitOpenGl { width: w, height: h } && w == width && h == height,
        InitPhase::AwaitSharedOpen => s matches InitStep::OpenSharedOnHost,
        InitPhase::AwaitSoftware => s matches InitStep::BuildSoftware { width: w, height: h } && w == width && h == height,
        InitPhase::AwaitAot => s matches InitStep::LoadAotData,
        InitPhase::AwaitRun => s matches InitStep::RunEngine { renderer: r, compositor: c, debug_build: d, dart_args }
            && r == renderer && c == (renderer == RendererType::OpenGL) && d == debug_build
            && dart_args.deep_view() == dart_args_for(given, renderer),
        InitPhase::Done => is_init_failure(s),
    }
}

/// The start of one overlay, with the Dart arguments it was given.
pub struct InitFlow {
    pub width: u32,
    pub height: u32,
    pub phase: InitPhase,
    pub renderer: RendererType,
    pub debug_build: bool,
    pub dart_args: Option<Vec<String>>,
}

impl InitFlow {
    /// Begins the start of an overlay of the given size: first the engine
    /// library is loaded.
    pub fn start(width: u32, height: u32, dart_args: Option<Vec<String>>) -> (r: (InitFlow, InitStep))
        ensures
            r.0.width == width,
            r.0.height == height,
            given_args(r.0.dart_args) == given_args(dart_args),
            r.0.phase == InitPhase::AwaitDll,
            r.1 matches InitStep::LoadEngineDll,
    {
        (InitFlow { width, height, phase: InitPhase::AwaitDll, renderer: RendererType::Software, debug_build: true, dart_args },
            InitStep::LoadEngineDll)
    }

    /// The Dart arguments the engine runs with on the chosen renderer.
    fn run_arguments(&self) -> (args: Vec<String>)
        ensures
            args.deep_view() == dart_args_for(given_args(self.dart_args), self.renderer),
    {
        let given = match &self.dart_args {
            Some(v) => Some(v.clone()),
            None => None,
        };
        dart_arguments(given, self.renderer)
    }

    /// The step a phase asks for.
    fn pending_step(&self) -> (s: InitStep)
        ensures
            (s matches InitStep::Finished(_)) <==> self.phase == InitPhase::Done,
            is_pending_step(s, self.phase, self.width, self.height, self.renderer, self.debug_build, given_args(self.dart_args)),
    {
        match self.phase {
            InitPhase::AwaitDll => InitStep::LoadEngineDll,
            InitPhase::AwaitSwapChain => InitStep::ReadSwapChain,
            InitPhase::AwaitOpenGl => InitStep::InitOpenGl { width: self.width, height: self.height },
            InitPhase::AwaitSharedOpen => InitStep::OpenSharedOnHost,
            InitPhase::AwaitSoftware => InitStep::BuildSoftware { width: self.width, height: self.height },
            InitPhase::AwaitAot => InitStep::LoadAotData,
            InitPhase::AwaitRun => InitStep::RunEngine {
                renderer: self.renderer,
                compositor: self.renderer == RendererType::OpenGL,
                debug_build: self.debug_build,
                dart_args: self.run_arguments(),
            },
            InitPhase::Done => InitStep::Finished(Err(init_error())),
        }
    }

    /// Takes the outcome of the last step and returns the next one.
    ///
    /// A missing engine library, a zero size, an unreadable swap chain or an
    /// engine that does not run end the start with the initialization error.
    /// The OpenGL renderer is tried only by the overlay that claims the slot;
    /// when its setup or the opening of its texture on the host fails, the
    /// slot is given back and the software renderer is used. The overlay is
    /// in debug mode when no AOT data was created, and the compositor runs
    /// with the OpenGL renderer only. An event that does not answer the
    /// pending step changes nothing.
    pub fn step(&mut self, slot: &mut OpenGlSlot, ev: InitEvent) -> (s: InitStep)
        ensures
            final(self).width == old(self).width,
            final(self).height == old(self).height,
            given_args(final(self).dart_args) == given_args(old(self).dart_args),
            !init_answers(old(self).phase, ev) ==> final(self).phase == old(self).phase
                && final(self).renderer == old(self).renderer
                && final(self).debug_build == old(self).debug_build
                && final(slot).claimed == old(slot).claimed
                && is_pending_step(s, old(self).phase, old(self).width, old(self).height, old(self).renderer, old(self).debug_build, given_args(old(self).dart_args)),
            init_answers(old(self).phase, ev) ==> init_steps_left(final(self).phase) < init_steps_left(old(self).phase),
            (s matches InitStep::Finished(_)) ==> final(self).phase == InitPhase::Done,
            match (old(self).phase, ev) {
                (InitPhase::AwaitDll, InitEvent::DllLoaded(ok)) => {
                    &&& final(slot).claimed == old(slot).claimed
                    &&& if ok && old(self).width != 0 && old(self).height != 0 {
                        s matches InitStep::ReadSwapChain && final(self).phase == InitPhase::AwaitSwapChain
                    } else {
                        is_init_failure(s)
                    }
                },
                (InitPhase::AwaitSwapChain, InitEvent::SwapChainRead(ok)) => {
                    if !ok {
                        is_init_failure(s) && final(slot).claimed == old(slot).claimed
                    } else if !old(slot).claimed {
                        &&& final(slot).claimed
                        &&& (s matches InitStep::InitOpenGl { width, height }
                            && width == old(self).width && height == old(self).height)
                        &&& final(self).phase == InitPhase::AwaitOpenGl
                    } else {
                        &&& final(slot).claimed
                        &&& (s matches InitStep::BuildSoftware { width, height }
                            && width == old(self).width && height == old(self).height)
                        &&& final(self).phase == InitPhase::AwaitSoftware
                    }
                },
                (InitPhase::AwaitOpenGl, InitEvent::OpenGlReady(ok)) => {
                    if ok {
                        &&& s matches InitStep::OpenSharedOnHost
                        &&& final(self).phase == InitPhase::AwaitSharedOpen
                        &&& final(slot).claimed == old(slot).claimed
                    } else {
                        &&& !final(slot).claimed
                        &&& (s matches InitStep::BuildSoftware { width, height }
                            && width == old(self).width && height == old(self).height)
                        &&& final(self).phase == InitPhase::AwaitSoftware
                    }
                },
                (InitPhase::AwaitSharedOpen, InitEvent::SharedOpened(ok)) => {
                    if ok {
                        &&& s matches InitStep::LoadAotData
                        &&& final(self).phase == InitPhase::AwaitAot
                        &&& final(self).renderer == RendererType::OpenGL
                        &&& final(slot).claimed == old(slot).claimed
                    } else {
                        &&& !final(slot).claimed
                        &&& (s matches InitStep::BuildSoftware { width, height }
                            && width == old(self).width && height == old(self).height)
                        &&& final(self).phase == InitPhase::AwaitSoftware
                    }
                },
                (InitPhase::AwaitSoftware, InitEvent::SoftwareBuilt) => {
                    &&& s matches InitStep::LoadAotData
                    &&& final(self).phase == InitPhase::AwaitAot
                    &&& final(self).renderer == RendererType::Software
                    &&& final(slot).claimed == old(slot).claimed
                },
                (InitPhase::AwaitAot, InitEvent::AotLoaded(has_aot)) => {
                    &&& final(self).debug_build == !has_aot
                    &&& final(self).renderer == old(self).renderer
                    &&& (s matches InitStep::RunEngine { renderer, compositor, debug_build, dart_args }
                        && renderer == old(self).renderer
                        && compositor == (old(self).renderer == RendererType::OpenGL)
                        && debug_build == !has_aot
                        && dart_args.deep_view() == dart_args_for(given_args(old(self).dart_args), renderer))
                    &&& final(self).phase == InitPhase::AwaitRun
                    &&& final(slot).claimed == old(slot).claimed
                },
                (InitPhase::AwaitRun, InitEvent::EngineRan(ok)) => {
                    &&& final(slot).claimed == old(slot).claimed
                    &&& if ok {
                        s matches InitStep::Finished(Ok(r)) && r == old(self).renderer
                    } else {
                        is_init_failure(s)
                    }
                },
                _ => true,
            },
    {
        match (self.phase, ev) {
            (InitPhase::AwaitDll, InitEvent::DllLoaded(ok)) => {
                if ok && self.width != 0 && self.height != 0 {
                    self.phase = InitPhase::AwaitSwapChain;
                    InitStep::ReadSwapChain
                } else {
                    self.phase = InitPhase::Done;
                    InitStep::Finished(Err(init_error()))
                }
            },
            (InitPhase::AwaitSwapChain, InitEvent::SwapChainRead(ok)) => {
                if !ok {
                    self.phase = InitPhase::Done;
                    InitStep::Finished(Err(init_error()))
                } else if slot.try_claim() {
                    self.phase = InitPhase::AwaitOpenGl;
                    InitStep::InitOpenGl { width: self.width, height: self.height }
                } else {
                    self.phase = InitPhase::AwaitSoftware;
                    InitStep::BuildSoftware { width: self.width, height: self.height }
                }
            },
            (InitPhase::AwaitOpenGl, InitEvent::OpenGlReady(ok)) => {
                if ok {
                    self.phase = InitPhase::AwaitSharedOpen;
                    InitStep::OpenSharedOnHost
                } else {
                    slot.release();
                    self.phase = InitPhase::AwaitSoftware;
                    InitStep::BuildSoftware { width: self.width, height: self.height }
                }
            },
            (InitPhase::AwaitSharedOpen, InitEvent::SharedOpened(ok)) => {
                if ok {
                    self.renderer = RendererType::OpenGL;
                    self.phase = InitPhase::AwaitAot;
                    InitStep::LoadAotData
                } else {
                    slot.release();
                    self.phase = InitPhase::AwaitSoftware;
                    InitStep::BuildSoftware { width: self.width, height: self.height }
                }
            },
            (InitPhase::AwaitSoftware, InitEvent::SoftwareBuilt) => {
                self.renderer = RendererType::Software;
                self.phase = InitPhase::AwaitAot;
                InitStep::LoadAotData
            },
            (InitPhase::AwaitAot, InitEvent::AotLoaded(has_aot)) => {
                self.debug_build = !has_aot;
                self.phase = InitPhase::AwaitRun;
                InitStep::RunEngine {
                    renderer: self.renderer,
                    compositor: self.renderer == RendererType::OpenGL,
                    debug_build: self.debug_build,
                    dart_args: self.run_arguments(),
                }
            },
            (InitPhase::AwaitRun, InitEvent::EngineRan(ok)) => {
                self.phase = InitPhase::Done;
                if ok {
                    InitStep::Finished(Ok(self.renderer))
                } else {
                    InitStep::Finished(Err(init_error()))
                }
            },
            _ => self.pending_step(),
        }
    }
}

} // verus!
