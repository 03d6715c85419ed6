//! The EGL side of the ANGLE renderer: attribute lists, error names, and the
//! bookkeeping of the display, the two contexts and the pbuffer surfaces
//! that decides, call by call, what the render and resource threads do.
//! Handles are kept by address (`0` is "none").
use vstd::prelude::*;

verus! {

pub const EGL_TRUE: i32 = 1;
pub const EGL_NONE: i32 = 0x3038;
pub const EGL_SUCCESS: i32 = 0x3000;
pub const EGL_CONTEXT_LOST: i32 = 0x300E;
pub const EGL_WIDTH: i32 = 0x3057;
pub const EGL_HEIGHT: i32 = 0x3056;
pub const EGL_TEXTURE_FORMAT: i32 = 0x3080;
pub const EGL_TEXTURE_RGBA: i32 = 0x305E;
pub const EGL_TEXTURE_TARGET: i32 = 0x3081;
pub const EGL_TEXTURE_2D: i32 = 0x305F;
pub const EGL_CONTEXT_CLIENT_VERSION: i32 = 0x3098;
pub const EGL_SURFACE_TYPE: i32 = 0x3033;
pub const EGL_PBUFFER_BIT: i32 = 0x0001;
pub const EGL_RENDERABLE_TYPE: i32 = 0x3040;
pub const EGL_OPENGL_ES2_BIT: i32 = 0x0004;
pub const EGL_RED_SIZE: i32 = 0x3024;
pub const EGL_GREEN_SIZE: i32 = 0x3023;
pub const EGL_BLUE_SIZE: i32 = 0x3022;
pub const EGL_ALPHA_SIZE: i32 = 0x3021;
pub const EGL_DEPTH_SIZE: i32 = 0x3025;
pub const EGL_STENCIL_SIZE: i32 = 0x3026;
pub const EGL_PLATFORM_ANGLE_TYPE_ANGLE: i32 = 0x3203;
pub const EGL_PLATFORM_ANGLE_TYPE_D3D11_ANGLE: i32 = 0x3208;
pub const EGL_PLATFORM_ANGLE_ENABLE_AUTOMATIC_TRIM_ANGLE: i32 = 0x320F;
pub const EGL_EXPERIMENTAL_PRESENT_PATH_ANGLE: i32 = 0x33A4;
pub const EGL_EXPERIMENTAL_PRESENT_PATH_FAST_ANGLE: i32 = 0x33A9;
pub const EGL_PLATFORM_ANGLE_DEBUG_LAYERS_ENABLED_ANGLE: i32 = 0x3451;

/// The name of an EGL error code.
pub open spec fn egl_error_text(code: i32) -> Seq<char> {
    if code == 0x3000 { "EGL_SUCCESS"@ }
    else if code == 0x3001 { "EGL_NOT_INITIALIZED"@ }
    else if code == 0x3002 { "EGL_BAD_ACCESS"@ }
    else if code == 0x3003 { "EGL_BAD_ALLOC"@ }
    else if code == 0x3004 { "EGL_BAD_ATTRIBUTE"@ }
    else if code == 0x3005 { "EGL_BAD_CONFIG"@ }
    else if code == 0x3006 { "EGL_BAD_CONTEXT"@ }
    else if code == 0x3007 { "EGL_BAD_CURRENT_SURFACE"@ }
    else if code == 0x3008 { "EGL_BAD_DISPLAY"@ }
    else if code == 0x3009 { "EGL_BAD_MATCH"@ }
    else if code == 0x300A { "EGL_BAD_NATIVE_PIXMAP"@ }
    else if code == 0x300B { "EGL_BAD_NATIVE_WINDOW"@ }
    else if code == 0x300C { "EGL_BAD_PARAMETER"@ }
    else if code == 0x300D { "EGL_BAD_SURFACE"@ }
    else if code == 0x300E { "EGL_CONTEXT_LOST"@ }
    else { "Unknown EGL error"@ }
}

/// The name of an EGL error code.
pub fn egl_error_to_string(code: i32) -> (s: &'static str)
    ensures
        s@ == egl_error_text(code),
{
    if code == 0x3000 { "EGL_SUCCESS" }
    else if code == 0x3001 { "EGL_NOT_INITIALIZED" }
    else if code == 0x3002 { "EGL_BAD_ACCESS" }
    else if code == 0x3003 { "EGL_BAD_ALLOC" }
    else if code == 0x3004 { "EGL_BAD_ATTRIBUTE" }
    else if code == 0x3005 { "EGL_BAD_CONFIG" }
    else if code == 0x3006 { "EGL_BAD_CONTEXT" }
    else if code == 0x3007 { "EGL_BAD_CURRENT_SURFACE" }
    else if code == 0x3008 { "EGL_BAD_DISPLAY" }
    else if code == 0x3009 { "EGL_BAD_MATCH" }
    else if code == 0x300A { "EGL_BAD_NATIVE_PIXMAP" }
    else if code == 0x300B { "EGL_BAD_NATIVE_WINDOW" }
    else if code == 0x300C { "EGL_BAD_PARAMETER" }
    else if code == 0x300D { "EGL_BAD_SURFACE" }
    else if code == 0x300E { "EGL_CONTEXT_LOST" }
    else { "Unknown EGL error" }
}

/// The name of a device-removed reason (an `HRESULT`).
pub open spec fn removed_reason_text(hr: i32) -> Seq<char> {
    let v = hr as u32;
    if v == 0x0000_0000 { "S_OK (no error)"@ }
    else if v == 0x887A_0001 { "DXGI_ERROR_INVALID_CALL"@ }
    else if v == 0x887A_0002 { "DXGI_ERROR_NOT_FOUND"@ }
    else if v == 0x887A_0005 { "DXGI_ERROR_UNSUPPORTED"@ }
    else if v == 0x887A_0006 { "DXGI_ERROR_DEVICE_REMOVED"@ }
    else if v == 0x887A_0007 { "DXGI_ERROR_DEVICE_HUNG (GPU timeout/TDR)"@ }
    else if v == 0x887A_0008 { "DXGI_ERROR_DEVICE_RESET"@ }
    else if v == 0x887A_0020 { "DXGI_ERROR_DRIVER_INTERNAL_ERROR"@ }
    else { "Unknown error"@ }
}

/// The name of a device-removed reason.
pub fn device_removed_reason_to_string(hr: i32) -> (s: &'static str)
    ensures
        s@ == removed_reason_text(hr),
{
    let v: u32 = hr as u32;
    if v == 0x0000_0000 { "S_OK (no error)" }
    else if v == 0x887A_0001 { "DXGI_ERROR_INVALID_CALL" }
    else if v == 0x887A_0002 { "DXGI_ERROR_NOT_FOUND" }
    else if v == 0x887A_0005 { "DXGI_ERROR_UNSUPPORTED" }
    else if v == 0x887A_0006 { "DXGI_ERROR_DEVICE_REMOVED" }
    else if v == 0x887A_0007 { "DXGI_ERROR_DEVICE_HUNG (GPU timeout/TDR)" }
    else if v == 0x887A_0008 { "DXGI_ERROR_DEVICE_RESET" }
    else if v == 0x887A_0020 { "DXGI_ERROR_DRIVER_INTERNAL_ERROR" }
    else { "Unknown error" }
}

pub open spec fn display_attributes_spec(debug_layers: bool) -> Seq<i32> {
    let base = seq![
        EGL_PLATFORM_ANGLE_TYPE_ANGLE,
        EGL_PLATFORM_ANGLE_TYPE_D3D11_ANGLE,
        EGL_PLATFORM_ANGLE_ENABLE_AUTOMATIC_TRIM_ANGLE,
        EGL_TRUE,
        EGL_EXPERIMENTAL_PRESENT_PATH_ANGLE,
        EGL_EXPERIMENTAL_PRESENT_PATH_FAST_ANGLE,
    ];
    if debug_layers {
        base + seq![EGL_PLATFORM_ANGLE_DEBUG_LAYERS_ENABLED_ANGLE, EGL_TRUE, EGL_NONE]
    } else {
        base.push(EGL_NONE)
    }
}

/// The attributes of the ANGLE display: the D3D11 backend with automatic
/// trimming and the fast present path, plus the D3D11 debug layers when
/// asked for, terminated by `EGL_NONE`.
pub fn build_display_attributes(debug_layers: bool) -> (attrs: Vec<i32>)
    ensures
        attrs@ == display_attributes_spec(debug_layers),
{
    let mut attrs: Vec<i32> = Vec::new();
    attrs.push(EGL_PLATFORM_ANGLE_TYPE_ANGLE);
    attrs.push(EGL_PLATFORM_ANGLE_TYPE_D3D11_ANGLE);
    attrs.push(EGL_PLATFORM_ANGLE_ENABLE_AUTOMATIC_TRIM_ANGLE);
    attrs.push(EGL_TRUE);
    attrs.push(EGL_EXPERIMENTAL_PRESENT_PATH_ANGLE);
    attrs.push(EGL_EXPERIMENTAL_PRESENT_PATH_FAST_ANGLE);
    if debug_layers {
        attrs.push(EGL_PLATFORM_ANGLE_DEBUG_LAYERS_ENABLED_ANGLE);
        attrs.push(EGL_TRUE);
    }
    attrs.push(EGL_NONE);
    assert(attrs@ =~= display_attributes_spec(debug_layers));
    attrs
}

pub open spec fn config_attributes_spec() -> Seq<i32> {
    seq![
        EGL_RED_SIZE, 8, EGL_GREEN_SIZE, 8, EGL_BLUE_SIZE, 8, EGL_ALPHA_SIZE, 8,
        EGL_DEPTH_SIZE, 8, EGL_STENCIL_SIZE, 8,
        EGL_SURFACE_TYPE, EGL_PBUFFER_BIT, EGL_RENDERABLE_TYPE, EGL_OPENGL_ES2_BIT,
        EGL_NONE,
    ]
}

/// The framebuffer configuration asked of EGL: 8 bits per channel, 8-bit
/// depth and stencil, pbuffer surfaces, OpenGL ES 2.
pub fn config_attributes() -> (attrs: Vec<i32>)
    ensures
        attrs@ == config_attributes_spec(),
{
    let attrs: Vec<i32> = vec![
        EGL_RED_SIZE, 8, EGL_GREEN_SIZE, 8, EGL_BLUE_SIZE, 8, EGL_ALPHA_SIZE, 8,
        EGL_DEPTH_SIZE, 8, EGL_STENCIL_SIZE, 8,
        EGL_SURFACE_TYPE, EGL_PBUFFER_BIT, EGL_RENDERABLE_TYPE, EGL_OPENGL_ES2_BIT,
        EGL_NONE,
    ];
    assert(attrs@ =~= config_attributes_spec());
    attrs
}

/// The attributes of both rendering contexts: OpenGL ES 2.
pub fn context_attributes() -> (attrs: Vec<i32>)
    ensures
        attrs@ == seq![EGL_CONTEXT_CLIENT_VERSION, 2i32, EGL_NONE],
{
    let attrs: Vec<i32> = vec![EGL_CONTEXT_CLIENT_VERSION, 2, EGL_NONE];
    assert(attrs@ =~= seq![EGL_CONTEXT_CLIENT_VERSION, 2i32, EGL_NONE]);
    attrs
}

/// The attributes of the pbuffer that wraps the overlay's shared texture.
pub fn pbuffer_attributes(width: u32, height: u32) -> (attrs: Vec<i32>)
    ensures
        attrs@ == seq![EGL_WIDTH, width as i32, EGL_HEIGHT, height as i32, EGL_NONE],
{
    let w: i32 = #[verifier::truncate] (width as i32);
    let h: i32 = #[verifier::truncate] (height as i32);
    let attrs: Vec<i32> = vec![EGL_WIDTH, w, EGL_HEIGHT, h, EGL_NONE];
    assert(attrs@ =~= seq![EGL_WIDTH, width as i32, EGL_HEIGHT, height as i32, EGL_NONE]);
    attrs
}

/// The attributes of a secondary view's pbuffer, which is also bindable as
/// an RGBA 2D texture.
pub fn texture_pbuffer_attributes(width: u32, height: u32) -> (attrs: Vec<i32>)
    ensures
        attrs@ == seq![
            EGL_WIDTH, width as i32, EGL_HEIGHT, height as i32, EGL_TEXTURE_FORMAT, EGL_TEXTURE_RGBA,
            EGL_TEXTURE_TARGET, EGL_TEXTURE_2D, EGL_NONE,
        ],
{
    let w: i32 = #[verifier::truncate] (width as i32);
    let h: i32 = #[verifier::truncate] (height as i32);
    let attrs: Vec<i32> = vec![
        EGL_WIDTH, w, EGL_HEIGHT, h, EGL_TEXTURE_FORMAT, EGL_TEXTURE_RGBA, EGL_TEXTURE_TARGET,
        EGL_TEXTURE_2D, EGL_NONE,
    ];
    assert(attrs@ =~= seq![
        EGL_WIDTH, width as i32, EGL_HEIGHT, height as i32, EGL_TEXTURE_FORMAT, EGL_TEXTURE_RGBA,
        EGL_TEXTURE_TARGET, EGL_TEXTURE_2D, EGL_NONE,
    ]);
    attrs
}

/// The EGL objects of an overlay's ANGLE renderer, by address: the display,
/// the main and resource contexts (created lazily on their threads), the
/// current pbuffer surface, the surfaces waiting to be destroyed on the
/// render thread, the device-lost flag, a resize waiting for the render
/// thread, and the threads the contexts belong to.
pub struct EglState {
    pub display: usize,
    pub context: usize,
    pub resource_context: usize,
    pub pbuffer: usize,
    pub old_pbuffers: Vec<usize>,
    pub device_lost: bool,
    pub pending_resize: Option<(u32, u32)>,
    pub main_thread: Option<u64>,
    pub resource_thread: Option<u64>,
}

/// What the render thread does when asked to make the main context current.
pub enum MakeCurrentStep {
    /// The device is lost: fail.
    DeviceLost,
    /// The main context does not exist yet: create it (sharing with the
    /// resource context) on this thread.
    CreateContext,
    /// Called on another thread than the context's: fail.
    WrongThread,
    /// Unbind, destroy these old surfaces, then make the pbuffer and the
    /// main context current.
    Bind { destroy: Vec<usize> },
}

/// What the resource thread does when asked to make its context current.
#[derive(PartialEq, Eq, Structural, Clone, Copy, Debug)]
pub enum ResourceStep {
    DeviceLost,
    CreateContext,
    WrongThread,
    /// Make the resource context current without a surface.
    Bind,
}

/// The multiset of surfaces the state is responsible for: the current one
/// and those waiting for destruction.
pub open spec fn owned_surfaces(pbuffer: usize, old: Seq<usize>) -> Seq<usize> {
    if pbuffer == 0 { old } else { old.push(pbuffer) }
}

impl EglState {
    /// The state of a freshly initialized display (non-null, as the
    /// display's start-up hands it over): no contexts, no surface.
    pub fn new(display: usize) -> (s: Self)
        requires
            display != 0,
        ensures
            s.display == display && s.context == 0 && s.resource_context == 0 && s.pbuffer == 0,
            s.old_pbuffers@.len() == 0,
            !s.device_lost && s.pending_resize is None,
            s.main_thread is None && s.resource_thread is None,
    {
        EglState {
            display,
            context: 0,
            resource_context: 0,
            pbuffer: 0,
            old_pbuffers: Vec::new(),
            device_lost: false,
            pending_resize: None,
            main_thread: None,
            resource_thread: None,
        }
    }

    /// Retires the current pbuffer surface: it joins the surfaces destroyed
    /// later on the render thread (a queue, so that back-to-back resizes
    /// lose none).
    pub fn cleanup_surface_resources(&mut self)
        ensures
            final(self).pbuffer == 0,
            final(self).old_pbuffers@ == owned_surfaces(old(self).pbuffer, old(self).old_pbuffers@),
            final(self).display == old(self).display,
            final(self).context == old(self).context,
            final(self).resource_context == old(self).resource_context,
            final(self).device_lost == old(self).device_lost,
            final(self).pending_resize == old(self).pending_resize,
            final(self).main_thread == old(self).main_thread,
            final(self).resource_thread == old(self).resource_thread,
    {
        if self.pbuffer != 0 {
            self.old_pbuffers.push(self.pbuffer);
            self.pbuffer = 0;
        }
    }

    /// Installs the pbuffer created for new resources, retiring the old one.
    pub fn install_pbuffer(&mut self, surface: usize)
        ensures
            final(self).pbuffer == surface,
            final(self).old_pbuffers@ == owned_surfaces(old(self).pbuffer, old(self).old_pbuffers@),
            final(self).display == old(self).display,
            final(self).context == old(self).context,
            final(self).resource_context == old(self).resource_context,
            final(self).device_lost == old(self).device_lost,
            final(self).pending_resize == old(self).pending_resize,
            final(self).main_thread == old(self).main_thread,
            final(self).resource_thread == old(self).resource_thread,
    {
        self.cleanup_surface_resources();
        self.pbuffer = surface;
    }

    /// Prepares recovery from a lost device: retires the surface, returns the
    /// contexts to destroy, forgets their threads and clears the flag.
    /// Nothing happens when the device is not lost.
    pub fn prepare_for_recovery(&mut self) -> (destroy: Vec<usize>)
        ensures
            !old(self).device_lost ==> destroy@.len() == 0 && final(self).display == old(self).display
                && final(self).context == old(self).context && final(self).resource_context == old(self).resource_context
                && final(self).pbuffer == old(self).pbuffer && final(self).old_pbuffers@ == old(self).old_pbuffers@
                && final(self).main_thread == old(self).main_thread
                && final(self).resource_thread == old(self).resource_thread && !final(self).device_lost,
            old(self).device_lost ==> {
                &&& destroy@ == (if old(self).context != 0 { seq![old(self).context] } else { Seq::<usize>::empty() })
                    + (if old(self).resource_context != 0 { seq![old(self).resource_context] } else { Seq::<usize>::empty() })
                &&& final(self).context == 0 && final(self).resource_context == 0
                &&& final(self).pbuffer == 0
                &&& final(self).old_pbuffers@ == owned_surfaces(old(self).pbuffer, old(self).old_pbuffers@)
                &&& final(self).main_thread is None && final(self).resource_thread is None
                &&& !final(self).device_lost
                &&& final(self).display == old(self).display
            },
            final(self).pending_resize == old(self).pending_resize,
    {
        let mut destroy: Vec<usize> = Vec::new();
        if !self.device_lost {
            return destroy;
        }
        self.cleanup_surface_resources();
        if self.context != 0 {
            destroy.push(self.context);
            self.context = 0;
        }
        if self.resource_context != 0 {
            destroy.push(self.resource_context);
            self.resource_context = 0;
        }
        self.main_thread = None;
        self.resource_thread = None;
        self.device_lost = false;
        proof {
            assert(destroy@ =~= (if old(self).context != 0 { seq![old(self).context] } else { Seq::<usize>::empty() })
                + (if old(self).resource_context != 0 { seq![old(self).resource_context] } else { Seq::<usize>::empty() }));
        }
        destroy
    }

    /// First step of a full reinitialization after a lost device: retires
    /// the surface and returns the contexts to destroy and the display to
    /// terminate; everything is forgotten until [`finish_reinitialize`].
    pub fn begin_reinitialize(&mut self) -> (r: (Vec<usize>, Option<usize>))
        ensures
            r.0@ == (if old(self).context != 0 { seq![old(self).context] } else { Seq::<usize>::empty() })
                + (if old(self).resource_context != 0 { seq![old(self).resource_context] } else { Seq::<usize>::empty() }),
            r.1 == if old(self).display != 0 { Some(old(self).display) } else { None },
            final(self).display == 0 && final(self).context == 0 && final(self).resource_context == 0,
            final(self).pbuffer == 0,
            final(self).old_pbuffers@ == owned_surfaces(old(self).pbuffer, old(self).old_pbuffers@),
            final(self).main_thread is None && final(self).resource_thread is None,
            final(self).device_lost == old(self).device_lost,
            final(self).pending_resize == old(self).pending_resize,
    {
        self.cleanup_surface_resources();
        let mut contexts: Vec<usize> = Vec::new();
        if self.context != 0 {
            contexts.push(self.context);
            self.context = 0;
        }
        if self.resource_context != 0 {
            contexts.push(self.resource_context);
            self.resource_context = 0;
        }
        let display = if self.display != 0 {
            let d = self.display;
            self.display = 0;
            Some(d)
        } else {
            None
        };
        self.main_thread = None;
        self.resource_thread = None;
        proof {
            assert(contexts@ =~= (if old(self).context != 0 { seq![old(self).context] } else { Seq::<usize>::empty() })
                + (if old(self).resource_context != 0 { seq![old(self).resource_context] } else { Seq::<usize>::empty() }));
        }
        (contexts, display)
    }

    /// Last step of a successful reinitialization: the new (non-null)
    /// display is in use and the device is no longer lost.
    pub fn finish_reinitialize(&mut self, display: usize)
        requires
            display != 0,
        ensures
            final(self).display == display && final(self).display != 0,
            !final(self).device_lost,
            final(self).context == old(self).context,
            final(self).resource_context == old(self).resource_context,
            final(self).pbuffer == old(self).pbuffer,
            final(self).old_pbuffers@ == old(self).old_pbuffers@,
            final(self).pending_resize == old(self).pending_resize,
            final(self).main_thread == old(self).main_thread,
            final(self).resource_thread == old(self).resource_thread,
    {
        self.display = display;
        self.device_lost = false;
    }

    /// Takes the resize the render thread must apply before drawing.
    pub fn take_pending_resize(&mut self) -> (r: Option<(u32, u32)>)
        ensures
            r == old(self).pending_resize,
            final(self).pending_resize is None,
            final(self).display == old(self).display,
            final(self).context == old(self).context,
            final(self).resource_context == old(self).resource_context,
            final(self).pbuffer == old(self).pbuffer,
            final(self).old_pbuffers@ == old(self).old_pbuffers@,
            final(self).device_lost == old(self).device_lost,
            final(self).main_thread == old(self).main_thread,
            final(self).resource_thread == old(self).resource_thread,
    {
        let r = self.pending_resize;
        self.pending_resize = None;
        r
    }

    /// Decides what the render thread `thread` does to make the main context
    /// current. When binding, the old surfaces are handed out for
    /// destruction.
    pub fn make_current_step(&mut self, thread: u64) -> (step: MakeCurrentStep)
        ensures
            old(self).device_lost ==> step is DeviceLost,
            !old(self).device_lost && old(self).context == 0 ==> step is CreateContext,
            !old(self).device_lost && old(self).context != 0 && old(self).main_thread != Some(thread)
                ==> step is WrongThread,
            !old(self).device_lost && old(self).context != 0 && old(self).main_thread == Some(thread) ==> {
                &&& step matches MakeCurrentStep::Bind { destroy } && destroy@ == old(self).old_pbuffers@
                &&& final(self).old_pbuffers@.len() == 0
            },
            !(!old(self).device_lost && old(self).context != 0 && old(self).main_thread == Some(thread))
                ==> final(self).old_pbuffers@ == old(self).old_pbuffers@,
            final(self).display == old(self).display,
            final(self).context == old(self).context,
            final(self).resource_context == old(self).resource_context,
            final(self).pbuffer == old(self).pbuffer,
            final(self).device_lost == old(self).device_lost,
            final(self).pending_resize == old(self).pending_resize,
            final(self).main_thread == old(self).main_thread,
            final(self).resource_thread == old(self).resource_thread,
    {
        if self.device_lost {
            return MakeCurrentStep::DeviceLost;
        }
        if self.context == 0 {
            return MakeCurrentStep::CreateContext;
        }
        match self.main_thread {
            Some(t) => {
                if t != thread {
                    return MakeCurrentStep::WrongThread;
                }
            },
            None => {
                return MakeCurrentStep::WrongThread;
            },
        }
        let mut destroy: Vec<usize> = Vec::new();
        std::mem::swap(&mut destroy, &mut self.old_pbuffers);
        MakeCurrentStep::Bind { destroy }
    }

    /// Records the main context created on `thread` (`0` when creation
    /// failed, which marks the device lost). Returns whether it exists.
    pub fn note_main_context(&mut self, context: usize, thread: u64) -> (ok: bool)
        ensures
            ok == (context != 0),
            ok ==> final(self).context == context && final(self).main_thread == Some(thread)
                && final(self).device_lost == old(self).device_lost,
            !ok ==> final(self).device_lost && final(self).context == old(self).context
                && final(self).main_thread == old(self).main_thread,
            final(self).display == old(self).display,
            final(self).resource_context == old(self).resource_context,
            final(self).pbuffer == old(self).pbuffer,
            final(self).old_pbuffers@ == old(self).old_pbuffers@,
            final(self).pending_resize == old(self).pending_resize,
            final(self).resource_thread == old(self).resource_thread,
    {
        if context == 0 {
            self.device_lost = true;
            false
        } else {
            self.context = context;
            self.main_thread = Some(thread);
            true
        }
    }

    /// Records the result of making a context current: a failure with
    /// `EGL_CONTEXT_LOST` marks the device lost. Returns the result.
    pub fn note_make_current(&mut self, result: i32, error: i32) -> (ok: bool)
        ensures
            ok == (result == EGL_TRUE),
            final(self).device_lost == (old(self).device_lost || (result != EGL_TRUE && error == EGL_CONTEXT_LOST)),
            final(self).display == old(self).display,
            final(self).context == old(self).context,
            final(self).resource_context == old(self).resource_context,
            final(self).pbuffer == old(self).pbuffer,
            final(self).old_pbuffers@ == old(self).old_pbuffers@,
            final(self).pending_resize == old(self).pending_resize,
            final(self).main_thread == old(self).main_thread,
            final(self).resource_thread == old(self).resource_thread,
    {
        if result != EGL_TRUE && error == EGL_CONTEXT_LOST {
            self.device_lost = true;
        }
        result == EGL_TRUE
    }

    /// Decides what the resource thread `thread` does to make its context
    /// current.
    pub fn resource_step(&self, thread: u64) -> (step: ResourceStep)
        ensures
            step == if self.device_lost {
                ResourceStep::DeviceLost
            } else if self.resource_context == 0 {
                ResourceStep::CreateContext
            } else if self.resource_thread != Some(thread) {
                ResourceStep::WrongThread
            } else {
                ResourceStep::Bind
            },
    {
        if self.device_lost {
            ResourceStep::DeviceLost
        } else if self.resource_context == 0 {
            ResourceStep::CreateContext
        } else {
            match self.resource_thread {
                Some(t) => if t == thread { ResourceStep::Bind } else { ResourceStep::WrongThread },
                None => ResourceStep::WrongThread,
            }
        }
    }

    /// Records the resource context created on `thread` (`0` when creation
    /// failed, which marks the device lost). Returns whether it exists.
    pub fn note_resource_context(&mut self, context: usize, thread: u64) -> (ok: bool)
        ensures
            ok == (context != 0),
            ok ==> final(self).resource_context == context && final(self).resource_thread == Some(thread)
                && final(self).device_lost == old(self).device_lost,
            !ok ==> final(self).device_lost && final(self).resource_context == old(self).resource_context
                && final(self).resource_thread == old(self).resource_thread,
            final(self).display == old(self).display,
            final(self).context == old(self).context,
            final(self).pbuffer == old(self).pbuffer,
            final(self).old_pbuffers@ == old(self).old_pbuffers@,
            final(self).pending_resize == old(self).pending_resize,
            final(self).main_thread == old(self).main_thread,
    {
        if context == 0 {
            self.device_lost = true;
            false
        } else {
            self.resource_context = context;
            self.resource_thread = Some(thread);
            true
        }
    }
}


/// The callbacks the OpenGL renderer configuration hands the engine: which of
/// the configuration's entries are set.
#[derive(Clone, Copy, Debug, PartialEq, Eq, Structural)]
pub struct OpenGlRendererConfig {
    pub make_current: bool,
    pub clear_current: bool,
    pub present: bool,
    pub fbo_callback: bool,
    pub make_resource_current: bool,
    pub fbo_reset_after_present: bool,
    pub gl_proc_resolver: bool,
    pub surface_transformation: bool,
    pub gl_external_texture_frame_callback: bool,
    pub fbo_with_frame_info_callback: bool,
    pub present_with_info: bool,
    pub populate_existing_damage: bool,
}

/// The OpenGL renderer configuration: contexts are made current and cleared
/// through the EGL state, frames are presented with their damage, existing
/// damage is reported back, the engine draws into framebuffer 0, and GL entry
/// points come from `eglGetProcAddress`. The plain present callback, the
/// surface transformation, external textures and the frame-info framebuffer
/// query are not used, and the framebuffer is not reset after a present.
pub fn build_opengl_renderer_config() -> (c: OpenGlRendererConfig)
    ensures
        c == (OpenGlRendererConfig {
            make_current: true,
            clear_current: true,
            present: false,
            fbo_callback: true,
            make_resource_current: true,
            fbo_reset_after_present: false,
            gl_proc_resolver: true,
            surface_transformation: false,
            gl_external_texture_frame_callback: false,
            fbo_with_frame_info_callback: false,
            present_with_info: true,
            populate_existing_damage: true,
        }),
{
    OpenGlRendererConfig {
        make_current: true,
        clear_current: true,
        present: false,
        fbo_callback: true,
        make_resource_current: true,
        fbo_reset_after_present: false,
        gl_proc_resolver: true,
        surface_transformation: false,
        gl_external_texture_frame_callback: false,
        fbo_with_frame_info_callback: false,
        present_with_info: true,
        populate_existing_damage: true,
    }
}

} // verus!
