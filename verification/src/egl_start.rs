//! Bringing up the ANGLE display, in order: the shared EGL library, the
//! platform display, its initialization, the EGL device and the D3D11
//! device ANGLE created on it, and a framebuffer configuration. The same
//! sequence runs when the renderer starts and when it recovers from a lost
//! device; only the error texts differ (those of a recovery name the EGL
//! error code).
use vstd::prelude::*;
use vstd::string::StringExecFns;
use crate::egl::{
    EglState, build_display_attributes, config_attributes, config_attributes_spec, display_attributes_spec,
    egl_error_text, egl_error_to_string,
};
use crate::text::{hex_digits, push_hex_u32};

verus! {

/// Whether the display is brought up for a new renderer or to replace a lost one.
#[derive(PartialEq, Eq, Structural, Clone, Copy, Debug)]
pub enum AngleStartMode {
    Fresh,
    Recovery,
}

/// Which outcome the start-up is waiting for.
#[derive(PartialEq, Eq, Structural, Clone, Copy, Debug)]
pub enum AngleStartPhase {
    AwaitShared,
    AwaitProc,
    AwaitDisplay,
    AwaitInit,
    AwaitDeviceQuery,
    AwaitD3d11Query,
    AwaitConfig,
    Done,
}

/// The outside step the host performs next.
#[derive(Debug)]
pub enum AngleStartAction {
    /// Load the shared EGL library (a recovery passes no engine directory).
    LoadSharedEgl,
    /// Look up `eglGetPlatformDisplayEXT`.
    LookUpPlatformDisplay,
    /// Call `eglGetPlatformDisplayEXT` for the ANGLE platform and the default
    /// display with these attributes.
    GetDisplay { attributes: Vec<i32> },
    /// Call `eglInitialize` on the display.
    Initialize { display: usize },
    /// Ask the display for its EGL device.
    QueryDevice { display: usize },
    /// Ask the EGL device for its D3D11 device.
    QueryD3d11Device { device: usize },
    /// Call `eglChooseConfig` on the display with these attributes, for one
    /// configuration.
    ChooseConfig { display: usize, attributes: Vec<i32> },
    /// The display is up: the host keeps the display, the configuration and
    /// the D3D11 device (made thread-safe).
    Ready { display: usize, config: usize, d3d11_device: usize },
    /// The start-up ends with this error.
    Fail(String),
}

/// The outcome of the step the host was asked to perform. `error` is what
/// `eglGetError` answered right after a failed call.
#[derive(Debug)]
pub enum AngleStartEvent {
    SharedLoaded(Result<(), String>),
    ProcLookedUp { found: bool },
    DisplayGot { display: usize, error: i32 },
    Initialized { ok: bool, error: i32 },
    DeviceQueried { ok: bool, device: usize, error: i32 },
    D3d11Queried { ok: bool, device: usize, error: i32 },
    ConfigChosen { ok: bool, config: usize, count: i32 },
}

/// The text of a failed recovery step: what failed, then the EGL error's
/// name and its code in hexadecimal.
pub open spec fn recovery_error(what: Seq<char>, code: i32) -> Seq<char> {
    what + egl_error_text(code) + " (0x"@ + hex_digits(code as u32 as nat) + ")"@
}

/// The error of a failed step, by mode and phase (`code` as read after the
/// failure).
pub open spec fn step_error(mode: AngleStartMode, phase: AngleStartPhase, code: i32) -> Seq<char> {
    match (mode, phase) {
        (AngleStartMode::Fresh, AngleStartPhase::AwaitProc) => "eglGetPlatformDisplayEXT not available"@,
        (AngleStartMode::Fresh, AngleStartPhase::AwaitDisplay) => "Failed to get EGL display."@,
        (AngleStartMode::Fresh, AngleStartPhase::AwaitInit) => "Failed to initialize EGL."@,
        (AngleStartMode::Fresh, AngleStartPhase::AwaitDeviceQuery) => "Failed to query EGL display attribute for device."@,
        (AngleStartMode::Fresh, AngleStartPhase::AwaitD3d11Query) => "Failed to query EGL device attribute for D3D11 device."@,
        (AngleStartMode::Fresh, _) => "eglChooseConfig failed."@,
        (AngleStartMode::Recovery, AngleStartPhase::AwaitDisplay) =>
            recovery_error("Failed to get new EGL display during recovery: "@, code),
        (AngleStartMode::Recovery, AngleStartPhase::AwaitInit) =>
            recovery_error("Failed to initialize new EGL display during recovery: "@, code),
        (AngleStartMode::Recovery, AngleStartPhase::AwaitDeviceQuery) =>
            recovery_error("Failed to query EGL device during recovery: "@, code),
        (AngleStartMode::Recovery, AngleStartPhase::AwaitD3d11Query) =>
            recovery_error("Failed to query D3D11 device during recovery: "@, code),
        (AngleStartMode::Recovery, _) => "eglChooseConfig failed during recovery."@,
    }
}

/// The error when ANGLE answers the D3D11 query with a null device.
pub open spec fn null_device_error(mode: AngleStartMode) -> Seq<char> {
    match mode {
        AngleStartMode::Fresh => "ANGLE created a null D3D11 device."@,
        AngleStartMode::Recovery => "ANGLE created a null D3D11 device during recovery."@,
    }
}

fn recovery_text(what: &str, code: i32) -> (s: String)
    ensures
        s@ == recovery_error(what@, code),
{
    let mut s = String::from_str(what);
    s.append(egl_error_to_string(code));
    s.append(" (0x");
    push_hex_u32(&mut s, code as u32);
    s.append(")");
    s
}

fn step_error_text(mode: AngleStartMode, phase: AngleStartPhase, code: i32) -> (s: String)
    ensures
        s@ == step_error(mode, phase, code),
{
    match mode {
        AngleStartMode::Fresh => match phase {
            AngleStartPhase::AwaitProc => String::from_str("eglGetPlatformDisplayEXT not available"),
            AngleStartPhase::AwaitDisplay => String::from_str("Failed to get EGL display."),
            AngleStartPhase::AwaitInit => String::from_str("Failed to initialize EGL."),
            AngleStartPhase::AwaitDeviceQuery => String::from_str("Failed to query EGL display attribute for device."),
            AngleStartPhase::AwaitD3d11Query => String::from_str("Failed to query EGL device attribute for D3D11 device."),
            _ => String::from_str("eglChooseConfig failed."),
        },
        AngleStartMode::Recovery => match phase {
            AngleStartPhase::AwaitDisplay => recovery_text("Failed to get new EGL display during recovery: ", code),
            AngleStartPhase::AwaitInit => recovery_text("Failed to initialize new EGL display during recovery: ", code),
            AngleStartPhase::AwaitDeviceQuery => recovery_text("Failed to query EGL device during recovery: ", code),
            AngleStartPhase::AwaitD3d11Query => recovery_text("Failed to query D3D11 device during recovery: ", code),
            _ => String::from_str("eglChooseConfig failed during recovery."),
        },
    }
}

/// The start-up's state: the mode, the phase, whether the D3D11 debug layers
/// are asked for, and the display and devices known so far (0 for none).
pub struct AngleStart {
    pub mode: AngleStartMode,
    pub phase: AngleStartPhase,
    pub debug_layers: bool,
    pub display: usize,
    pub device: usize,
    pub d3d11_device: usize,
}

/// How many steps at most remain.
pub open spec fn steps_left(phase: AngleStartPhase) -> nat {
    match phase {
        AngleStartPhase::AwaitShared => 7,
        AngleStartPhase::AwaitProc => 6,
        AngleStartPhase::AwaitDisplay => 5,
        AngleStartPhase::AwaitInit => 4,
        AngleStartPhase::AwaitDeviceQuery => 3,
        AngleStartPhase::AwaitD3d11Query => 2,
        AngleStartPhase::AwaitConfig => 1,
        AngleStartPhase::Done => 0,
    }
}

/// True when `ev` is the outcome of the step pending in `phase`.
pub open spec fn answers(phase: AngleStartPhase, ev: AngleStartEvent) -> bool {
    match (phase, ev) {
        (AngleStartPhase::AwaitShared, AngleStartEvent::SharedLoaded(_)) => true,
        (AngleStartPhase::AwaitProc, AngleStartEvent::ProcLookedUp { .. }) => true,
        (AngleStartPhase::AwaitDisplay, AngleStartEvent::DisplayGot { .. }) => true,
        (AngleStartPhase::AwaitInit, AngleStartEvent::Initialized { .. }) => true,
        (AngleStartPhase::AwaitDeviceQuery, AngleStartEvent::DeviceQueried { .. }) => true,
        (AngleStartPhase::AwaitD3d11Query, AngleStartEvent::D3d11Queried { .. }) => true,
        (AngleStartPhase::AwaitConfig, AngleStartEvent::ConfigChosen { .. }) => true,
        _ => false,
    }
}

/// True when `a` ends the start-up with the error text `e`.
pub open spec fn fails_with(a: AngleStartAction, e: Seq<char>) -> bool {
    a matches AngleStartAction::Fail(m) && m@ == e
}

impl AngleStart {
    /// Once the display is got it is non-null, and so is the D3D11 device
    /// once queried.
    pub open spec fn wf(&self) -> bool {
        &&& (self.phase == AngleStartPhase::AwaitInit || self.phase == AngleStartPhase::AwaitDeviceQuery
            || self.phase == AngleStartPhase::AwaitD3d11Query || self.phase == AngleStartPhase::AwaitConfig)
            ==> self.display != 0
        &&& self.phase == AngleStartPhase::AwaitConfig ==> self.d3d11_device != 0
    }

    /// A start-up about to load the shared EGL library.
    pub fn start(mode: AngleStartMode, debug_layers: bool) -> (r: (AngleStart, AngleStartAction))
        ensures
            r.0.wf(),
            r.0.mode == mode && r.0.debug_layers == debug_layers,
            r.0.phase == AngleStartPhase::AwaitShared,
            r.0.display == 0 && r.0.device == 0 && r.0.d3d11_device == 0,
            r.1 matches AngleStartAction::LoadSharedEgl,
    {
        (AngleStart {
            mode,
            phase: AngleStartPhase::AwaitShared,
            debug_layers,
            display: 0,
            device: 0,
            d3d11_device: 0,
        }, AngleStartAction::LoadSharedEgl)
    }

    /// Takes the outcome of the last step and returns the next one.
    ///
    /// A failure to load the shared library ends the start-up with that
    /// library's error. A fresh start first checks that
    /// `eglGetPlatformDisplayEXT` exists. A null display, a failed
    /// initialization or query, a null D3D11 device, and a configuration
    /// choice that fails or finds none each end the start-up with their own
    /// error. The start-up is ready only with a non-null display and D3D11
    /// device.
    pub fn step(&mut self, ev: AngleStartEvent) -> (a: AngleStartAction)
        requires
            old(self).wf(),
            answers(old(self).phase, ev),
        ensures
            final(self).wf(),
            final(self).mode == old(self).mode,
            final(self).debug_layers == old(self).debug_layers,
            steps_left(final(self).phase) <= steps_left(old(self).phase),
            a matches AngleStartAction::Ready { display, config, d3d11_device } ==>
                display != 0 && d3d11_device != 0 && display == final(self).display
                && final(self).phase == AngleStartPhase::Done,
            match (old(self).phase, ev) {
                (AngleStartPhase::AwaitShared, AngleStartEvent::SharedLoaded(r)) => match r {
                    Err(e) => final(self).phase == AngleStartPhase::Done && fails_with(a, e@),
                    Ok(_) => if old(self).mode == AngleStartMode::Fresh {
                        final(self).phase == AngleStartPhase::AwaitProc && a matches AngleStartAction::LookUpPlatformDisplay
                    } else {
                        final(self).phase == AngleStartPhase::AwaitDisplay
                            && (a matches AngleStartAction::GetDisplay { attributes }
                                && attributes@ == display_attributes_spec(old(self).debug_layers))
                    },
                },
                (AngleStartPhase::AwaitProc, AngleStartEvent::ProcLookedUp { found }) => if found {
                    final(self).phase == AngleStartPhase::AwaitDisplay
                        && (a matches AngleStartAction::GetDisplay { attributes }
                            && attributes@ == display_attributes_spec(old(self).debug_layers))
                } else {
                    final(self).phase == AngleStartPhase::Done
                        && fails_with(a, step_error(old(self).mode, AngleStartPhase::AwaitProc, 0))
                },
                (AngleStartPhase::AwaitDisplay, AngleStartEvent::DisplayGot { display, error }) => if display == 0 {
                    final(self).phase == AngleStartPhase::Done
                        && fails_with(a, step_error(old(self).mode, AngleStartPhase::AwaitDisplay, error))
                } else {
                    final(self).phase == AngleStartPhase::AwaitInit && final(self).display == display
                        && (a matches AngleStartAction::Initialize { display: d } && d == display)
                },
                (AngleStartPhase::AwaitInit, AngleStartEvent::Initialized { ok, error }) => if !ok {
                    final(self).phase == AngleStartPhase::Done
                        && fails_with(a, step_error(old(self).mode, AngleStartPhase::AwaitInit, error))
                } else {
                    final(self).phase == AngleStartPhase::AwaitDeviceQuery
                        && (a matches AngleStartAction::QueryDevice { display: d } && d == old(self).display)
                },
                (AngleStartPhase::AwaitDeviceQuery, AngleStartEvent::DeviceQueried { ok, device, error }) => if !ok {
                    final(self).phase == AngleStartPhase::Done
                        && fails_with(a, step_error(old(self).mode, AngleStartPhase::AwaitDeviceQuery, error))
                } else {
                    final(self).phase == AngleStartPhase::AwaitD3d11Query && final(self).device == device
                        && (a matches AngleStartAction::QueryD3d11Device { device: d } && d == device)
                },
                (AngleStartPhase::AwaitD3d11Query, AngleStartEvent::D3d11Queried { ok, device, error }) => if !ok {
                    final(self).phase == AngleStartPhase::Done
                        && fails_with(a, step_error(old(self).mode, AngleStartPhase::AwaitD3d11Query, error))
                } else if device == 0 {
                    final(self).phase == AngleStartPhase::Done && fails_with(a, null_device_error(old(self).mode))
                } else {
                    final(self).phase == AngleStartPhase::AwaitConfig && final(self).d3d11_device == device
                        && (a matches AngleStartAction::ChooseConfig { display: d, attributes }
                            && d == old(self).display && attributes@ == config_attributes_spec())
                },
                (AngleStartPhase::AwaitConfig, AngleStartEvent::ConfigChosen { ok, config, count }) => if !ok || count == 0 {
                    final(self).phase == AngleStartPhase::Done
                        && fails_with(a, step_error(old(self).mode, AngleStartPhase::AwaitConfig, 0))
                } else {
                    final(self).phase == AngleStartPhase::Done
                        && (a matches AngleStartAction::Ready { display, config: c, d3d11_device }
                            && display == old(self).display && c == config && d3d11_device == old(self).d3d11_device)
                },
                _ => false,
            },
    {
        let mode = self.mode;
        match (self.phase, ev) {
            (AngleStartPhase::AwaitShared, AngleStartEvent::SharedLoaded(r)) => match r {
                Err(e) => {
                    self.phase = AngleStartPhase::Done;
                    AngleStartAction::Fail(e)
                },
                Ok(_) => {
                    if mode == AngleStartMode::Fresh {
                        self.phase = AngleStartPhase::AwaitProc;
                        AngleStartAction::LookUpPlatformDisplay
                    } else {
                        self.phase = AngleStartPhase::AwaitDisplay;
                        AngleStartAction::GetDisplay { attributes: build_display_attributes(self.debug_layers) }
                    }
                },
            },
            (AngleStartPhase::AwaitProc, AngleStartEvent::ProcLookedUp { found }) => {
                if found {
                    self.phase = AngleStartPhase::AwaitDisplay;
                    AngleStartAction::GetDisplay { attributes: build_display_attributes(self.debug_layers) }
                } else {
                    self.phase = AngleStartPhase::Done;
                    AngleStartAction::Fail(step_error_text(mode, AngleStartPhase::AwaitProc, 0))
                }
            },
            (AngleStartPhase::AwaitDisplay, AngleStartEvent::DisplayGot { display, error }) => {
                if display == 0 {
                    self.phase = AngleStartPhase::Done;
                    AngleStartAction::Fail(step_error_text(mode, AngleStartPhase::AwaitDisplay, error))
                } else {
                    self.display = display;
                    self.phase = AngleStartPhase::AwaitInit;
                    AngleStartAction::Initialize { display }
                }
            },
            (AngleStartPhase::AwaitInit, AngleStartEvent::Initialized { ok, error }) => {
                if !ok {
                    self.phase = AngleStartPhase::Done;
                    AngleStartAction::Fail(step_error_text(mode, AngleStartPhase::AwaitInit, error))
                } else {
                    self.phase = AngleStartPhase::AwaitDeviceQuery;
                    AngleStartAction::QueryDevice { display: self.display }
                }
            },
            (AngleStartPhase::AwaitDeviceQuery, AngleStartEvent::DeviceQueried { ok, device, error }) => {
                if !ok {
                    self.phase = AngleStartPhase::Done;
                    AngleStartAction::Fail(step_error_text(mode, AngleStartPhase::AwaitDeviceQuery, error))
                } else {
                    self.device = device;
                    self.phase = AngleStartPhase::AwaitD3d11Query;
                    AngleStartAction::QueryD3d11Device { device }
                }
            },
            (AngleStartPhase::AwaitD3d11Query, AngleStartEvent::D3d11Queried { ok, device, error }) => {
                if !ok {
                    self.phase = AngleStartPhase::Done;
                    AngleStartAction::Fail(step_error_text(mode, AngleStartPhase::AwaitD3d11Query, error))
                } else if device == 0 {
                    self.phase = AngleStartPhase::Done;
                    match mode {
                        AngleStartMode::Fresh => AngleStartAction::Fail(String::from_str("ANGLE created a null D3D11 device.")),
                        AngleStartMode::Recovery => AngleStartAction::Fail(
                            String::from_str("ANGLE created a null D3D11 device during recovery."),
                        ),
                    }
                } else {
                    self.d3d11_device = device;
                    self.phase = AngleStartPhase::AwaitConfig;
                    AngleStartAction::ChooseConfig { display: self.display, attributes: config_attributes() }
                }
            },
            (AngleStartPhase::AwaitConfig, AngleStartEvent::ConfigChosen { ok, config, count }) => {
                self.phase = AngleStartPhase::Done;
                if !ok || count == 0 {
                    AngleStartAction::Fail(step_error_text(mode, AngleStartPhase::AwaitConfig, 0))
                } else {
                    AngleStartAction::Ready { display: self.display, config, d3d11_device: self.d3d11_device }
                }
            },
            (_, _) => {
                proof { assert(false); }
                AngleStartAction::LoadSharedEgl
            },
        }
    }
}

/// The end of a recovery, applied to the EGL state that
/// [`EglState::begin_reinitialize`] emptied: on `Ready` the new display is
/// in use and the device is no longer lost; on a failure the state stays as
/// it was (still lost, no display, no contexts) and the error is returned.
pub fn conclude_recovery(egl: &mut EglState, outcome: AngleStartAction) -> (r: Result<(), String>)
    requires
        outcome is Ready || outcome is Fail,
        outcome matches AngleStartAction::Ready { display, .. } ==> display != 0,
    ensures
        match outcome {
            AngleStartAction::Ready { display, .. } => {
                &&& r is Ok
                &&& final(egl).display == display && display != 0
                &&& !final(egl).device_lost
                &&& final(egl).context == old(egl).context
                &&& final(egl).resource_context == old(egl).resource_context
                &&& final(egl).pbuffer == old(egl).pbuffer
                &&& final(egl).old_pbuffers@ == old(egl).old_pbuffers@
            },
            AngleStartAction::Fail(e) => r == Err::<(), String>(e) && *final(egl) == *old(egl),
            _ => false,
        },
{
    match outcome {
        AngleStartAction::Ready { display, .. } => {
            egl.finish_reinitialize(display);
            Ok(())
        },
        AngleStartAction::Fail(e) => Err(e),
        _ => {
            proof { assert(false); }
            Ok(())
        },
    }
}

} // verus!
