//! Recovery of an overlay's OpenGL renderer after the GPU device was lost: a
//! state machine that asks the host for one outside step at a time (rebuild
//! the EGL state, recreate the shared resources, get the host device, open the
//! shared texture) and decides from each outcome what comes next.
use vstd::prelude::*;
use crate::frame::FrameSync;
use crate::egl::EglState;
use crate::egl_start::{conclude_recovery, AngleStartAction};

verus! {

/// Which outcome the recovery is waiting for.
#[derive(Clone, Copy, Debug, PartialEq, Eq, Structural)]
pub enum RecoveryPhase {
    AwaitReinit,
    AwaitRecreate,
    AwaitDevice,
    AwaitOpen,
    Done,
}

/// The outside step the host performs next.
#[derive(Clone, Copy, Debug, PartialEq, Eq, Structural)]
pub enum RecoveryStep {
    /// Rebuild the EGL display, contexts and surfaces.
    Reinitialize,
    /// Drop both keyed mutexes and recreate the shared resources at this size.
    RecreateResources { width: u32, height: u32 },
    /// Get the host's D3D11 device from the swap chain.
    GetDevice,
    /// Open the new shared texture on the host device and rebuild the host
    /// texture, its view and the keyed mutexes.
    OpenSharedResource,
    /// Recovery is over, with this result.
    Finished(bool),
}

/// The outcome of the step the host was asked to perform. The
/// reinitialization's is the last action of the display's start-up in
/// recovery mode, run after [`EglState::begin_reinitialize`].
#[derive(Debug)]
pub enum RecoveryEvent {
    Reinitialized(AngleStartAction),
    ResourcesRecreated(bool),
    DeviceObtained(bool),
    SharedOpened(bool),
}

/// The step that belongs to a phase.
pub open spec fn step_of(phase: RecoveryPhase, width: u32, height: u32) -> RecoveryStep {
    match phase {
        RecoveryPhase::AwaitReinit => RecoveryStep::Reinitialize,
        RecoveryPhase::AwaitRecreate => RecoveryStep::RecreateResources { width, height },
        RecoveryPhase::AwaitDevice => RecoveryStep::GetDevice,
        RecoveryPhase::AwaitOpen => RecoveryStep::OpenSharedResource,
        RecoveryPhase::Done => RecoveryStep::Finished(false),
    }
}

/// The event answers the step of this phase; the flag is its success.
pub open spec fn answers(phase: RecoveryPhase, ev: RecoveryEvent) -> Option<bool> {
    match (phase, ev) {
        (RecoveryPhase::AwaitReinit, RecoveryEvent::Reinitialized(a)) => Some(reinit_succeeded(a)),
        (RecoveryPhase::AwaitRecreate, RecoveryEvent::ResourcesRecreated(ok)) => Some(ok),
        (RecoveryPhase::AwaitDevice, RecoveryEvent::DeviceObtained(ok)) => Some(ok),
        (RecoveryPhase::AwaitOpen, RecoveryEvent::SharedOpened(ok)) => Some(ok),
        _ => None,
    }
}

/// The display came back: its start-up ended ready with a display.
pub open spec fn reinit_succeeded(a: AngleStartAction) -> bool {
    a matches AngleStartAction::Ready { display, .. } && display != 0
}

/// The phase after a successful step.
pub open spec fn next_phase(phase: RecoveryPhase) -> RecoveryPhase {
    match phase {
        RecoveryPhase::AwaitReinit => RecoveryPhase::AwaitRecreate,
        RecoveryPhase::AwaitRecreate => RecoveryPhase::AwaitDevice,
        RecoveryPhase::AwaitDevice => RecoveryPhase::AwaitOpen,
        _ => RecoveryPhase::Done,
    }
}

/// How many steps at most remain before recovery is over.
pub open spec fn steps_left(phase: RecoveryPhase) -> nat {
    match phase {
        RecoveryPhase::AwaitReinit => 4,
        RecoveryPhase::AwaitRecreate => 3,
        RecoveryPhase::AwaitDevice => 2,
        RecoveryPhase::AwaitOpen => 1,
        RecoveryPhase::Done => 0,
    }
}

/// A device recovery in progress, and whether the new shared texture has
/// been opened on the host.
pub struct DeviceRecovery {
    pub phase: RecoveryPhase,
    pub shared_reopened: bool,
}

/// While a recovery is under way past the reinitialization, the EGL device
/// is no longer lost and no frame is waiting to be copied.
pub open spec fn recovery_wf<R>(r: DeviceRecovery, sync: FrameSync<R>, egl: EglState) -> bool {
    (r.phase == RecoveryPhase::AwaitRecreate || r.phase == RecoveryPhase::AwaitDevice || r.phase == RecoveryPhase::AwaitOpen)
        ==> !egl.device_lost && sync.copied == sync.presented
}

impl DeviceRecovery {
    /// Starts a recovery. Without an EGL state, or when its device is not
    /// lost, there is nothing to recover and the answer is success at once.
    pub fn start(egl: Option<&EglState>) -> (r: (DeviceRecovery, RecoveryStep))
        ensures
            !r.0.shared_reopened,
            (egl matches Some(e) && e.device_lost) ==> r.0.phase == RecoveryPhase::AwaitReinit && r.1 == RecoveryStep::Reinitialize,
            !(egl matches Some(e) && e.device_lost) ==> r.0.phase == RecoveryPhase::Done && r.1 == RecoveryStep::Finished(true),
    {
        let lost = match egl {
            Some(e) => e.device_lost,
            None => false,
        };
        if lost {
            (DeviceRecovery { phase: RecoveryPhase::AwaitReinit, shared_reopened: false }, RecoveryStep::Reinitialize)
        } else {
            (DeviceRecovery { phase: RecoveryPhase::Done, shared_reopened: false }, RecoveryStep::Finished(true))
        }
    }

    /// Takes the outcome of the last step and returns the next one. A failed
    /// step ends the recovery with failure. A display that came back is put
    /// into the EGL state, which is then no longer lost, and the copied
    /// counter catches up with the presented one (frames in flight are
    /// lost); once the shared texture is open again a full repaint is asked
    /// for and the recovery succeeds. An event that does not answer the
    /// pending step changes nothing and the step is asked for again.
    pub fn step<R>(&mut self, sync: &mut FrameSync<R>, egl: &mut EglState, ev: RecoveryEvent) -> (s: RecoveryStep)
        requires
            recovery_wf(*old(self), *old(sync), *old(egl)),
        ensures
            recovery_wf(*final(self), *final(sync), *final(egl)),
            s == RecoveryStep::Finished(true) ==> {
                &&& !final(egl).device_lost
                &&& final(self).shared_reopened
                &&& final(sync).full_repaint
                &&& final(sync).copied == final(sync).presented
            },
            final(self).shared_reopened == (old(self).shared_reopened
                || (old(self).phase == RecoveryPhase::AwaitOpen && ev == RecoveryEvent::SharedOpened(true))),
            match ev {
                RecoveryEvent::Reinitialized(a) => if old(self).phase == RecoveryPhase::AwaitReinit && reinit_succeeded(a) {
                    &&& (a matches AngleStartAction::Ready { display, .. } && final(egl).display == display)
                    &&& !final(egl).device_lost
                    &&& final(egl).context == old(egl).context
                    &&& final(egl).resource_context == old(egl).resource_context
                } else {
                    *final(egl) == *old(egl)
                },
                _ => *final(egl) == *old(egl),
            },
            final(sync).renderer == old(sync).renderer,
            final(sync).visible == old(sync).visible,
            final(sync).width == old(sync).width,
            final(sync).height == old(sync).height,
            final(sync).presented == old(sync).presented,
            final(sync).buffer_damage@ == old(sync).buffer_damage@,
            final(sync).frame_damage@ == old(sync).frame_damage@,
            final(sync).software_first_frame == old(sync).software_first_frame,
            match answers(old(self).phase, ev) {
                None => {
                    &&& final(self).phase == old(self).phase
                    &&& s == step_of(old(self).phase, old(sync).width, old(sync).height)
                    &&& final(sync).copied == old(sync).copied
                    &&& final(sync).full_repaint == old(sync).full_repaint
                },
                Some(false) => {
                    &&& final(self).phase == RecoveryPhase::Done
                    &&& s == RecoveryStep::Finished(false)
                    &&& final(sync).copied == old(sync).copied
                    &&& final(sync).full_repaint == old(sync).full_repaint
                },
                Some(true) => {
                    &&& final(self).phase == next_phase(old(self).phase)
                    &&& final(sync).copied == (if old(self).phase == RecoveryPhase::AwaitReinit {
                        old(sync).presented
                    } else {
                        old(sync).copied
                    })
                    &&& if old(self).phase == RecoveryPhase::AwaitOpen {
                        &&& s == RecoveryStep::Finished(true)
                        &&& final(sync).full_repaint
                    } else {
                        &&& s == step_of(next_phase(old(self).phase), old(sync).width, old(sync).height)
                        &&& final(sync).full_repaint == old(sync).full_repaint
                    }
                },
            },
            steps_left(final(self).phase) <= steps_left(old(self).phase),
            answers(old(self).phase, ev).is_some() ==> steps_left(final(self).phase) < steps_left(old(self).phase),
    {
        match (self.phase, ev) {
            (RecoveryPhase::AwaitReinit, RecoveryEvent::Reinitialized(a)) => {
                let ok = match &a {
                    AngleStartAction::Ready { display, .. } => *display != 0,
                    _ => false,
                };
                if ok {
                    let _ = conclude_recovery(egl, a);
                    sync.copied = sync.presented;
                    self.phase = RecoveryPhase::AwaitRecreate;
                    RecoveryStep::RecreateResources { width: sync.width, height: sync.height }
                } else {
                    self.phase = RecoveryPhase::Done;
                    RecoveryStep::Finished(false)
                }
            },
            (RecoveryPhase::AwaitRecreate, RecoveryEvent::ResourcesRecreated(ok)) => {
                if ok {
                    self.phase = RecoveryPhase::AwaitDevice;
                    RecoveryStep::GetDevice
                } else {
                    self.phase = RecoveryPhase::Done;
                    RecoveryStep::Finished(false)
                }
            },
            (RecoveryPhase::AwaitDevice, RecoveryEvent::DeviceObtained(ok)) => {
                if ok {
                    self.phase = RecoveryPhase::AwaitOpen;
                    RecoveryStep::OpenSharedResource
                } else {
                    self.phase = RecoveryPhase::Done;
                    RecoveryStep::Finished(false)
                }
            },
            (RecoveryPhase::AwaitOpen, RecoveryEvent::SharedOpened(ok)) => {
                self.phase = RecoveryPhase::Done;
                if ok {
                    sync.full_repaint = true;
                    self.shared_reopened = true;
                }
                RecoveryStep::Finished(ok)
            },
            _ => {
                match self.phase {
                    RecoveryPhase::AwaitReinit => RecoveryStep::Reinitialize,
                    RecoveryPhase::AwaitRecreate => RecoveryStep::RecreateResources {
                        width: sync.width,
                        height: sync.height,
                    },
                    RecoveryPhase::AwaitDevice => RecoveryStep::GetDevice,
                    RecoveryPhase::AwaitOpen => RecoveryStep::OpenSharedResource,
                    RecoveryPhase::Done => RecoveryStep::Finished(false),
                }
            },
        }
    }
}

} // verus!
