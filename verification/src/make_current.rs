//! The engine's make-current callback on the render thread, as a sequence of
//! decisions: first a deferred resize is applied, then the shared texture is
//! acquired, then the main context is created on the first call and bound to
//! that thread, the retired surfaces are destroyed and the pbuffer is made
//! current.
use vstd::prelude::*;
use crate::egl::{EglState, MakeCurrentStep, EGL_CONTEXT_LOST, EGL_TRUE};

verus! {

/// Which outcome the callback is waiting for.
#[derive(PartialEq, Eq, Structural, Clone, Copy, Debug)]
pub enum MakeCurrentPhase {
    AwaitRecreate,
    AwaitAcquire,
    AwaitContext,
    AwaitMakeCurrent,
    Done,
}

/// The outside step the host performs next.
#[derive(Debug)]
pub enum MakeCurrentAction {
    /// Recreate the shared texture and its pbuffer at this size (the deferred
    /// resize), then hand the new texture to the host side.
    RecreateResources { width: u32, height: u32 },
    /// Acquire the shared texture's keyed mutex for ANGLE, if there is one.
    AcquireMutex,
    /// Create the main context, sharing with the resource context.
    CreateContext,
    /// When `destroy` is not empty, release the current surfaces and destroy
    /// those; then make the pbuffer and the main context current.
    Bind { destroy: Vec<usize> },
    /// The callback answers this.
    Finish(bool),
}

/// The outcome of the step the host was asked to perform.
#[derive(Debug, Clone, Copy)]
pub enum MakeCurrentEvent {
    Recreated,
    Acquired,
    /// The context created (0 when creation failed).
    ContextCreated(usize),
    /// What `eglMakeCurrent` answered, and `eglGetError` after it.
    MadeCurrent { result: i32, error: i32 },
}

/// One run of the make-current callback on render thread `thread`.
pub struct MakeCurrentFlow {
    pub phase: MakeCurrentPhase,
    pub thread: u64,
}

/// The event answers the step of this phase.
pub open spec fn mc_answers(phase: MakeCurrentPhase, ev: MakeCurrentEvent) -> bool {
    match (phase, ev) {
        (MakeCurrentPhase::AwaitRecreate, MakeCurrentEvent::Recreated) => true,
        (MakeCurrentPhase::AwaitAcquire, MakeCurrentEvent::Acquired) => true,
        (MakeCurrentPhase::AwaitContext, MakeCurrentEvent::ContextCreated(_)) => true,
        (MakeCurrentPhase::AwaitMakeCurrent, MakeCurrentEvent::MadeCurrent { .. }) => true,
        _ => false,
    }
}

/// While the main context is being created the device is not lost and
/// there is no main context yet; while the bind is under way the device is
/// not lost, the main context exists and belongs to this thread, and no
/// retired surface is left.
pub open spec fn mc_wf(f: MakeCurrentFlow, egl: EglState) -> bool {
    &&& f.phase == MakeCurrentPhase::AwaitContext ==> !egl.device_lost && egl.context == 0
    &&& f.phase == MakeCurrentPhase::AwaitMakeCurrent ==> {
        &&& !egl.device_lost
        &&& egl.context != 0
        &&& egl.main_thread == Some(f.thread)
        &&& egl.old_pbuffers@.len() == 0
    }
}

/// The EGL state's fields the bind decision leaves alone.
pub open spec fn same_surfaces_and_display(a: EglState, b: EglState) -> bool {
    &&& b.display == a.display
    &&& b.resource_context == a.resource_context
    &&& b.pbuffer == a.pbuffer
    &&& b.pending_resize == a.pending_resize
    &&& b.resource_thread == a.resource_thread
}

impl MakeCurrentFlow {
    /// Begins the callback: a deferred resize is taken first and applied
    /// before anything else; then the shared texture is acquired.
    pub fn start(egl: &mut EglState, thread: u64) -> (r: (MakeCurrentFlow, MakeCurrentAction))
        ensures
            r.0.thread == thread,
            mc_wf(r.0, *final(egl)),
            final(egl).pending_resize is None,
            match old(egl).pending_resize {
                Some((w, h)) => r.0.phase == MakeCurrentPhase::AwaitRecreate
                    && (r.1 matches MakeCurrentAction::RecreateResources { width, height } && width == w && height == h),
                None => r.0.phase == MakeCurrentPhase::AwaitAcquire && r.1 matches MakeCurrentAction::AcquireMutex,
            },
            final(egl).display == old(egl).display,
            final(egl).context == old(egl).context,
            final(egl).resource_context == old(egl).resource_context,
            final(egl).pbuffer == old(egl).pbuffer,
            final(egl).old_pbuffers@ == old(egl).old_pbuffers@,
            final(egl).device_lost == old(egl).device_lost,
            final(egl).main_thread == old(egl).main_thread,
            final(egl).resource_thread == old(egl).resource_thread,
    {
        match egl.take_pending_resize() {
            Some((w, h)) => (
                MakeCurrentFlow { phase: MakeCurrentPhase::AwaitRecreate, thread },
                MakeCurrentAction::RecreateResources { width: w, height: h },
            ),
            None => (MakeCurrentFlow { phase: MakeCurrentPhase::AwaitAcquire, thread }, MakeCurrentAction::AcquireMutex),
        }
    }

    /// Binds the main context on this thread, or says why not.
    fn decide(&mut self, egl: &mut EglState) -> (a: MakeCurrentAction)
        ensures
            final(self).thread == old(self).thread,
            mc_wf(*final(self), *final(egl)),
            same_surfaces_and_display(*old(egl), *final(egl)),
            final(egl).context == old(egl).context,
            final(egl).main_thread == old(egl).main_thread,
            final(egl).device_lost == old(egl).device_lost,
            if old(egl).device_lost {
                final(self).phase == MakeCurrentPhase::Done && (a matches MakeCurrentAction::Finish(b) && !b)
                    && final(egl).old_pbuffers@ == old(egl).old_pbuffers@
            } else if old(egl).context == 0 {
                final(self).phase == MakeCurrentPhase::AwaitContext && (a matches MakeCurrentAction::CreateContext)
                    && final(egl).old_pbuffers@ == old(egl).old_pbuffers@
            } else if old(egl).main_thread != Some(old(self).thread) {
                final(self).phase == MakeCurrentPhase::Done && (a matches MakeCurrentAction::Finish(b) && !b)
                    && final(egl).old_pbuffers@ == old(egl).old_pbuffers@
            } else {
                &&& final(self).phase == MakeCurrentPhase::AwaitMakeCurrent
                &&& (a matches MakeCurrentAction::Bind { destroy } && destroy@ == old(egl).old_pbuffers@)
                &&& final(egl).old_pbuffers@.len() == 0
            },
    {
        match egl.make_current_step(self.thread) {
            MakeCurrentStep::DeviceLost => {
                self.phase = MakeCurrentPhase::Done;
                MakeCurrentAction::Finish(false)
            },
            MakeCurrentStep::CreateContext => {
                self.phase = MakeCurrentPhase::AwaitContext;
                MakeCurrentAction::CreateContext
            },
            MakeCurrentStep::WrongThread => {
                self.phase = MakeCurrentPhase::Done;
                MakeCurrentAction::Finish(false)
            },
            MakeCurrentStep::Bind { destroy } => {
                self.phase = MakeCurrentPhase::AwaitMakeCurrent;
                MakeCurrentAction::Bind { destroy }
            },
        }
    }

    /// Takes the outcome of the last step and returns the next one.
    ///
    /// After the resize and the acquisition: a lost device answers false; on
    /// the first call the main context is created and bound to this thread
    /// (a failed creation marks the device lost and answers false); a call
    /// from another thread answers false; otherwise the retired surfaces are
    /// handed out for destruction and the pbuffer is made current, and the
    /// answer is whether that worked (a lost context marks the device lost).
    /// A true answer comes only from a bind on the context's own thread that
    /// left no retired surface.
    pub fn step(&mut self, egl: &mut EglState, ev: MakeCurrentEvent) -> (a: MakeCurrentAction)
        requires
            mc_wf(*old(self), *old(egl)),
            mc_answers(old(self).phase, ev),
        ensures
            final(self).thread == old(self).thread,
            mc_wf(*final(self), *final(egl)),
            same_surfaces_and_display(*old(egl), *final(egl)),
            a matches MakeCurrentAction::Finish(b) && b ==> {
                &&& final(egl).old_pbuffers@.len() == 0
                &&& !final(egl).device_lost
                &&& final(egl).main_thread == Some(old(self).thread)
            },
            match ev {
                MakeCurrentEvent::Recreated => final(self).phase == MakeCurrentPhase::AwaitAcquire
                    && (a matches MakeCurrentAction::AcquireMutex) && *final(egl) == *old(egl),
                MakeCurrentEvent::Acquired => {
                    &&& final(egl).context == old(egl).context
                    &&& final(egl).main_thread == old(egl).main_thread
                    &&& final(egl).device_lost == old(egl).device_lost
                    &&& if old(egl).device_lost {
                        a matches MakeCurrentAction::Finish(b) && !b
                    } else if old(egl).context == 0 {
                        final(self).phase == MakeCurrentPhase::AwaitContext && a matches MakeCurrentAction::CreateContext
                    } else if old(egl).main_thread != Some(old(self).thread) {
                        a matches MakeCurrentAction::Finish(b) && !b
                    } else {
                        &&& (a matches MakeCurrentAction::Bind { destroy } && destroy@ == old(egl).old_pbuffers@)
                        &&& final(egl).old_pbuffers@.len() == 0
                    }
                },
                MakeCurrentEvent::ContextCreated(c) => if c == 0 {
                    &&& (a matches MakeCurrentAction::Finish(b) && !b)
                    &&& final(egl).device_lost
                    &&& final(egl).context == old(egl).context
                } else {
                    &&& final(egl).context == c
                    &&& final(egl).main_thread == Some(old(self).thread)
                    &&& (a matches MakeCurrentAction::Bind { destroy } && destroy@ == old(egl).old_pbuffers@)
                    &&& final(egl).old_pbuffers@.len() == 0
                },
                MakeCurrentEvent::MadeCurrent { result, error } => {
                    &&& (a matches MakeCurrentAction::Finish(b) && b == (result == EGL_TRUE))
                    &&& final(egl).device_lost == (old(egl).device_lost || (result != EGL_TRUE && error == EGL_CONTEXT_LOST))
                    &&& final(egl).context == old(egl).context
                    &&& final(egl).main_thread == old(egl).main_thread
                    &&& final(egl).old_pbuffers@ == old(egl).old_pbuffers@
                },
            },
    {
        match ev {
            MakeCurrentEvent::Recreated => {
                self.phase = MakeCurrentPhase::AwaitAcquire;
                MakeCurrentAction::AcquireMutex
            },
            MakeCurrentEvent::Acquired => self.decide(egl),
            MakeCurrentEvent::ContextCreated(c) => {
                if egl.note_main_context(c, self.thread) {
                    self.decide(egl)
                } else {
                    self.phase = MakeCurrentPhase::Done;
                    MakeCurrentAction::Finish(false)
                }
            },
            MakeCurrentEvent::MadeCurrent { result, error } => {
                let ok = egl.note_make_current(result, error);
                self.phase = MakeCurrentPhase::Done;
                MakeCurrentAction::Finish(ok)
            },
        }
    }
}

} // verus!
