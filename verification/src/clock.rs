//! The animation clock of the custom shaders: the time since the manager
//! started, which stops while animations are paused and, once resumed, goes
//! on from where it stopped. Times are whole milliseconds of a monotonic
//! clock read by the host.
use vstd::prelude::*;

verus! {

/// `a - b`, or 0 when `b` is later.
pub open spec fn since(a: u64, b: u64) -> u64 {
    if a >= b { (a - b) as u64 } else { 0 }
}

/// The clock: the instant it counts from, and the time it shows while paused.
#[derive(PartialEq, Eq, Structural, Clone, Copy, Debug)]
pub struct AnimationClock {
    pub start_ms: u64,
    pub paused_at: Option<u64>,
}

/// The time the clock shows at `now`.
pub open spec fn clock_time(c: AnimationClock, now: u64) -> u64 {
    match c.paused_at {
        Some(t) => t,
        None => since(now, c.start_ms),
    }
}

impl AnimationClock {
    /// A running clock started at `now`.
    pub fn new(now: u64) -> (c: Self)
        ensures
            c.start_ms == now && c.paused_at is None,
    {
        AnimationClock { start_ms: now, paused_at: None }
    }

    /// The time at `now` handed to the shaders.
    pub fn time(&self, now: u64) -> (t: u64)
        ensures
            t == clock_time(*self, now),
    {
        match self.paused_at {
            Some(t) => t,
            None => now.saturating_sub(self.start_ms),
        }
    }

    /// Pauses the clock at `now`; a paused clock stays as it is.
    pub fn pause(&mut self, now: u64)
        ensures
            *final(self) == if old(self).paused_at is Some {
                *old(self)
            } else {
                AnimationClock { paused_at: Some(since(now, old(self).start_ms)), ..*old(self) }
            },
    {
        if self.paused_at.is_none() {
            self.paused_at = Some(now.saturating_sub(self.start_ms));
        }
    }

    /// Resumes a paused clock at `now` so that it goes on from the time it
    /// showed; a running clock stays as it is.
    pub fn resume(&mut self, now: u64)
        ensures
            *final(self) == match old(self).paused_at {
                Some(t) => AnimationClock { start_ms: since(now, t), paused_at: None },
                None => *old(self),
            },
    {
        match self.paused_at {
            Some(t) => {
                self.start_ms = now.saturating_sub(t);
                self.paused_at = None;
            },
            None => {},
        }
    }
}

/// While paused the clock shows one time, and once resumed it goes on from
/// that time: paused at `p`, resumed at `r`, it shows at `n` what it showed
/// at `p` plus the time since `r` (clock readings in order, `p` not before
/// the start, and `r` late enough to hold the time shown).
pub proof fn law_pause_resume_continues(c: AnimationClock, p: u64, q: u64, r: u64, n: u64)
    requires
        c.paused_at is None,
        c.start_ms <= p,
        p <= q,
        q <= r,
        r <= n,
    ensures
        ({
            let paused = AnimationClock { paused_at: Some(since(p, c.start_ms)), ..c };
            let resumed = AnimationClock { start_ms: since(r, clock_time(paused, r)), paused_at: None };
            &&& clock_time(paused, q) == clock_time(c, p)
            &&& clock_time(resumed, n) == clock_time(c, p) + (n - r)
        }),
{
}

} // verus!
