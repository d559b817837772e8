//! Time as effects see it: the clock of a tick, time slots for patterns
//! that change a few times a second, and the life of a one-shot effect.

use vstd::prelude::*;

verus! {

/// The time of a tick, in microseconds.
#[derive(Clone, Copy, Debug, PartialEq, Eq, Structural)]
pub struct Clock {
    /// Time since the start.
    pub now: u64,
    /// Time since the previous tick.
    pub delta: u32,
}

/// The number of the time slot that `now` falls in, for a pattern that
/// changes `rate` thousandths of a time per second; slots past the
/// largest 32-bit number count as that number.
pub open spec fn slot_at(now: u64, rate: u32) -> u32 {
    if now * rate / 1_000_000_000 > u32::MAX {
        u32::MAX
    } else {
        (now * rate / 1_000_000_000) as u32
    }
}

/// The number of the time slot that `now` falls in.
pub fn time_slot(now: u64, rate: u32) -> (s: u32)
    ensures
        s == slot_at(now, rate),
{
    assert(now * rate <= 0xffff_ffff_ffff_ffff * 0xffff_ffff) by (nonlinear_arith)
        requires
            0 <= now <= 0xffff_ffff_ffff_ffff,
            0 <= rate <= 0xffff_ffff,
    ;
    let s: u128 = (now as u128) * (rate as u128) / 1_000_000_000;
    if s > 0xffff_ffff {
        0xffff_ffff
    } else {
        s as u32
    }
}

/// The life of a one-shot effect: it runs from its start until its
/// elapsed time exceeds its duration, and then stays finished until it is
/// triggered again.
#[derive(Clone, Copy, Debug, PartialEq, Eq, Structural)]
pub struct OneShot {
    /// Time run so far, in microseconds.
    pub elapsed: u32,
    /// Time to run, in microseconds.
    pub duration: u32,
    /// Running; not finished.
    pub active: bool,
}

impl OneShot {
    /// A one-shot at its start.
    pub open spec fn fresh(duration: u32) -> OneShot {
        OneShot { elapsed: 0, duration, active: true }
    }

    /// The one-shot after a tick of `dt`: a finished one stays as it is; a
    /// running one has `dt` more elapsed and is finished if that exceeds
    /// its duration. The elapsed time stops counting at the largest 32-bit
    /// number, which only a finished one-shot can reach.
    pub open spec fn after(self, dt: u32) -> OneShot {
        if !self.active {
            self
        } else {
            let elapsed = if self.elapsed + dt > u32::MAX {
                u32::MAX
            } else {
                (self.elapsed + dt) as u32
            };
            OneShot { elapsed, active: self.elapsed + dt <= self.duration, ..self }
        }
    }

    /// The one-shot back at its start.
    pub open spec fn restarted(self) -> OneShot {
        OneShot::fresh(self.duration)
    }

    /// A one-shot at its start.
    pub fn new(duration: u32) -> (t: OneShot)
        ensures
            t == OneShot::fresh(duration),
    {
        OneShot { elapsed: 0, duration, active: true }
    }

    /// Advances by one tick and returns whether the effect applies in this
    /// tick.
    pub fn tick(&mut self, dt: u32) -> (live: bool)
        ensures
            *final(self) == old(self).after(dt),
            live == final(self).active,
    {
        if !self.active {
            return false;
        }
        let sum: u64 = self.elapsed as u64 + dt as u64;
        self.elapsed = if sum > 0xffff_ffff {
            0xffff_ffff
        } else {
            sum as u32
        };
        self.active = sum <= self.duration as u64;
        self.active
    }

    /// Starts the effect over.
    pub fn retrigger(&mut self)
        ensures
            *final(self) == old(self).restarted(),
    {
        self.elapsed = 0;
        self.active = true;
    }
}

/// A finished one-shot stays finished, and a running one whose time runs
/// past its duration finishes.
pub proof fn lemma_one_shot_ends(t: OneShot, dt: u32)
    ensures
        !t.active ==> t.after(dt) == t,
        t.active && t.elapsed + dt > t.duration ==> !t.after(dt).active,
        t.active && t.elapsed + dt <= t.duration ==> t.after(dt).active && t.after(dt).elapsed
            == t.elapsed + dt,
{
}

/// Triggering again replays: whatever state a one-shot is in, after a
/// restart it is the one-shot that it was at its start, so every later
/// tick is what it was the first time.
pub proof fn lemma_restart_replays(t: OneShot, u: OneShot, dt: u32)
    requires
        t.duration == u.duration,
    ensures
        t.restarted() == OneShot::fresh(t.duration),
        t.restarted() == u.restarted(),
        t.restarted().after(dt) == u.restarted().after(dt),
{
}

} // verus!
