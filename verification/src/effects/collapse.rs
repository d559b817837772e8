//! Collapse: cells fall under gravity, each row starting a little after
//! the row above it.

use crate::grid::TerminalGrid;
use super::delta::CellDelta;
use super::engine::{Effect, effected, no_layout, Scene, sweep};
use super::region::EffectRegion;
use super::sample::Sample;
use super::timing::{Clock, OneShot};
use vstd::prelude::*;

verus! {

/// A one-shot collapse.
#[derive(Clone, Copy, Debug, PartialEq, Eq, Structural)]
pub struct Collapse {
    /// Acceleration, in thousandths of a pixel per second squared.
    pub gravity: i32,
    /// How long the collapse has run, in microseconds.
    pub elapsed: u32,
    /// How long the collapse runs, in microseconds.
    pub duration: u32,
    /// How much later each row starts than the row above, in microseconds.
    pub stagger_per_row: u32,
    /// Running; not finished.
    pub active: bool,
}

impl Default for Collapse {
    fn default() -> (c: Collapse)
        ensures
            c == (Collapse {
                gravity: 800_000,
                elapsed: 0,
                duration: 3_000_000,
                stagger_per_row: 50_000,
                active: true,
            }),
    {
        Collapse {
            gravity: 800_000,
            elapsed: 0,
            duration: 3_000_000,
            stagger_per_row: 50_000,
            active: true,
        }
    }
}

/// The distance fallen, in thousandths of a pixel, after `t` microseconds
/// under `gravity`: half the gravity times the square of the time.
pub open spec fn fallen(gravity: int, t: int) -> int {
    crate::units::quot(gravity * t * t, 2_000_000_000_000)
}

impl Collapse {
    /// The life of the collapse.
    pub open spec fn timing(self) -> OneShot {
        OneShot { elapsed: self.elapsed, duration: self.duration, active: self.active }
    }

    /// The collapse after a tick of `dt`.
    pub open spec fn after(self, dt: u32) -> Collapse {
        let t = self.timing().after(dt);
        Collapse { elapsed: t.elapsed, active: t.active, ..self }
    }

    /// The collapse at its start.
    pub open spec fn restarted(self) -> Collapse {
        Collapse { elapsed: 0, active: true, ..self }
    }

    /// The time that `row` has been falling: the elapsed time less the
    /// row's delay, and not below zero.
    pub open spec fn fall_time(self, row: int) -> int {
        if self.elapsed - row * self.stagger_per_row > 0 {
            self.elapsed - row * self.stagger_per_row
        } else {
            0
        }
    }

    /// How far a cell of `row` has fallen.
    pub open spec fn fall(self, row: int) -> int {
        fallen(self.gravity as int, self.fall_time(row))
    }

    /// What the collapse does to a cell of `row`: it moves it down by the
    /// fall.
    pub open spec fn delta_at(self, row: int) -> CellDelta {
        CellDelta::shift(0, (-self.fall(row)) as i64)
    }

    /// Advances the collapse by one tick and returns whether it applies in
    /// this tick.
    pub fn tick(&mut self, dt: u32) -> (live: bool)
        ensures
            *final(self) == old(self).after(dt),
            live == final(self).active,
    {
        let mut t = OneShot { elapsed: self.elapsed, duration: self.duration, active: self.active };
        let live = t.tick(dt);
        self.elapsed = t.elapsed;
        self.active = t.active;
        live
    }

    /// Starts the collapse over.
    pub fn retrigger(&mut self)
        ensures
            *final(self) == old(self).restarted(),
    {
        self.elapsed = 0;
        self.active = true;
    }

    /// How far a cell of `row` has fallen, in thousandths of a pixel.
    pub fn offset(&self, row: u16) -> (f: i64)
        ensures
            f == self.fall(row as int),
            -0x80_0000_0000_0000 < f < 0x80_0000_0000_0000,
    {
        assert(row * self.stagger_per_row <= 0xffff * 0xffff_ffff) by (nonlinear_arith)
            requires
                0 <= row <= 0xffff,
                0 <= self.stagger_per_row <= 0xffff_ffff,
        ;
        let delay: u64 = (row as u64) * (self.stagger_per_row as u64);
        let t: u64 = if (self.elapsed as u64) > delay {
            self.elapsed as u64 - delay
        } else {
            0
        };
        assert(t * t <= 0xffff_ffff * 0xffff_ffff) by (nonlinear_arith)
            requires
                0 <= t <= 0xffff_ffff,
        ;
        let sq: u64 = t * t;
        let g: i128 = self.gravity as i128;
        assert(-0x8000_0000 * 0xffff_ffff_ffff_ffff <= g * sq <= 0x8000_0000 * 0xffff_ffff_ffff_ffff)
            by (nonlinear_arith)
            requires
                -0x8000_0000 <= g <= 0x7fff_ffff,
                0 <= sq <= 0xffff_ffff_ffff_ffff,
        ;
        assert(self.gravity * t * t == g * sq) by (nonlinear_arith)
            requires
                g == self.gravity,
                sq == t * t,
        ;
        let f: i128 = g * (sq as i128) / 2_000_000_000_000;
        f as i64
    }

    /// What the collapse does to a cell of `row`.
    pub fn delta(&self, row: u16) -> (d: CellDelta)
        ensures
            d == self.delta_at(row as int),
    {
        CellDelta::translate(0, -self.offset(row))
    }
}

/// The life of a collapse: once its time has run past its duration it is
/// finished; finished, it stays as it is, tick after tick; and started
/// over it is, whatever became of it, the collapse that it was at its
/// start.
pub proof fn lemma_collapse_life(c: Collapse, dt: u32)
    ensures
        c.active && c.elapsed + dt > c.duration ==> !c.after(dt).active,
        c.active && c.elapsed + dt <= c.duration ==> c.after(dt).active && c.after(dt).elapsed
            == c.elapsed + dt,
        !c.active ==> c.after(dt) == c,
        c.after(dt).restarted() == c.restarted(),
        c.restarted() == (Collapse { elapsed: 0, active: true, ..c }),
{
}

/// Before its delay has passed a row has not moved, and a collapse that
/// has just started has moved nothing.
pub proof fn lemma_not_yet_falling(c: Collapse, row: int)
    requires
        0 <= row,
        c.elapsed <= row * c.stagger_per_row,
    ensures
        c.fall(row) == 0,
        c.delta_at(row) == CellDelta::none(),
{
    assert(c.gravity * 0 * 0 == 0);
}

/// Runs one collapse for one tick: time passes for it and, unless it is
/// finished, every cell of the region moves down by its fall.
pub fn collapse_system(clock: Clock, effect: &mut Collapse, region: &EffectRegion, grid: &mut TerminalGrid)
    requires
        old(grid).wf(),
    ensures
        final(grid).wf(),
        *final(effect) == old(effect).after(clock.delta),
        final(grid)@ == effected(old(grid)@, Effect::Collapse(*final(effect)), Scene::plain(clock, *region)),
{
    if effect.tick(clock.delta) {
        let samples: Vec<Sample> = Vec::new();
        sweep(grid, &Effect::Collapse(*effect), clock, &no_layout(), region, &samples);
    }
}

} // verus!
