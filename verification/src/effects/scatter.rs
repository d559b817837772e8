//! Scatter: cells fly straight out from an origin, spinning and
//! shrinking.
//!
//! After a time `t` a cell has moved `speed * t` along the way from the
//! origin to its resting place, is turned further by `spin * t * (1 +
//! reach / 1000)`, with the reach in pixels, and is scaled by `1 - 0.8 t /
//! duration`.

use crate::TerminalLayout;
use crate::grid::{GridPosition, TerminalCell, TerminalGrid};
use crate::units::{add_sat, mq, mul_quot, plus};
use super::delta::{CellDelta, Recolor, Resize, Turn};
use super::engine::{Effect, effected, Scene, sweep};
use super::radial::{way, way_to};
use super::region::EffectRegion;
use super::sample::Sample;
use super::timing::{Clock, OneShot};
use vstd::prelude::*;

verus! {

/// A one-shot radial scatter.
#[derive(Clone, Copy, Debug, PartialEq, Eq, Structural)]
pub struct Scatter {
    /// The column of the origin, in thousandths of a cell.
    pub origin_col: i32,
    /// The row of the origin, in thousandths of a cell.
    pub origin_row: i32,
    /// Outward speed, in thousandths of a pixel per second.
    pub speed: i32,
    /// How long the scatter has run, in microseconds.
    pub elapsed: u32,
    /// How long the scatter runs, in microseconds.
    pub duration: u32,
    /// Spin, in millionths of a radian per second.
    pub spin: i32,
    /// Running; not finished.
    pub active: bool,
}

impl Default for Scatter {
    fn default() -> (s: Scatter)
        ensures
            s == (Scatter {
                origin_col: 40_000,
                origin_row: 12_000,
                speed: 150_000,
                elapsed: 0,
                duration: 3_000_000,
                spin: 3_000_000,
                active: true,
            }),
    {
        Scatter {
            origin_col: 40_000,
            origin_row: 12_000,
            speed: 150_000,
            elapsed: 0,
            duration: 3_000_000,
            spin: 3_000_000,
            active: true,
        }
    }
}

impl Scatter {
    /// The life of the scatter.
    pub open spec fn timing(self) -> OneShot {
        OneShot { elapsed: self.elapsed, duration: self.duration, active: self.active }
    }

    /// The scatter after a tick of `dt`.
    pub open spec fn after(self, dt: u32) -> Scatter {
        let t = self.timing().after(dt);
        Scatter { elapsed: t.elapsed, active: t.active, ..self }
    }

    /// The scatter at its start.
    pub open spec fn restarted(self) -> Scatter {
        Scatter { elapsed: 0, active: true, ..self }
    }

    /// The scale factor of every cell, in thousandths: it falls from 1.0
    /// to 0.2 over the duration.
    pub open spec fn scale(self) -> i64 {
        if self.duration == 0 {
            0
        } else if mq(800, self.elapsed as int, self.duration as int) > 1000 {
            0
        } else {
            (1000 - mq(800, self.elapsed as int, self.duration as int)) as i64
        }
    }

    /// What the scatter does to the cell at `p`: the cell is moved
    /// outward, turned further by the spin and scaled by the factor, on
    /// top of what earlier effects made of it.
    pub open spec fn delta_at(self, p: GridPosition, layout: TerminalLayout) -> CellDelta {
        let w = way(p, self.origin_col, self.origin_row, layout);
        let run = mq(self.speed as int, self.elapsed as int, 1_000_000);
        CellDelta {
            dx: mq(w.dx as int, run as int, w.reach as int),
            dy: mq(w.dy as int, run as int, w.reach as int),
            turn: Turn::By(
                mq(
                    mq(self.spin as int, self.elapsed as int, 1_000_000) as int,
                    plus(1_000_000, w.reach as int) as int,
                    1_000_000,
                ),
            ),
            resize: Resize::By(self.scale()),
            recolor: Recolor::Keep,
        }
    }

    /// Advances the scatter by one tick and returns whether it applies in
    /// this tick.
    pub fn tick(&mut self, dt: u32) -> (live: bool)
        ensures
            *final(self) == old(self).after(dt),
            live == final(self).active,
    {
        let mut t = OneShot { elapsed: self.elapsed, duration: self.duration, active: self.active };
        let live = t.tick(dt);
        self.elapsed = t.elapsed;
        self.active = t.active;
        live
    }

    /// Starts the scatter over.
    pub fn retrigger(&mut self)
        ensures
            *final(self) == old(self).restarted(),
    {
        self.elapsed = 0;
        self.active = true;
    }

    /// What the scatter does to the cell at `p`.
    pub fn delta(&self, p: GridPosition, layout: &TerminalLayout) -> (d: CellDelta)
        ensures
            d == self.delta_at(p, *layout),
    {
        let w = way_to(p, self.origin_col, self.origin_row, layout);
        let run: i64 = mul_quot(self.speed as i64, self.elapsed as i64, 1_000_000);
        let shrunk: i64 = if self.duration == 0 {
            1001
        } else {
            mul_quot(800, self.elapsed as i64, self.duration as i64)
        };
        CellDelta {
            dx: mul_quot(w.dx, run, w.reach),
            dy: mul_quot(w.dy, run, w.reach),
            turn: Turn::By(
                mul_quot(
                    mul_quot(self.spin as i64, self.elapsed as i64, 1_000_000),
                    add_sat(1_000_000, w.reach),
                    1_000_000,
                ),
            ),
            resize: Resize::By(
                if shrunk > 1000 {
                    0
                } else {
                    1000 - shrunk
                },
            ),
            recolor: Recolor::Keep,
        }
    }
}

/// A scatter works on what earlier effects left of a cell: its offset is
/// added to the translation there is, its turn to the rotation there is,
/// and its factor multiplies the scale there is.
pub proof fn lemma_scatter_composes(s: Scatter, cell: TerminalCell, layout: TerminalLayout)
    ensures
        ({
            let d = s.delta_at(cell.position, layout);
            let after = d.applied(cell).transform;
            &&& d.turn is By
            &&& d.resize is By
            &&& after.translation.x == plus(cell.transform.translation.x as int, d.dx as int)
            &&& after.translation.y == plus(cell.transform.translation.y as int, d.dy as int)
            &&& after.rotation == plus(cell.transform.rotation as int, d.turn->By_0 as int)
            &&& after.scale.x == mq(cell.transform.scale.x as int, s.scale() as int, 1000)
            &&& after.scale.y == mq(cell.transform.scale.y as int, s.scale() as int, 1000)
            &&& after.scale.z == mq(cell.transform.scale.z as int, s.scale() as int, 1000)
        }),
{
}

/// Runs one scatter for one tick: time passes for it and, unless it is
/// finished, every cell of the region flies, spins and shrinks.
pub fn scatter_system(
    clock: Clock,
    layout: &TerminalLayout,
    effect: &mut Scatter,
    region: &EffectRegion,
    grid: &mut TerminalGrid,
)
    requires
        old(grid).wf(),
    ensures
        final(grid).wf(),
        *final(effect) == old(effect).after(clock.delta),
        final(grid)@ == effected(
            old(grid)@,
            Effect::Scatter(*final(effect)),
            Scene::laid(clock, *layout, *region),
        ),
{
    if effect.tick(clock.delta) {
        let samples: Vec<Sample> = Vec::new();
        sweep(grid, &Effect::Scatter(*effect), clock, layout, region, &samples);
    }
}

} // verus!
