//! Explode: cells burst out from an origin, each with its own direction,
//! speed, spin and moment of vanishing, all drawn from the hash of the
//! cell.
//!
//! A cell flies along the way from the origin to its resting place,
//! turned by an angle of up to `chaos` quarter turns either way; the sine
//! and the cosine of that angle are the host's.

use crate::TerminalLayout;
use crate::grid::{GridPosition, TerminalGrid};
use crate::units::{add_sat, clamp, minus, mq, mul_div, mul_quot, neg_sat, per, plus, sub_sat};
use super::delta::{CellDelta, Recolor, Resize, Turn};
use super::engine::{Effect, effected, Scene, sweep};
use super::radial::{draw_lot, lot, way, way_to};
use super::region::EffectRegion;
use super::sample::{Probe, Sample};
use super::timing::{Clock, OneShot};
use vstd::prelude::*;

verus! {

/// A one-shot explosion.
#[derive(Clone, Copy, Debug, PartialEq, Eq, Structural)]
pub struct Explode {
    /// The column of the origin, in thousandths of a cell.
    pub origin_col: i32,
    /// The row of the origin, in thousandths of a cell.
    pub origin_row: i32,
    /// Outward speed, in thousandths of a pixel per second.
    pub force: i32,
    /// How much the cells differ from each other, in thousandths: 0 makes
    /// them fly alike.
    pub chaos: i32,
    /// How long the explosion has run, in microseconds.
    pub elapsed: u32,
    /// How long the explosion runs, in microseconds.
    pub duration: u32,
    /// Running; not finished.
    pub active: bool,
}

impl Default for Explode {
    fn default() -> (e: Explode)
        ensures
            e == (Explode {
                origin_col: 40_000,
                origin_row: 12_000,
                force: 200_000,
                chaos: 500,
                elapsed: 0,
                duration: 2_500_000,
                active: true,
            }),
    {
        Explode {
            origin_col: 40_000,
            origin_row: 12_000,
            force: 200_000,
            chaos: 500,
            elapsed: 0,
            duration: 2_500_000,
            active: true,
        }
    }
}

impl Explode {
    /// The life of the explosion.
    pub open spec fn timing(self) -> OneShot {
        OneShot { elapsed: self.elapsed, duration: self.duration, active: self.active }
    }

    /// The explosion after a tick of `dt`.
    pub open spec fn after(self, dt: u32) -> Explode {
        let t = self.timing().after(dt);
        Explode { elapsed: t.elapsed, active: t.active, ..self }
    }

    /// The explosion at its start.
    pub open spec fn restarted(self) -> Explode {
        Explode { elapsed: 0, active: true, ..self }
    }

    /// Where the sine and the cosine are to be taken for the cell at `p`:
    /// at the angle by which the cell leaves its straight way out, from a
    /// quarter turn one way to a quarter turn the other at full chaos.
    pub open spec fn probe_at(self, p: GridPosition) -> Probe {
        Probe {
            angle: mq(mq(lot(p, 111) - 5000, 3_141_593, 10_000) as int, self.chaos as int, 1000),
            exponent: 0,
            ..Probe::origin()
        }
    }

    /// The speed of the cell at `p` as a share of the force, in
    /// millionths: from half the chaos below 1.0 to half the chaos above.
    pub open spec fn speed_share(self, p: GridPosition) -> i64 {
        plus(1_000_000, mq(lot(p, 222) - 5000, self.chaos as int, 10) as int)
    }

    /// How far the cell at `p` has spun: at between 2 and 8 radians per
    /// second, one way or the other.
    pub open spec fn spin(self, p: GridPosition) -> i64 {
        let turned = mq(2_000_000 + 600 * lot(p, 333), self.elapsed as int, 1_000_000);
        if lot(p, 333) > 5000 {
            turned
        } else {
            clamp(-turned)
        }
    }

    /// The scale factor of the cell at `p`, in thousandths: it falls from
    /// 1.0 to 0.0 over the duration, a little early or late from cell to
    /// cell.
    pub open spec fn scale(self, p: GridPosition) -> i64 {
        if self.duration == 0 {
            0
        } else {
            let gone = plus(
                per(self.elapsed as int, 1_000_000, self.duration as int) as int,
                mq(lot(p, 444) - 5000, 3 * self.chaos, 100) as int,
            );
            if gone < 0 {
                1000
            } else if gone > 1_000_000 {
                0
            } else {
                ((1_000_000 - gone) / 1000) as i64
            }
        }
    }

    /// What the explosion does to the cell at `p`, given the sine and the
    /// cosine of the cell's angle: the cell is moved along its own way
    /// out, turned further by its spin and scaled by its factor.
    pub open spec fn delta_at(self, p: GridPosition, layout: TerminalLayout, sample: Sample) -> CellDelta {
        let w = way(p, self.origin_col, self.origin_row, layout);
        let nx = mq(w.dx as int, 1_000_000, w.reach as int);
        let ny = mq(w.dy as int, 1_000_000, w.reach as int);
        let dir_x = minus(
            mq(nx as int, sample.cos as int, 1_000_000) as int,
            mq(ny as int, sample.sin as int, 1_000_000) as int,
        );
        let dir_y = plus(
            mq(nx as int, sample.sin as int, 1_000_000) as int,
            mq(ny as int, sample.cos as int, 1_000_000) as int,
        );
        let run = mq(
            mq(self.force as int, self.speed_share(p) as int, 1_000_000) as int,
            self.elapsed as int,
            1_000_000,
        );
        CellDelta {
            dx: mq(dir_x as int, run as int, 1_000_000),
            dy: mq(dir_y as int, run as int, 1_000_000),
            turn: Turn::By(self.spin(p)),
            resize: Resize::By(self.scale(p)),
            recolor: Recolor::Keep,
        }
    }

    /// Advances the explosion by one tick and returns whether it applies
    /// in this tick.
    pub fn tick(&mut self, dt: u32) -> (live: bool)
        ensures
            *final(self) == old(self).after(dt),
            live == final(self).active,
    {
        let mut t = OneShot { elapsed: self.elapsed, duration: self.duration, active: self.active };
        let live = t.tick(dt);
        self.elapsed = t.elapsed;
        self.active = t.active;
        live
    }

    /// Starts the explosion over.
    pub fn retrigger(&mut self)
        ensures
            *final(self) == old(self).restarted(),
    {
        self.elapsed = 0;
        self.active = true;
    }

    /// Where the sine and the cosine are to be taken for the cell at `p`.
    pub fn probe(&self, p: GridPosition) -> (r: Probe)
        ensures
            r == self.probe_at(p),
    {
        Probe::at_angle(
            mul_quot(mul_quot(draw_lot(p, 111) - 5000, 3_141_593, 10_000), self.chaos as i64, 1000),
        )
    }

    /// What the explosion does to the cell at `p`, given its sample.
    pub fn delta(&self, p: GridPosition, layout: &TerminalLayout, sample: Sample) -> (d: CellDelta)
        ensures
            d == self.delta_at(p, *layout, sample),
    {
        let w = way_to(p, self.origin_col, self.origin_row, layout);
        let nx: i64 = mul_quot(w.dx, 1_000_000, w.reach);
        let ny: i64 = mul_quot(w.dy, 1_000_000, w.reach);
        let sin: i64 = sample.sin as i64;
        let cos: i64 = sample.cos as i64;
        let dir_x: i64 = sub_sat(mul_quot(nx, cos, 1_000_000), mul_quot(ny, sin, 1_000_000));
        let dir_y: i64 = add_sat(mul_quot(nx, sin, 1_000_000), mul_quot(ny, cos, 1_000_000));
        let share: i64 = add_sat(1_000_000, mul_quot(draw_lot(p, 222) - 5000, self.chaos as i64, 10));
        let run: i64 = mul_quot(
            mul_quot(self.force as i64, share, 1_000_000),
            self.elapsed as i64,
            1_000_000,
        );
        let r3: i64 = draw_lot(p, 333);
        let turned: i64 = mul_quot(2_000_000 + 600 * r3, self.elapsed as i64, 1_000_000);
        let spin: i64 = if r3 > 5000 {
            turned
        } else {
            neg_sat(turned)
        };
        let scale: i64 = if self.duration == 0 {
            0
        } else {
            let gone: i64 = add_sat(
                mul_div(self.elapsed as i64, 1_000_000, self.duration as i64),
                mul_quot(draw_lot(p, 444) - 5000, 3 * (self.chaos as i64), 100),
            );
            if gone < 0 {
                1000
            } else if gone > 1_000_000 {
                0
            } else {
                (1_000_000 - gone) / 1000
            }
        };
        CellDelta {
            dx: mul_quot(dir_x, run, 1_000_000),
            dy: mul_quot(dir_y, run, 1_000_000),
            turn: Turn::By(spin),
            resize: Resize::By(scale),
            recolor: Recolor::Keep,
        }
    }
}

/// Runs one explosion for one tick: time passes for it and, unless it is
/// finished, every cell of the region that has a sample flies, spins and
/// shrinks its own way.
pub fn explode_system(
    clock: Clock,
    layout: &TerminalLayout,
    effect: &mut Explode,
    region: &EffectRegion,
    grid: &mut TerminalGrid,
    samples: &Vec<Sample>,
)
    requires
        old(grid).wf(),
    ensures
        final(grid).wf(),
        *final(effect) == old(effect).after(clock.delta),
        final(grid)@ == effected(
            old(grid)@,
            Effect::Explode(*final(effect)),
            Scene { clock, layout: *layout, region: *region, samples: samples@ },
        ),
{
    if effect.tick(clock.delta) {
        sweep(grid, &Effect::Explode(*effect), clock, layout, region, samples);
    }
}

} // verus!
