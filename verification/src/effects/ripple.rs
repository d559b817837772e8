//! Ripple: rings spread from an origin and lift the cells, weaker with
//! distance.
//!
//! The lift of a cell at distance `d` from the origin is the amplitude
//! times the sine of `2 pi (d / wavelength - phase)` times the exponential
//! of `-damping * d`.

use crate::grid::{GridPosition, TerminalGrid};
use crate::units::{clamp, mq, mul_div, mul_quot, neg_sat, per, sub_sat};
use super::delta::CellDelta;
use super::engine::{Effect, effected, no_layout, Scene, sweep};
use super::region::EffectRegion;
use super::sample::{angle_of, length, length_of, phase_at, phase_of, Probe, Sample, turns_to_angle};
use super::timing::Clock;
use vstd::prelude::*;

verus! {

/// Rings around an origin.
#[derive(Clone, Copy, Debug, PartialEq, Eq, Structural)]
pub struct Ripple {
    /// The column of the origin, in thousandths of a cell.
    pub origin_col: i32,
    /// The row of the origin, in thousandths of a cell.
    pub origin_row: i32,
    /// The largest lift, in thousandths of a pixel.
    pub amplitude: i32,
    /// The distance from ring to ring, in thousandths of a cell.
    pub wavelength: i32,
    /// Rings per second past a fixed place, in thousandths.
    pub speed: i32,
    /// How far the rings have run, in millionths of a wavelength from 0 up
    /// to 1 000 000; whole wavelengths are dropped.
    pub phase: u32,
    /// How fast the lift dies with distance, in thousandths per cell.
    pub damping: i32,
}

impl Default for Ripple {
    fn default() -> (r: Ripple)
        ensures
            r == (Ripple {
                origin_col: 40_000,
                origin_row: 12_000,
                amplitude: 8_000,
                wavelength: 6_000,
                speed: 10_000,
                phase: 0,
                damping: 100,
            }),
    {
        Ripple {
            origin_col: 40_000,
            origin_row: 12_000,
            amplitude: 8_000,
            wavelength: 6_000,
            speed: 10_000,
            phase: 0,
            damping: 100,
        }
    }
}

impl Ripple {
    /// The ripple after a tick of `dt`: the rings have run on.
    pub open spec fn after(self, dt: u32) -> Ripple {
        Ripple {
            phase: ((self.phase % 1_000_000 + phase_at(dt as u64, self.speed)) % 1_000_000) as u32,
            ..self
        }
    }

    /// The distance of the cell at `p` from the origin, in thousandths of
    /// a cell.
    pub open spec fn distance(self, p: GridPosition) -> int {
        clamp(length(p.col * 1000 - self.origin_col, p.row * 1000 - self.origin_row)) as int
    }

    /// Where the curves are to be taken for the cell at `p`: the sine at
    /// the angle of `distance / wavelength - phase` turns, the exponential
    /// at `-damping * distance`.
    pub open spec fn probe_at(self, p: GridPosition) -> Probe {
        let d = self.distance(p);
        Probe {
            angle: angle_of(clamp(per(d, 1_000_000, self.wavelength as int) - self.phase) as int) as i64,
            exponent: clamp(-mq(self.damping as int, d, 1)),
            ..Probe::origin()
        }
    }

    /// What the ripple does to a cell: it lifts it by the amplitude times
    /// the sine times the exponential. A ripple without wavelength does
    /// nothing.
    pub open spec fn delta_at(self, sample: Sample) -> CellDelta {
        if self.wavelength == 0 {
            CellDelta::none()
        } else {
            CellDelta::shift(
                0,
                mq(
                    mq(self.amplitude as int, sample.sin as int, 1_000_000) as int,
                    sample.exp as int,
                    1_000_000,
                ),
            )
        }
    }

    /// Lets the rings run on for one tick.
    pub fn tick(&mut self, dt: u32)
        ensures
            *final(self) == old(self).after(dt),
    {
        let run: i64 = (self.phase % 1_000_000) as i64 + phase_of(dt as u64, self.speed);
        self.phase = (run % 1_000_000) as u32;
    }

    /// Where the curves are to be taken for the cell at `p`.
    pub fn probe(&self, p: GridPosition) -> (r: Probe)
        ensures
            r == self.probe_at(p),
    {
        let dx: i64 = p.col as i64 * 1000 - self.origin_col as i64;
        let dy: i64 = p.row as i64 * 1000 - self.origin_row as i64;
        let far: u64 = length_of(dx, dy);
        let d: i64 = if far > 0x7fff_ffff_ffff_ffff {
            0x7fff_ffff_ffff_ffff
        } else {
            far as i64
        };
        let turns: i64 = sub_sat(mul_div(d, 1_000_000, self.wavelength as i64), self.phase as i64);
        Probe {
            angle: turns_to_angle(turns as i128),
            exponent: neg_sat(mul_quot(self.damping as i64, d, 1)),
            ..Probe::zero()
        }
    }

    /// What the ripple does to a cell, given its sample.
    pub fn delta(&self, sample: Sample) -> (d: CellDelta)
        ensures
            d == self.delta_at(sample),
    {
        if self.wavelength == 0 {
            CellDelta::identity()
        } else {
            let lift: i64 = mul_quot(self.amplitude as i64, sample.sin as i64, 1_000_000);
            CellDelta::translate(0, mul_quot(lift, sample.exp as i64, 1_000_000))
        }
    }
}

/// Runs one ripple for one tick: the rings run on, and every cell of the
/// region that has a sample is lifted by them. The samples are to be
/// taken at the probes of the ripple as it is after this tick.
pub fn ripple_system(
    clock: Clock,
    effect: &mut Ripple,
    region: &EffectRegion,
    grid: &mut TerminalGrid,
    samples: &Vec<Sample>,
)
    requires
        old(grid).wf(),
    ensures
        final(grid).wf(),
        *final(effect) == old(effect).after(clock.delta),
        final(grid)@ == effected(
            old(grid)@,
            Effect::Ripple(*final(effect)),
            Scene::sampled(clock, *region, samples@),
        ),
{
    effect.tick(clock.delta);
    sweep(grid, &Effect::Ripple(*effect), clock, &no_layout(), region, samples);
}

} // verus!
