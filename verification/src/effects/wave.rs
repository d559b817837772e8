//! Wave: a sine wave runs along the rows or the columns and lifts the
//! cells.
//!
//! The lift of a cell is the amplitude times the sine of
//! `2 pi (place / wavelength - speed * time)`.

use crate::grid::{GridPosition, TerminalGrid};
use crate::units::{clamp, mq, mul_div, mul_quot, per, sub_sat};
use super::delta::CellDelta;
use super::engine::{Effect, effected, no_layout, Scene, sweep};
use super::region::EffectRegion;
use super::sample::{angle_of, phase_at, phase_of, Probe, Sample, turns_to_angle};
use super::timing::Clock;
use vstd::prelude::*;

verus! {

/// A travelling sine wave.
#[derive(Clone, Copy, Debug, PartialEq, Eq, Structural)]
pub struct Wave {
    /// The largest lift, in thousandths of a pixel.
    pub amplitude: i32,
    /// The length of one wave, in thousandths of a cell.
    pub wavelength: i32,
    /// Waves per second past a fixed place, in thousandths.
    pub speed: i32,
    /// Whether the wave runs along the columns of a row (else along the
    /// rows of a column).
    pub horizontal: bool,
}

impl Default for Wave {
    fn default() -> (w: Wave)
        ensures
            w == (Wave { amplitude: 5_000, wavelength: 8_000, speed: 4_000, horizontal: true }),
    {
        Wave { amplitude: 5_000, wavelength: 8_000, speed: 4_000, horizontal: true }
    }
}

impl Wave {
    /// The place of a cell along the wave, in cells.
    pub open spec fn along(self, p: GridPosition) -> int {
        if self.horizontal {
            p.col as int
        } else {
            p.row as int
        }
    }

    /// Where the sine is to be taken for the cell at `p`: at the angle of
    /// `place / wavelength - speed * time` turns.
    pub open spec fn probe_at(self, p: GridPosition, now: u64) -> Probe {
        Probe {
            angle: angle_of(
                clamp(per(self.along(p), 1_000_000_000, self.wavelength as int) - phase_at(now, self.speed))
                    as int,
            ) as i64,
            exponent: 0,
            ..Probe::origin()
        }
    }

    /// What the wave does to a cell whose sine is `sample.sin`: it lifts it
    /// by the amplitude times the sine. A wave without length does
    /// nothing.
    pub open spec fn delta_at(self, sample: Sample) -> CellDelta {
        if self.wavelength == 0 {
            CellDelta::none()
        } else {
            CellDelta::shift(0, mq(self.amplitude as int, sample.sin as int, 1_000_000))
        }
    }

    /// Where the sine is to be taken for the cell at `p`.
    pub fn probe(&self, p: GridPosition, clock: Clock) -> (r: Probe)
        ensures
            r == self.probe_at(p, clock.now),
    {
        let along: i64 = if self.horizontal {
            p.col as i64
        } else {
            p.row as i64
        };
        let turns: i64 = sub_sat(
            mul_div(along, 1_000_000_000, self.wavelength as i64),
            phase_of(clock.now, self.speed),
        );
        Probe::at_angle(turns_to_angle(turns as i128))
    }

    /// What the wave does to a cell whose sine is `sample.sin`.
    pub fn delta(&self, sample: Sample) -> (d: CellDelta)
        ensures
            d == self.delta_at(sample),
    {
        if self.wavelength == 0 {
            CellDelta::identity()
        } else {
            CellDelta::translate(0, mul_quot(self.amplitude as i64, sample.sin as i64, 1_000_000))
        }
    }
}

/// Runs one wave for one tick: every cell of the region that has a
/// sample is lifted by the wave.
pub fn wave_system(
    clock: Clock,
    effect: &Wave,
    region: &EffectRegion,
    grid: &mut TerminalGrid,
    samples: &Vec<Sample>,
)
    requires
        old(grid).wf(),
    ensures
        final(grid).wf(),
        final(grid)@ == effected(
            old(grid)@,
            Effect::Wave(*effect),
            Scene::sampled(clock, *region, samples@),
        ),
{
    sweep(grid, &Effect::Wave(*effect), clock, &no_layout(), region, samples);
}

} // verus!
