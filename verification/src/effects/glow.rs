//! Glow: glyphs pulse in brightness and size, shimmering across the grid.
//!
//! With `s` the sine of `2 pi speed time + offset`, the scale of a cell is
//! multiplied by `1 + 0.05 s` and the alpha of its glyph by
//! `1 + intensity * s`.

use crate::grid::{GridPosition, TerminalGrid};
use crate::units::{add_sat, clamp, mq, mul_quot, saturate};
use super::breathe::{stagger, stagger_of};
use super::delta::{CellDelta, Recolor, Resize, Turn};
use super::engine::{Effect, effected, no_layout, Scene, sweep};
use super::region::EffectRegion;
use super::sample::{angle_of, phase_at, phase_of, Probe, Sample, turns_to_angle};
use super::timing::Clock;
use vstd::prelude::*;

verus! {

/// A pulsing glow.
#[derive(Clone, Copy, Debug, PartialEq, Eq, Structural)]
pub struct Glow {
    /// Pulses per second, in thousandths.
    pub speed: i32,
    /// How much of the alpha the pulse takes or adds, in thousandths.
    pub intensity: i32,
    /// How far neighbours are out of step, in thousandths.
    pub spread: i32,
}

impl Default for Glow {
    fn default() -> (g: Glow)
        ensures
            g == (Glow { speed: 2_000, intensity: 500, spread: 400 }),
    {
        Glow { speed: 2_000, intensity: 500, spread: 400 }
    }
}

impl Glow {
    /// Where the sine is to be taken for the cell at `p`.
    pub open spec fn probe_at(self, p: GridPosition, now: u64) -> Probe {
        Probe {
            angle: clamp(angle_of(phase_at(now, self.speed)) + stagger(p, 500, 800, self.spread)),
            exponent: 0,
            ..Probe::origin()
        }
    }

    /// What the glow does to a cell whose sine is `sample.sin`.
    pub open spec fn delta_at(self, sample: Sample) -> CellDelta {
        CellDelta {
            dx: 0,
            dy: 0,
            turn: Turn::Keep,
            resize: Resize::By(clamp(1000 + mq(50, sample.sin as int, 1_000_000))),
            recolor: Recolor::Fade(clamp(1000 + mq(self.intensity as int, sample.sin as int, 1_000_000))),
        }
    }

    /// Where the sine is to be taken for the cell at `p`.
    pub fn probe(&self, p: GridPosition, clock: Clock) -> (r: Probe)
        ensures
            r == self.probe_at(p, clock.now),
    {
        Probe::at_angle(
            saturate(
                turns_to_angle(phase_of(clock.now, self.speed) as i128) as i128 + stagger_of(
                    p,
                    500,
                    800,
                    self.spread,
                ),
            ),
        )
    }

    /// What the glow does to a cell whose sine is `sample.sin`.
    pub fn delta(&self, sample: Sample) -> (d: CellDelta)
        ensures
            d == self.delta_at(sample),
    {
        CellDelta {
            dx: 0,
            dy: 0,
            turn: Turn::Keep,
            resize: Resize::By(add_sat(1000, mul_quot(50, sample.sin as i64, 1_000_000))),
            recolor: Recolor::Fade(
                add_sat(1000, mul_quot(self.intensity as i64, sample.sin as i64, 1_000_000)),
            ),
        }
    }
}

/// Runs one glow for one tick: every cell of the region that has a
/// sample pulses in size and in the alpha of its glyph.
pub fn glow_system(
    clock: Clock,
    effect: &Glow,
    region: &EffectRegion,
    grid: &mut TerminalGrid,
    samples: &Vec<Sample>,
)
    requires
        old(grid).wf(),
    ensures
        final(grid).wf(),
        final(grid)@ == effected(
            old(grid)@,
            Effect::Glow(*effect),
            Scene::sampled(clock, *region, samples@),
        ),
{
    sweep(grid, &Effect::Glow(*effect), clock, &no_layout(), region, samples);
}

} // verus!
