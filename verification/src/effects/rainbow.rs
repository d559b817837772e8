//! Rainbow: glyph colors run through the hues, shifted across the grid
//! and turning with time.
//!
//! The hue of a cell is the fraction of a turn left of
//! `(column + row) * spread + time * speed`; saturation and lightness are
//! the effect's own. The color that goes with the three is the host's.

use crate::grid::{GridPosition, TerminalGrid};
use super::delta::{CellDelta, Recolor};
use super::engine::{Effect, effected, no_layout, Scene, sweep};
use super::region::EffectRegion;
use super::sample::{phase_at, phase_of, Probe, Sample};
use super::timing::Clock;
use vstd::prelude::*;

verus! {

/// A hue cycle.
#[derive(Clone, Copy, Debug, PartialEq, Eq, Structural)]
pub struct Rainbow {
    /// Turns of the hue per second, in thousandths.
    pub speed: i32,
    /// Saturation, in thousandths.
    pub saturation: u16,
    /// Lightness, in thousandths.
    pub lightness: u16,
    /// How much the hue turns from one cell to the next, in thousandths of
    /// a turn.
    pub spread: i32,
}

impl Default for Rainbow {
    fn default() -> (r: Rainbow)
        ensures
            r == (Rainbow { speed: 1_000, saturation: 1_000, lightness: 600, spread: 300 }),
    {
        Rainbow { speed: 1_000, saturation: 1_000, lightness: 600, spread: 300 }
    }
}

impl Rainbow {
    /// The hue of the cell at `p` at time `now`, in millionths of a turn
    /// from 0 up to 1 000 000.
    pub open spec fn hue_at(self, p: GridPosition, now: u64) -> int {
        ((p.col + p.row) * self.spread * 1000 + phase_at(now, self.speed)) % 1_000_000
    }

    /// What the host is to evaluate for the cell at `p`: the color of the
    /// cell's hue at the effect's saturation and lightness.
    pub open spec fn probe_at(self, p: GridPosition, now: u64) -> Probe {
        Probe {
            hue: self.hue_at(p, now) as u32,
            saturation: self.saturation,
            lightness: self.lightness,
            ..Probe::origin()
        }
    }

    /// What the rainbow does to a cell: red, green and blue of its glyph
    /// become those that the host found for the cell's hue; its alpha
    /// stays.
    pub open spec fn delta_at(self, sample: Sample) -> CellDelta {
        CellDelta { recolor: Recolor::Rgb(sample.red, sample.green, sample.blue), ..CellDelta::none() }
    }

    /// The hue of the cell at `p` at the time of `clock`.
    pub fn hue(&self, p: GridPosition, clock: Clock) -> (h: u32)
        ensures
            h == self.hue_at(p, clock.now),
            h < 1_000_000,
    {
        let cells: i64 = p.col as i64 + p.row as i64;
        assert(-0x1_fffe * 0x8000_0000 <= cells * self.spread <= 0x1_fffe * 0x8000_0000)
            by (nonlinear_arith)
            requires
                0 <= cells <= 0x1_fffe,
                -0x8000_0000 <= self.spread <= 0x7fff_ffff,
        ;
        let turns: i64 = cells * (self.spread as i64) * 1000 + phase_of(clock.now, self.speed);
        let m: i64 = turns % 1_000_000;
        if m < 0 {
            (m + 1_000_000) as u32
        } else {
            m as u32
        }
    }

    /// What the host is to evaluate for the cell at `p`.
    pub fn probe(&self, p: GridPosition, clock: Clock) -> (r: Probe)
        ensures
            r == self.probe_at(p, clock.now),
    {
        Probe {
            hue: self.hue(p, clock),
            saturation: self.saturation,
            lightness: self.lightness,
            ..Probe::zero()
        }
    }

    /// What the rainbow does to a cell, given the color that the host
    /// found for it.
    pub fn delta(&self, sample: Sample) -> (d: CellDelta)
        ensures
            d == self.delta_at(sample),
    {
        CellDelta { recolor: Recolor::Rgb(sample.red, sample.green, sample.blue), ..CellDelta::identity() }
    }
}

/// Runs one rainbow for one tick: the glyph of every cell of the region
/// that has a sample takes the color that the host found for the cell's
/// hue.
pub fn rainbow_system(
    clock: Clock,
    effect: &Rainbow,
    region: &EffectRegion,
    grid: &mut TerminalGrid,
    samples: &Vec<Sample>,
)
    requires
        old(grid).wf(),
    ensures
        final(grid).wf(),
        final(grid)@ == effected(
            old(grid)@,
            Effect::Rainbow(*effect),
            Scene::sampled(clock, *region, samples@),
        ),
{
    sweep(grid, &Effect::Rainbow(*effect), clock, &no_layout(), region, samples);
}

} // verus!
