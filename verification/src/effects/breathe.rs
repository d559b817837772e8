//! Breathe: cells swell and shrink in a slow rhythm, each a little out of
//! step with its neighbours.
//!
//! The scale of a cell is multiplied by the middle of the range plus half
//! the range times the sine of `2 pi speed time + offset`, where the
//! offset grows with the column and the row.

use crate::grid::{GridPosition, TerminalGrid};
use crate::units::{clamp, quot, saturate};
use super::delta::{CellDelta, Resize};
use super::engine::{Effect, effected, no_layout, Scene, sweep};
use super::region::EffectRegion;
use super::sample::{angle_of, phase_at, phase_of, Probe, Sample, turns_to_angle};
use super::timing::Clock;
use vstd::prelude::*;

verus! {

/// A rhythmic change of scale.
#[derive(Clone, Copy, Debug, PartialEq, Eq, Structural)]
pub struct Breathe {
    /// The smallest scale, in thousandths.
    pub min_scale: i32,
    /// The largest scale, in thousandths.
    pub max_scale: i32,
    /// Breaths per second, in thousandths.
    pub speed: i32,
    /// How far neighbours are out of step, in thousandths.
    pub phase_spread: i32,
}

impl Default for Breathe {
    fn default() -> (b: Breathe)
        ensures
            b == (Breathe { min_scale: 800, max_scale: 1_200, speed: 1_500, phase_spread: 300 }),
    {
        Breathe { min_scale: 800, max_scale: 1_200, speed: 1_500, phase_spread: 300 }
    }
}

/// The offset of the cell at `p`, in millionths of a radian: `across`
/// thousandths of a radian per column and `down` per row, times the
/// spread in thousandths.
pub open spec fn stagger(p: GridPosition, across: int, down: int, spread: i32) -> int {
    (p.col * across + p.row * down) * spread
}

/// The offset of the cell at `p`, in millionths of a radian.
pub fn stagger_of(p: GridPosition, across: u16, down: u16, spread: i32) -> (s: i128)
    ensures
        s == stagger(p, across as int, down as int, spread),
        -0x1_0000_0000_0000_0000 <= s <= 0x1_0000_0000_0000_0000,
{
    assert(0 <= p.col * across <= 0xffff * 0xffff && 0 <= p.row * down <= 0xffff * 0xffff)
        by (nonlinear_arith)
        requires
            0 <= p.col <= 0xffff,
            0 <= p.row <= 0xffff,
            0 <= across <= 0xffff,
            0 <= down <= 0xffff,
    ;
    let w: i128 = (p.col as i128) * (across as i128) + (p.row as i128) * (down as i128);
    assert(-0x8000_0000 * (2 * 0xffff * 0xffff) <= w * spread <= 0x8000_0000 * (2 * 0xffff * 0xffff))
        by (nonlinear_arith)
        requires
            0 <= w <= 2 * 0xffff * 0xffff,
            -0x8000_0000 <= spread <= 0x7fff_ffff,
    ;
    w * (spread as i128)
}

impl Breathe {
    /// Where the sine is to be taken for the cell at `p`.
    pub open spec fn probe_at(self, p: GridPosition, now: u64) -> Probe {
        Probe {
            angle: clamp(angle_of(phase_at(now, self.speed)) + stagger(p, 700, 1100, self.phase_spread)),
            exponent: 0,
            ..Probe::origin()
        }
    }

    /// The scale factor, in thousandths, where the sine is `sine`
    /// millionths.
    pub open spec fn scale_at(self, sine: i32) -> int {
        quot(
            (self.min_scale + self.max_scale) * 1_000_000 + (self.max_scale - self.min_scale) * sine,
            2_000_000,
        )
    }

    /// What breathing does to a cell: its scale is multiplied by the
    /// factor of its place in the rhythm.
    pub open spec fn delta_at(self, sample: Sample) -> CellDelta {
        CellDelta { resize: Resize::By(self.scale_at(sample.sin) as i64), ..CellDelta::none() }
    }

    /// Where the sine is to be taken for the cell at `p`.
    pub fn probe(&self, p: GridPosition, clock: Clock) -> (r: Probe)
        ensures
            r == self.probe_at(p, clock.now),
    {
        Probe::at_angle(
            saturate(
                turns_to_angle(phase_of(clock.now, self.speed) as i128) as i128 + stagger_of(
                    p,
                    700,
                    1100,
                    self.phase_spread,
                ),
            ),
        )
    }

    /// What breathing does to a cell whose sine is `sample.sin`.
    pub fn delta(&self, sample: Sample) -> (d: CellDelta)
        ensures
            d == self.delta_at(sample),
    {
        let sum: i128 = self.min_scale as i128 + self.max_scale as i128;
        let span: i128 = self.max_scale as i128 - self.min_scale as i128;
        assert(-0x1_0000_0000 * 0x8000_0000 <= span * sample.sin <= 0x1_0000_0000 * 0x8000_0000)
            by (nonlinear_arith)
            requires
                -0x1_0000_0000 <= span <= 0x1_0000_0000,
                -0x8000_0000 <= sample.sin <= 0x7fff_ffff,
        ;
        let scale: i128 = (sum * 1_000_000 + span * (sample.sin as i128)) / 2_000_000;
        CellDelta { resize: Resize::By(scale as i64), ..CellDelta::identity() }
    }
}

/// Runs one breathe for one tick: every cell of the region that has a
/// sample is scaled by the factor of its place in the rhythm.
pub fn breathe_system(
    clock: Clock,
    effect: &Breathe,
    region: &EffectRegion,
    grid: &mut TerminalGrid,
    samples: &Vec<Sample>,
)
    requires
        old(grid).wf(),
    ensures
        final(grid).wf(),
        final(grid)@ == effected(
            old(grid)@,
            Effect::Breathe(*effect),
            Scene::sampled(clock, *region, samples@),
        ),
{
    sweep(grid, &Effect::Breathe(*effect), clock, &no_layout(), region, samples);
}

} // verus!
