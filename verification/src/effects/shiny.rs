//! Shiny: a bright band sweeps across the grid and lights the glyphs
//! under it.
//!
//! The band stands across the direction of the sweep; its middle is
//! `(speed * time) mod 200 - width` cells along that direction. A glyph
//! within half the width of the middle is brightened, most at the middle
//! and smoothly less toward the edges. The sine and the cosine of the
//! direction are the host's.

use crate::grid::{GridPosition, TerminalGrid};
use crate::units::{add_sat, mq, mul_div, mul_quot, per, plus, quot, size};
use super::delta::{CellDelta, Recolor};
use super::engine::{Effect, effected, no_layout, Scene, sweep};
use super::region::EffectRegion;
use super::sample::{Probe, Sample, smooth, smoothstep};
use super::timing::Clock;
use vstd::prelude::*;

verus! {

/// A sweeping highlight.
#[derive(Clone, Copy, Debug, PartialEq, Eq, Structural)]
pub struct Shiny {
    /// The speed of the sweep, in thousandths of a cell per second.
    pub speed: i32,
    /// The width of the band, in thousandths of a cell.
    pub width: i32,
    /// The direction of the sweep, in millionths of a radian: 0 sweeps
    /// along the rows.
    pub angle: i32,
    /// How much brighter the middle of the band is, in thousandths.
    pub brightness: i32,
}

impl Default for Shiny {
    fn default() -> (s: Shiny)
        ensures
            s == (Shiny { speed: 8_000, width: 6_000, angle: 500_000, brightness: 2_000 }),
    {
        Shiny { speed: 8_000, width: 6_000, angle: 500_000, brightness: 2_000 }
    }
}

impl Shiny {
    /// Where the sine and the cosine are to be taken, for every cell
    /// alike: at the direction of the sweep.
    pub open spec fn probe_at(self) -> Probe {
        Probe::curve(self.angle as i64, 0)
    }

    /// The middle of the band at time `now`, in thousandths of a cell
    /// along the sweep.
    pub open spec fn band_at(self, now: u64) -> int {
        let run = quot(self.speed * now, 1_000_000);
        (if run >= 0 {
            run % 200_000
        } else {
            -((-run) % 200_000)
        }) - self.width
    }

    /// How far along the sweep the cell at `p` lies, in thousandths of a
    /// cell.
    pub open spec fn place(p: GridPosition, sample: Sample) -> i64 {
        plus(
            mq(p.col * 1000, sample.cos as int, 1_000_000) as int,
            mq(p.row * 1000, sample.sin as int, 1_000_000) as int,
        )
    }

    /// What the band does to the cell at `p`.
    pub open spec fn delta_at(self, p: GridPosition, now: u64, sample: Sample) -> CellDelta {
        let half = quot(self.width as int, 2);
        let off = size(Shiny::place(p, sample) - self.band_at(now));
        if half <= 0 || off > half {
            CellDelta::none()
        } else {
            let boost = plus(
                1000,
                mq(
                    self.brightness as int,
                    1_000_000 - smooth(per(off as int, 1_000_000, half) as int),
                    1_000_000,
                ) as int,
            );
            CellDelta {
                recolor: Recolor::Brighten(
                    if boost < 0 {
                        0
                    } else if boost > u32::MAX {
                        u32::MAX
                    } else {
                        boost as u32
                    },
                ),
                ..CellDelta::none()
            }
        }
    }

    /// Where the sine and the cosine are to be taken.
    pub fn probe(&self) -> (r: Probe)
        ensures
            r == self.probe_at(),
    {
        Probe::at_angle(self.angle as i64)
    }

    fn band(&self, now: u64) -> (b: i64)
        ensures
            b == self.band_at(now),
    {
        assert(-0x8000_0000 * 0xffff_ffff_ffff_ffff <= self.speed * now <= 0x8000_0000
            * 0xffff_ffff_ffff_ffff) by (nonlinear_arith)
            requires
                -0x8000_0000 <= self.speed <= 0x7fff_ffff,
                0 <= now <= 0xffff_ffff_ffff_ffff,
        ;
        let run: i128 = (self.speed as i128) * (now as i128) / 1_000_000;
        let part: i128 = run % 200_000;
        (part - self.width as i128) as i64
    }

    /// What the band does to the cell at `p` at the time of `clock`.
    pub fn delta(&self, p: GridPosition, clock: Clock, sample: Sample) -> (d: CellDelta)
        ensures
            d == self.delta_at(p, clock.now, sample),
    {
        let half: i64 = (self.width / 2) as i64;
        let place: i64 = add_sat(
            mul_quot(p.col as i64 * 1000, sample.cos as i64, 1_000_000),
            mul_quot(p.row as i64 * 1000, sample.sin as i64, 1_000_000),
        );
        let gap: i128 = place as i128 - self.band(clock.now) as i128;
        let off: i64 = crate::units::saturate(
            if gap < 0 {
                -gap
            } else {
                gap
            },
        );
        if half <= 0 || off > half {
            return CellDelta::identity();
        }
        let falloff: i64 = 1_000_000 - smoothstep(mul_div(off, 1_000_000, half));
        let boost: i64 = add_sat(1000, mul_quot(self.brightness as i64, falloff, 1_000_000));
        let factor: u32 = if boost < 0 {
            0
        } else if boost > 0xffff_ffff {
            0xffff_ffff
        } else {
            boost as u32
        };
        CellDelta { recolor: Recolor::Brighten(factor), ..CellDelta::identity() }
    }
}

/// Runs one shiny for one tick: the glyph of every cell of the region
/// that lies under the band and has a sample is brightened.
pub fn shiny_system(
    clock: Clock,
    effect: &Shiny,
    region: &EffectRegion,
    grid: &mut TerminalGrid,
    samples: &Vec<Sample>,
)
    requires
        old(grid).wf(),
    ensures
        final(grid).wf(),
        final(grid)@ == effected(
            old(grid)@,
            Effect::Shiny(*effect),
            Scene::sampled(clock, *region, samples@),
        ),
{
    sweep(grid, &Effect::Shiny(*effect), clock, &no_layout(), region, samples);
}

} // verus!
