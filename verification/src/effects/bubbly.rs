//! Bubbly: a share of the cells swell and shrink, each at its own phase.
//!
//! Which cells take part, and at which phase, follows from the hash of
//! the cell. With `s` the sine of `2 pi (speed time + phase)`, the scale
//! of a cell that takes part is multiplied by
//! `1 + (max_scale - 1) (s + 1) / 2`.

use crate::grid::{GridPosition, TerminalGrid};
use crate::units::quot;
use super::delta::{CellDelta, Resize};
use super::engine::{Effect, effected, no_layout, Scene, sweep};
use super::hash::{hash_of, simple_hash};
use super::region::EffectRegion;
use super::sample::{angle_of, phase_at, phase_of, Probe, Sample, turns_to_angle};
use super::timing::Clock;
use vstd::prelude::*;

verus! {

/// A scattered swelling effect.
#[derive(Clone, Copy, Debug, PartialEq, Eq, Structural)]
pub struct Bubbly {
    /// Swells per second, in thousandths.
    pub speed: i32,
    /// The share of the cells that take part, in thousandths.
    pub density: u32,
    /// The scale at the top of a swell, in thousandths.
    pub max_scale: i32,
}

impl Default for Bubbly {
    fn default() -> (b: Bubbly)
        ensures
            b == (Bubbly { speed: 800, density: 150, max_scale: 1_400 }),
    {
        Bubbly { speed: 800, density: 150, max_scale: 1_400 }
    }
}

impl Bubbly {
    /// Whether the cell at `p` takes part.
    pub open spec fn picks(self, p: GridPosition) -> bool {
        hash_of(p.col as u32, p.row as u32) % 1000 < self.density
    }

    /// The phase of the cell at `p`, in ten-thousandths of a turn.
    pub open spec fn own_phase(p: GridPosition) -> int {
        (hash_of(p.col as u32, p.row as u32) % 10000) as int
    }

    /// Where the sine is to be taken for the cell at `p`.
    pub open spec fn probe_at(self, p: GridPosition, now: u64) -> Probe {
        Probe {
            angle: angle_of(phase_at(now, self.speed) + 100 * Bubbly::own_phase(p)) as i64,
            exponent: 0,
            ..Probe::origin()
        }
    }

    /// The scale factor, in thousandths, where the sine is `sine`
    /// millionths: 1.0 at the bottom of the swell and `max_scale` at its
    /// top.
    pub open spec fn scale_at(self, sine: i32) -> int {
        1000 + quot((self.max_scale - 1000) * (sine + 1_000_000), 2_000_000)
    }

    /// What the effect does to the cell at `p`: nothing if the cell does
    /// not take part, else a resize by its place in the swell.
    pub open spec fn delta_at(self, p: GridPosition, sample: Sample) -> CellDelta {
        if self.picks(p) {
            CellDelta { resize: Resize::By(self.scale_at(sample.sin) as i64), ..CellDelta::none() }
        } else {
            CellDelta::none()
        }
    }

    /// Where the sine is to be taken for the cell at `p`.
    pub fn probe(&self, p: GridPosition, clock: Clock) -> (r: Probe)
        ensures
            r == self.probe_at(p, clock.now),
    {
        let h: u32 = simple_hash(p.col as u32, p.row as u32);
        let turns: i64 = phase_of(clock.now, self.speed) + 100 * ((h % 10000) as i64);
        Probe::at_angle(turns_to_angle(turns as i128))
    }

    /// What the effect does to the cell at `p` whose sine is `sample.sin`.
    pub fn delta(&self, p: GridPosition, sample: Sample) -> (d: CellDelta)
        ensures
            d == self.delta_at(p, sample),
    {
        let h: u32 = simple_hash(p.col as u32, p.row as u32);
        if h % 1000 < self.density {
            let span: i64 = self.max_scale as i64 - 1000;
            let lift: i64 = sample.sin as i64 + 1_000_000;
            assert(-0x8000_03e8 * 0x800f_4240 <= span * lift <= 0x8000_03e8 * 0x800f_4240)
                by (nonlinear_arith)
                requires
                    -0x8000_03e8 <= span <= 0x8000_03e8,
                    -0x800f_4240 <= lift <= 0x800f_4240,
            ;
            CellDelta { resize: Resize::By(1000 + span * lift / 2_000_000), ..CellDelta::identity() }
        } else {
            CellDelta::identity()
        }
    }
}

/// Runs one bubbly for one tick: every cell of the region that takes
/// part and has a sample swells by its place in the swell.
pub fn bubbly_system(
    clock: Clock,
    effect: &Bubbly,
    region: &EffectRegion,
    grid: &mut TerminalGrid,
    samples: &Vec<Sample>,
)
    requires
        old(grid).wf(),
    ensures
        final(grid).wf(),
        final(grid)@ == effected(
            old(grid)@,
            Effect::Bubbly(*effect),
            Scene::sampled(clock, *region, samples@),
        ),
{
    sweep(grid, &Effect::Bubbly(*effect), clock, &no_layout(), region, samples);
}

} // verus!
