//! Jitter: every cell trembles by its own small offset, in a pattern that
//! changes many times a second.

use crate::grid::{GridPosition, TerminalGrid};
use crate::units::quot;
use super::delta::{CellDelta, Recolor, Resize, Turn};
use super::engine::{Effect, effected, no_layout, Scene, sweep};
use super::glitch::{signed_unit, signed_unit_of};
use super::hash::{hash_of, low32, simple_hash};
use super::region::EffectRegion;
use super::sample::Sample;
use super::timing::{Clock, slot_at, time_slot};
use vstd::prelude::*;

verus! {

/// A per-cell vibration effect.
#[derive(Clone, Copy, Debug, PartialEq, Eq, Structural)]
pub struct Jitter {
    /// The largest displacement each way, in thousandths of a pixel.
    pub amplitude: i32,
    /// How often the pattern changes, in thousandths of a time per second.
    pub speed: u32,
    /// Whether cells are turned as well.
    pub rotate: bool,
    /// The largest turn, in millionths of a radian.
    pub max_rotation: i32,
}

impl Default for Jitter {
    fn default() -> (j: Jitter)
        ensures
            j == (Jitter { amplitude: 3_000, speed: 20_000, rotate: true, max_rotation: 50_000 }),
    {
        Jitter { amplitude: 3_000, speed: 20_000, rotate: true, max_rotation: 50_000 }
    }
}

/// The number that stands for a cell in the hash: a thousand times its
/// row, plus its column.
pub open spec fn cell_id(p: GridPosition) -> u32 {
    (p.row * 1000 + p.col) as u32
}

/// `size` scaled by the hash of a cell in a time slot, read as a number
/// from -1.0 up to 1.0.
pub open spec fn tremble(p: GridPosition, slot: u32, size: i32) -> int {
    quot(signed_unit(hash_of(cell_id(p), slot)) * size, 1000)
}

fn tremble_of(p: GridPosition, slot: u32, size: i32) -> (t: i64)
    ensures
        t == tremble(p, slot, size),
{
    let id: u32 = p.row as u32 * 1000 + p.col as u32;
    let unit: i64 = signed_unit_of(simple_hash(id, slot));
    assert(-1000 * 0x8000_0000 <= unit * size <= 1000 * 0x8000_0000) by (nonlinear_arith)
        requires
            -1000 <= unit < 1000,
            -0x8000_0000 <= size <= 0x7fff_ffff,
    ;
    unit * (size as i64) / 1000
}

impl Jitter {
    /// What the jitter does to the cell at `p` at time `now`: an offset
    /// each way from the hash of the cell in the time slot and, when
    /// turning is on, a turn on top of the rotation there is.
    pub open spec fn delta_at(self, p: GridPosition, now: u64) -> CellDelta {
        let slot = slot_at(now, self.speed);
        CellDelta {
            dx: tremble(p, slot, self.amplitude) as i64,
            dy: tremble(p, low32(slot + 3571), self.amplitude) as i64,
            turn: if self.rotate {
                Turn::By(tremble(p, low32(slot + 6947), self.max_rotation) as i64)
            } else {
                Turn::Keep
            },
            resize: Resize::Keep,
            recolor: Recolor::Keep,
        }
    }

    /// What the jitter does to the cell at `p` at the time of `clock`.
    pub fn delta(&self, p: GridPosition, clock: Clock) -> (d: CellDelta)
        ensures
            d == self.delta_at(p, clock.now),
    {
        let slot: u32 = time_slot(clock.now, self.speed);
        CellDelta {
            dx: tremble_of(p, slot, self.amplitude),
            dy: tremble_of(p, slot.wrapping_add(3571), self.amplitude),
            turn: if self.rotate {
                Turn::By(tremble_of(p, slot.wrapping_add(6947), self.max_rotation))
            } else {
                Turn::Keep
            },
            resize: Resize::Keep,
            recolor: Recolor::Keep,
        }
    }
}

/// Runs one jitter for one tick: every cell of the region trembles.
pub fn jitter_system(clock: Clock, effect: &Jitter, region: &EffectRegion, grid: &mut TerminalGrid)
    requires
        old(grid).wf(),
    ensures
        final(grid).wf(),
        final(grid)@ == effected(old(grid)@, Effect::Jitter(*effect), Scene::plain(clock, *region)),
{
    let samples: Vec<Sample> = Vec::new();
    sweep(grid, &Effect::Jitter(*effect), clock, &no_layout(), region, &samples);
}

} // verus!
