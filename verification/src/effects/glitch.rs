//! Glitch: whole rows jump sideways, in a pattern that changes a few times
//! a second.

use crate::grid::TerminalGrid;
use crate::units::quot;
use super::delta::CellDelta;
use super::engine::{Effect, effected, no_layout, Scene, sweep};
use super::hash::{hash_of, low32, simple_hash};
use super::region::EffectRegion;
use super::sample::Sample;
use super::timing::{Clock, slot_at, time_slot};
use vstd::prelude::*;

verus! {

/// A row displacement effect.
#[derive(Clone, Copy, Debug, PartialEq, Eq, Structural)]
pub struct Glitch {
    /// The largest displacement, in thousandths of a pixel.
    pub max_offset: i32,
    /// The share of rows that jump in a time slot, in thousandths.
    pub intensity: u32,
    /// How often the pattern changes, in thousandths of a time per second.
    pub frequency: u32,
    /// Whether the effect applies.
    pub active: bool,
}

impl Default for Glitch {
    fn default() -> (g: Glitch)
        ensures
            g == (Glitch { max_offset: 30_000, intensity: 300, frequency: 8_000, active: true }),
    {
        Glitch { max_offset: 30_000, intensity: 300, frequency: 8_000, active: true }
    }
}

/// A hash read as a number from -1.0 up to, not including, 1.0, in
/// thousandths.
pub open spec fn signed_unit(h: u32) -> int {
    h % 2000 - 1000
}

/// A hash read as a number from -1.0 up to 1.0, in thousandths.
pub fn signed_unit_of(h: u32) -> (u: i64)
    ensures
        u == signed_unit(h),
        -1000 <= u < 1000,
{
    (h % 2000) as i64 - 1000
}

impl Glitch {
    /// Whether `row` jumps in time slot `slot`.
    pub open spec fn hits(self, row: u16, slot: u32) -> bool {
        hash_of(row as u32, slot) % 1000 < self.intensity
    }

    /// How far `row` jumps in time slot `slot`, if it does.
    pub open spec fn jump(self, row: u16, slot: u32) -> int {
        quot(signed_unit(hash_of(row as u32, low32(slot + 7919))) * self.max_offset, 1000)
    }

    /// What the glitch does to a cell of `row` at time `now`.
    pub open spec fn delta_at(self, row: u16, now: u64) -> CellDelta {
        let slot = slot_at(now, self.frequency);
        if self.hits(row, slot) {
            CellDelta::shift(self.jump(row, slot) as i64, 0)
        } else {
            CellDelta::none()
        }
    }

    /// What the glitch does to a cell of `row` at the time of `clock`.
    pub fn delta(&self, row: u16, clock: Clock) -> (d: CellDelta)
        ensures
            d == self.delta_at(row, clock.now),
    {
        let slot: u32 = time_slot(clock.now, self.frequency);
        if simple_hash(row as u32, slot) % 1000 < self.intensity {
            let unit: i64 = signed_unit_of(simple_hash(row as u32, slot.wrapping_add(7919)));
            assert(-1000 * 0x8000_0000 <= unit * self.max_offset <= 1000 * 0x8000_0000)
                by (nonlinear_arith)
                requires
                    -1000 <= unit < 1000,
                    -0x8000_0000 <= self.max_offset <= 0x7fff_ffff,
            ;
            CellDelta::translate(unit * (self.max_offset as i64) / 1000, 0)
        } else {
            CellDelta::identity()
        }
    }
}

/// A jump is never larger than the largest displacement.
pub proof fn lemma_jump_bounded(g: Glitch, row: u16, slot: u32)
    ensures
        g.max_offset >= 0 ==> -g.max_offset <= g.jump(row, slot) <= g.max_offset,
        g.max_offset <= 0 ==> g.max_offset <= g.jump(row, slot) <= -g.max_offset,
{
    let u = signed_unit(hash_of(row as u32, low32(slot + 7919)));
    let m = g.max_offset as int;
    lemma_scaled_unit_bounded(u, m);
}

/// A number scaled by a factor between -1.0 and 1.0 is no larger in size
/// than the number.
pub proof fn lemma_scaled_unit_bounded(u: int, m: int)
    requires
        -1000 <= u <= 1000,
    ensures
        m >= 0 ==> -m <= quot(u * m, 1000) <= m,
        m <= 0 ==> m <= quot(u * m, 1000) <= -m,
{
    let a = if m >= 0 {
        m
    } else {
        -m
    };
    let p = u * m;
    assert(-1000 * a <= p <= 1000 * a) by (nonlinear_arith)
        requires
            -1000 <= u <= 1000,
            a >= 0,
            m == a || m == -a,
            p == u * m,
    ;
    if p >= 0 {
        vstd::arithmetic::div_mod::lemma_div_is_ordered(p, 1000 * a, 1000);
        vstd::arithmetic::div_mod::lemma_div_by_multiple(a, 1000);
        vstd::arithmetic::div_mod::lemma_div_pos_is_pos(p, 1000);
    } else {
        vstd::arithmetic::div_mod::lemma_div_is_ordered(-p, 1000 * a, 1000);
        vstd::arithmetic::div_mod::lemma_div_by_multiple(a, 1000);
        vstd::arithmetic::div_mod::lemma_div_pos_is_pos(-p, 1000);
    }
}

/// Runs one glitch for one tick: unless it is switched off, every cell of
/// the region whose row jumps in the current time slot moves sideways.
pub fn glitch_system(clock: Clock, effect: &Glitch, region: &EffectRegion, grid: &mut TerminalGrid)
    requires
        old(grid).wf(),
    ensures
        final(grid).wf(),
        final(grid)@ == effected(old(grid)@, Effect::Glitch(*effect), Scene::plain(clock, *region)),
{
    if effect.active {
        let samples: Vec<Sample> = Vec::new();
        sweep(grid, &Effect::Glitch(*effect), clock, &no_layout(), region, &samples);
    }
}

} // verus!
