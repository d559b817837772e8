//! Gravity: cells gain velocity under a steady acceleration and move by
//! it.

use crate::grid::{CellVelocity, TerminalCell, TerminalGrid};
use crate::units::{clamp, quot, saturate, Vec2, wide_mul};
use super::delta::CellDelta;
use super::engine::{Effect, effected, no_layout, Scene, sweep};
use super::region::EffectRegion;
use super::sample::Sample;
use super::timing::Clock;
use vstd::prelude::*;

verus! {

/// A steady acceleration.
#[derive(Clone, Copy, Debug, PartialEq, Eq, Structural)]
pub struct Gravity {
    /// Acceleration, in thousandths of a pixel per second squared.
    pub acceleration: Vec2,
    /// The share of the velocity that is lost per second, in thousandths;
    /// 0 turns damping off.
    pub damping: u32,
    /// The share of the velocity that a tick keeps when damping is on, in
    /// millionths: what is left of one after `damping` acted for the
    /// length of the tick. The host sets it before each tick.
    pub retain: u32,
    /// Whether the effect applies.
    pub active: bool,
}

impl Default for Gravity {
    fn default() -> (g: Gravity)
        ensures
            g == (Gravity {
                acceleration: Vec2 { x: 0, y: -200_000i64 },
                damping: 0,
                retain: 1_000_000,
                active: true,
            }),
    {
        Gravity {
            acceleration: Vec2 { x: 0, y: -200_000 },
            damping: 0,
            retain: 1_000_000,
            active: true,
        }
    }
}

/// A rate acting for `dt` microseconds.
pub open spec fn over(rate: i64, dt: u32) -> i64 {
    clamp(quot(rate * dt, 1_000_000))
}

fn over_of(rate: i64, dt: u32) -> (r: i64)
    ensures
        r == over(rate, dt),
{
    let p: i128 = wide_mul(rate, dt as i64);
    saturate(p / 1_000_000)
}

impl Gravity {
    /// One axis of the velocity after a tick: the acceleration is added,
    /// then damping, if it is on, takes its share.
    pub open spec fn sped(self, v: i64, a: i64, dt: u32) -> i64 {
        let faster = clamp(v + over(a, dt));
        if self.damping > 0 {
            clamp(quot(faster * self.retain, 1_000_000))
        } else {
            faster
        }
    }

    /// The velocity of a cell after a tick.
    pub open spec fn velocity_after(self, v: Vec2, dt: u32) -> Vec2 {
        Vec2 { x: self.sped(v.x, self.acceleration.x, dt), y: self.sped(v.y, self.acceleration.y, dt) }
    }

    /// What gravity does to a cell in a tick: the cell takes its new
    /// velocity and moves by it for the length of the tick.
    pub open spec fn affected(self, cell: TerminalCell, dt: u32) -> TerminalCell {
        let v = self.velocity_after(cell.velocity.velocity, dt);
        CellDelta::shift(over(v.x, dt), over(v.y, dt)).applied(
            TerminalCell { velocity: CellVelocity { velocity: v }, ..cell },
        )
    }

    fn speed_up(&self, v: i64, a: i64, dt: u32) -> (r: i64)
        ensures
            r == self.sped(v, a, dt),
    {
        let faster: i64 = crate::units::add_sat(v, over_of(a, dt));
        if self.damping > 0 {
            crate::units::mul_quot(faster, self.retain as i64, 1_000_000)
        } else {
            faster
        }
    }

    /// What gravity does to a cell in a tick of `dt`.
    pub fn affect(&self, cell: TerminalCell, dt: u32) -> (r: TerminalCell)
        ensures
            r == self.affected(cell, dt),
    {
        let v = Vec2 {
            x: self.speed_up(cell.velocity.velocity.x, self.acceleration.x, dt),
            y: self.speed_up(cell.velocity.velocity.y, self.acceleration.y, dt),
        };
        let moved = TerminalCell { velocity: CellVelocity { velocity: v }, ..cell };
        CellDelta::translate(over_of(v.x, dt), over_of(v.y, dt)).apply(moved)
    }
}

/// Runs one gravity for one tick: unless it is switched off, every cell
/// of the region takes its new velocity and moves by it.
pub fn gravity_system(clock: Clock, effect: &Gravity, region: &EffectRegion, grid: &mut TerminalGrid)
    requires
        old(grid).wf(),
    ensures
        final(grid).wf(),
        final(grid)@ == effected(old(grid)@, Effect::Gravity(*effect), Scene::plain(clock, *region)),
{
    if effect.active {
        let samples: Vec<Sample> = Vec::new();
        sweep(grid, &Effect::Gravity(*effect), clock, &no_layout(), region, &samples);
    }
}

} // verus!
