//! Knock: a blunt blow jolts every cell the same way, sharply at first,
//! then easing back.
//!
//! With `p` the share of the duration that has passed, the strength of the
//! blow is `4 p e^(1 - 4 p)`: it peaks at 1.0 a quarter of the way in, so
//! the largest displacement of a cell is the amplitude. Each cell's
//! direction differs from the blow's by an angle drawn from the hash of
//! the cell, at most the deviation. The exponential, and the sine and
//! cosine of each cell's direction, are the host's.

use crate::TerminalLayout;
use crate::grid::{GridPosition, TerminalGrid};
use crate::units::{add_sat, clamp, mq, mul_div, mul_quot, neg_sat, per, plus};
use super::delta::{CellDelta, Recolor, Resize, Turn};
use super::engine::{Effect, effected, Scene, sweep};
use super::radial::{draw_lot, lot};
use super::region::EffectRegion;
use super::sample::{Probe, Sample};
use super::timing::{Clock, OneShot};
use vstd::prelude::*;

verus! {

/// A one-shot knock.
#[derive(Clone, Copy, Debug, PartialEq, Eq, Structural)]
pub struct Knock {
    /// The direction of the blow, in millionths of a radian.
    pub angle: i32,
    /// The largest displacement, in thousandths of a cell.
    pub amplitude: i32,
    /// How far a cell's direction may differ from the blow's, in
    /// millionths of a radian.
    pub deviation: i32,
    /// The turn of a cell at the peak, in millionths of a radian.
    pub rotation: i32,
    /// How long the knock has run, in microseconds.
    pub elapsed: u32,
    /// How long the knock runs, in microseconds.
    pub duration: u32,
    /// Running; not finished.
    pub active: bool,
}

impl Default for Knock {
    fn default() -> (k: Knock)
        ensures
            k == (Knock {
                angle: 0,
                amplitude: 12_000,
                deviation: 300_000,
                rotation: 100_000,
                elapsed: 0,
                duration: 600_000,
                active: true,
            }),
    {
        Knock {
            angle: 0,
            amplitude: 12_000,
            deviation: 300_000,
            rotation: 100_000,
            elapsed: 0,
            duration: 600_000,
            active: true,
        }
    }
}

impl Knock {
    /// The life of the knock.
    pub open spec fn timing(self) -> OneShot {
        OneShot { elapsed: self.elapsed, duration: self.duration, active: self.active }
    }

    /// The knock after a tick of `dt`.
    pub open spec fn after(self, dt: u32) -> Knock {
        let t = self.timing().after(dt);
        Knock { elapsed: t.elapsed, active: t.active, ..self }
    }

    /// The knock at its start.
    pub open spec fn restarted(self) -> Knock {
        Knock { elapsed: 0, active: true, ..self }
    }

    /// The share of the duration that has passed, in millionths.
    pub open spec fn progress(self) -> i64 {
        per(self.elapsed as int, 1_000_000, self.duration as int)
    }

    /// Where the curves are to be taken for the cell at `p`: the sine and
    /// the cosine at the cell's own direction, the exponential at `1 - 4
    /// p`.
    pub open spec fn probe_at(self, p: GridPosition) -> Probe {
        Probe {
            angle: plus(self.angle as int, mq(lot(p, 777) - 5000, self.deviation as int, 5000) as int),
            exponent: (1_000_000 - 4 * self.progress()) as i64,
            ..Probe::origin()
        }
    }

    /// The strength of the blow now, in millionths, given the exponential.
    pub open spec fn strength(self, sample: Sample) -> i64 {
        mq(4 * self.progress(), sample.exp as int, 1_000_000)
    }

    /// How far every cell is pushed now, in thousandths of a cell: the
    /// amplitude times the strength.
    pub open spec fn push(self, sample: Sample) -> i64 {
        mq(self.amplitude as int, self.strength(sample) as int, 1_000_000)
    }

    /// How far every cell is turned now, one way or the other: the
    /// rotation times the strength.
    pub open spec fn twist(self, sample: Sample) -> i64 {
        mq(self.rotation as int, self.strength(sample) as int, 1_000_000)
    }

    /// What the knock does to the cell at `p`: a push along the cell's
    /// direction, and a turn one way or the other by the hash of the cell.
    /// A knock without duration does nothing.
    pub open spec fn delta_at(self, p: GridPosition, layout: TerminalLayout, sample: Sample) -> CellDelta {
        if self.duration == 0 {
            CellDelta::none()
        } else {
            let push = self.push(sample);
            let twist = self.twist(sample);
            CellDelta {
                dx: mq(mq(sample.cos as int, push as int, 1_000_000) as int, layout.cell_width as int, 1000),
                dy: mq(
                    mq(sample.sin as int, push as int, 1_000_000) as int,
                    clamp(-layout.cell_height) as int,
                    1000,
                ),
                turn: Turn::By(
                    if lot(p, 777) > 5000 {
                        twist
                    } else {
                        clamp(-twist)
                    },
                ),
                resize: Resize::Keep,
                recolor: Recolor::Keep,
            }
        }
    }

    /// Advances the knock by one tick and returns whether it applies in
    /// this tick.
    pub fn tick(&mut self, dt: u32) -> (live: bool)
        ensures
            *final(self) == old(self).after(dt),
            live == final(self).active,
    {
        let mut t = OneShot { elapsed: self.elapsed, duration: self.duration, active: self.active };
        let live = t.tick(dt);
        self.elapsed = t.elapsed;
        self.active = t.active;
        live
    }

    /// Starts the knock over.
    pub fn retrigger(&mut self)
        ensures
            *final(self) == old(self).restarted(),
    {
        self.elapsed = 0;
        self.active = true;
    }

    fn progress_now(&self) -> (r: i64)
        ensures
            r == self.progress(),
            self.duration > 0 && self.elapsed <= self.duration ==> 0 <= r <= 1_000_000,
            0 <= r <= 0xffff_ffff * 1_000_000,
    {
        proof {
            if self.duration > 0 {
                let n = self.elapsed * 1_000_000;
                assert(0 <= n <= 0xffff_ffff * 1_000_000);
                vstd::arithmetic::div_mod::lemma_div_pos_is_pos(n, self.duration as int);
                vstd::arithmetic::div_mod::lemma_div_is_ordered_by_denominator(n, 1, self.duration as int);
                if self.elapsed <= self.duration {
                    vstd::arithmetic::div_mod::lemma_div_is_ordered(
                        n,
                        self.duration * 1_000_000,
                        self.duration as int,
                    );
                    vstd::arithmetic::div_mod::lemma_div_by_multiple(1_000_000, self.duration as int);
                    assert(self.duration * 1_000_000 == 1_000_000 * self.duration);
                }
            }
        }
        mul_div(self.elapsed as i64, 1_000_000, self.duration as i64)
    }

    /// Where the curves are to be taken for the cell at `p`.
    pub fn probe(&self, p: GridPosition) -> (r: Probe)
        ensures
            r == self.probe_at(p),
    {
        Probe {
            angle: add_sat(
                self.angle as i64,
                mul_quot(draw_lot(p, 777) - 5000, self.deviation as i64, 5000),
            ),
            exponent: 1_000_000 - 4 * self.progress_now(),
            ..Probe::zero()
        }
    }

    /// What the knock does to the cell at `p`, given its sample.
    pub fn delta(&self, p: GridPosition, layout: &TerminalLayout, sample: Sample) -> (d: CellDelta)
        ensures
            d == self.delta_at(p, *layout, sample),
    {
        if self.duration == 0 {
            return CellDelta::identity();
        }
        let strength: i64 = mul_quot(4 * self.progress_now(), sample.exp as i64, 1_000_000);
        let r1: i64 = draw_lot(p, 777);
        let push: i64 = mul_quot(self.amplitude as i64, strength, 1_000_000);
        let twist: i64 = mul_quot(self.rotation as i64, strength, 1_000_000);
        CellDelta {
            dx: mul_quot(mul_quot(sample.cos as i64, push, 1_000_000), layout.cell_width, 1000),
            dy: mul_quot(
                mul_quot(sample.sin as i64, push, 1_000_000),
                neg_sat(layout.cell_height),
                1000,
            ),
            turn: Turn::By(
                if r1 > 5000 {
                    twist
                } else {
                    neg_sat(twist)
                },
            ),
            resize: Resize::Keep,
            recolor: Recolor::Keep,
        }
    }
}

/// A quarter of the way into its duration a knock is at its peak: with
/// the exponential at 1, its strength is 1 and it pushes every cell by
/// exactly the amplitude.
pub proof fn lemma_knock_peak(k: Knock, sample: Sample)
    requires
        k.duration > 0,
        4 * k.elapsed == k.duration,
        sample.exp == 1_000_000,
    ensures
        k.progress() == 250_000,
        k.probe_at(GridPosition { col: 0, row: 0 }).exponent == 0,
        k.strength(sample) == 1_000_000,
        k.push(sample) == k.amplitude,
        k.twist(sample) == k.rotation,
{
    let e = k.elapsed as int;
    assert(e * 1_000_000 == 250_000 * (4 * e)) by (nonlinear_arith);
    vstd::arithmetic::div_mod::lemma_div_by_multiple(250_000, k.duration as int);
    crate::units::lemma_quot_bounds(k.amplitude as int, 1_000_000);
    crate::units::lemma_quot_bounds(k.rotation as int, 1_000_000);
}

/// The direction of a cell differs from the direction of the blow by no
/// more than the deviation, and depends on nothing but the knock's angle
/// and deviation and the cell's place.
pub proof fn lemma_knock_direction(k: Knock, p: GridPosition)
    ensures
        k.deviation >= 0 ==> -k.deviation <= k.probe_at(p).angle - k.angle <= k.deviation,
        k.deviation <= 0 ==> k.deviation <= k.probe_at(p).angle - k.angle <= -k.deviation,
{
    let u = lot(p, 777) - 5000;
    let d = k.deviation as int;
    let a = if d >= 0 {
        d
    } else {
        -d
    };
    let n = u * d;
    assert(-5000 * a <= n <= 5000 * a) by (nonlinear_arith)
        requires
            -5000 <= u <= 5000,
            a >= 0,
            d == a || d == -a,
            n == u * d,
    ;
    if n >= 0 {
        vstd::arithmetic::div_mod::lemma_div_is_ordered(n, 5000 * a, 5000);
        vstd::arithmetic::div_mod::lemma_div_by_multiple(a, 5000);
        vstd::arithmetic::div_mod::lemma_div_pos_is_pos(n, 5000);
    } else {
        vstd::arithmetic::div_mod::lemma_div_is_ordered(-n, 5000 * a, 5000);
        vstd::arithmetic::div_mod::lemma_div_by_multiple(a, 5000);
        vstd::arithmetic::div_mod::lemma_div_pos_is_pos(-n, 5000);
    }
}

/// Runs one knock for one tick: time passes for it and, unless it is
/// finished, every cell of the region that has a sample is jolted. The
/// samples are to be taken at the probes of the knock as it is after
/// this tick.
pub fn knock_system(
    clock: Clock,
    layout: &TerminalLayout,
    effect: &mut Knock,
    region: &EffectRegion,
    grid: &mut TerminalGrid,
    samples: &Vec<Sample>,
)
    requires
        old(grid).wf(),
    ensures
        final(grid).wf(),
        *final(effect) == old(effect).after(clock.delta),
        final(grid)@ == effected(
            old(grid)@,
            Effect::Knock(*final(effect)),
            Scene { clock, layout: *layout, region: *region, samples: samples@ },
        ),
{
    if effect.tick(clock.delta) {
        sweep(grid, &Effect::Knock(*effect), clock, layout, region, samples);
    }
}

} // verus!
