//! Slash: a blade cuts across the region along a line and the cells part
//! to both sides of the cut, then close again.
//!
//! In the first half of the duration the blade runs along the line from
//! one end of the region to the other; in the second half the cut eases
//! shut. A cell that the blade has passed is pushed away from the line,
//! most at the line and at the middle of the cut, and a little less right
//! behind the blade. The sine and the cosine of the line's direction are
//! the host's.

use crate::TerminalLayout;
use crate::grid::{GridPosition, TerminalGrid};
use crate::units::{
    abs_sat, add_sat, clamp, minus, mq, mul_div, mul_quot, neg_sat, per, plus, quot, size,
    sub_sat,
};
use super::delta::{CellDelta, Recolor, Resize, Turn};
use super::engine::{Effect, effected, Scene, sweep};
use super::region::EffectRegion;
use super::sample::{Probe, Sample, smooth, smoothstep};
use super::timing::{Clock, OneShot};
use vstd::prelude::*;

verus! {

/// A one-shot slash.
#[derive(Clone, Copy, Debug, PartialEq, Eq, Structural)]
pub struct Slash {
    /// How long the slash has run, in microseconds.
    pub elapsed: u32,
    /// How long the slash runs, in microseconds.
    pub duration: u32,
    /// The largest displacement, in thousandths of a cell.
    pub amplitude: i32,
    /// The width of the band of cells that part, in thousandths of a cell.
    pub width: i32,
    /// The direction of the cut, in millionths of a radian: 0 cuts along
    /// the rows.
    pub angle: i32,
    /// Running; not finished.
    pub active: bool,
}

impl Default for Slash {
    fn default() -> (s: Slash)
        ensures
            s == (Slash {
                elapsed: 0,
                duration: 500_000,
                amplitude: 8_000,
                width: 4_000,
                angle: 785_398,
                active: true,
            }),
    {
        Slash { elapsed: 0, duration: 500_000, amplitude: 8_000, width: 4_000, angle: 785_398, active: true }
    }
}

/// The line of a cut, in thousandths of a cell: the middle of the region
/// along and across the cut, and half the region's extent along it.
#[derive(Clone, Copy, Debug, PartialEq, Eq, Structural)]
pub struct CutLine {
    pub along: i64,
    pub across: i64,
    pub half: i64,
}

/// How far the point `(x, y)` lies along the direction whose cosine and
/// sine are `c` and `s`.
pub open spec fn project(x: int, y: int, c: int, s: int) -> i64 {
    plus(mq(x, c, 1_000_000) as int, mq(y, s, 1_000_000) as int)
}

fn project_onto(x: i64, y: i64, c: i64, s: i64) -> (r: i64)
    ensures
        r == project(x as int, y as int, c as int, s as int),
{
    add_sat(mul_quot(x, c, 1_000_000), mul_quot(y, s, 1_000_000))
}

/// The line of the cut through a region: through the middle of the
/// region's first rectangle, or through a stock middle when the region
/// names none.
pub open spec fn cut_line(region: EffectRegion, sample: Sample) -> CutLine {
    let c = sample.cos as int;
    let s = sample.sin as int;
    if region.included@.len() > 0 {
        let r = region.included@[0];
        let cx = r.col * 1000 + r.width * 500;
        let cy = r.row * 1000 + r.height * 500;
        CutLine {
            along: project(cx, cy, c, s),
            across: project(cx, cy, -s, c),
            half: plus(
                size(mq(r.width * 500, c, 1_000_000) as int) as int,
                size(mq(r.height * 500, s, 1_000_000) as int) as int,
            ),
        }
    } else {
        CutLine { along: project(75_000, 25_000, c, s), across: project(75_000, 25_000, -s, c), half: 50_000 }
    }
}

fn cut_line_of(region: &EffectRegion, sample: Sample) -> (l: CutLine)
    ensures
        l == cut_line(*region, sample),
{
    let c: i64 = sample.cos as i64;
    let s: i64 = sample.sin as i64;
    if region.included.len() > 0 {
        let r = region.included[0];
        let cx: i64 = r.col as i64 * 1000 + r.width as i64 * 500;
        let cy: i64 = r.row as i64 * 1000 + r.height as i64 * 500;
        CutLine {
            along: project_onto(cx, cy, c, s),
            across: project_onto(cx, cy, -s, c),
            half: add_sat(
                abs_sat(mul_quot(r.width as i64 * 500, c, 1_000_000)),
                abs_sat(mul_quot(r.height as i64 * 500, s, 1_000_000)),
            ),
        }
    } else {
        CutLine {
            along: project_onto(75_000, 25_000, c, s),
            across: project_onto(75_000, 25_000, -s, c),
            half: 50_000,
        }
    }
}

impl Slash {
    /// The life of the slash.
    pub open spec fn timing(self) -> OneShot {
        OneShot { elapsed: self.elapsed, duration: self.duration, active: self.active }
    }

    /// The slash after a tick of `dt`.
    pub open spec fn after(self, dt: u32) -> Slash {
        let t = self.timing().after(dt);
        Slash { elapsed: t.elapsed, active: t.active, ..self }
    }

    /// The slash at its start.
    pub open spec fn restarted(self) -> Slash {
        Slash { elapsed: 0, active: true, ..self }
    }

    /// Where the sine and the cosine are to be taken, for every cell
    /// alike: at the direction of the cut.
    pub open spec fn probe_at(self) -> Probe {
        Probe::curve(self.angle as i64, 0)
    }

    /// The share of the duration that has passed, in millionths.
    pub open spec fn progress(self) -> i64 {
        per(self.elapsed as int, 1_000_000, self.duration as int)
    }

    /// How far the blade has come along the cut, in millionths: from 0 to
    /// 1 in the first half of the duration, 1 after that.
    pub open spec fn cut(self) -> i64 {
        if self.progress() < 500_000 {
            (2 * self.progress()) as i64
        } else {
            1_000_000
        }
    }

    /// How far the cut still stands open, in millionths: 1 in the first
    /// half of the duration, then falling to 0, slowly at first.
    pub open spec fn open_share(self) -> i64 {
        if self.progress() > 500_000 {
            let t = plus(2 * self.progress(), -1_000_000);
            if mq(t as int, t as int, 1_000_000) > 1_000_000 {
                0
            } else {
                (1_000_000 - mq(t as int, t as int, 1_000_000)) as i64
            }
        } else {
            1_000_000
        }
    }

    /// The place of the blade along the cut, in thousandths of a cell.
    pub open spec fn blade(self, line: CutLine) -> i64 {
        plus(
            minus(line.along as int, line.half as int) as int,
            mq(self.cut() as int, plus(line.half as int, line.half as int) as int, 1_000_000) as int,
        )
    }

    /// How strongly the cell at `p` is pushed, in millionths, or `None`
    /// when the cell lies outside the band or ahead of the blade.
    pub open spec fn strength(self, p: GridPosition, line: CutLine, sample: Sample) -> Option<i64> {
        let c = sample.cos as int;
        let s = sample.sin as int;
        let along = project(p.col * 1000, p.row * 1000, c, s);
        let across = project(p.col * 1000, p.row * 1000, -s, c);
        let half_width = quot(self.width as int, 2);
        let off = size(across - line.across);
        let blade = self.blade(line);
        if off >= half_width || along > blade {
            None
        } else {
            let near = smooth(1_000_000 - per(off as int, 1_000_000, half_width));
            let from_middle = size(along - line.along);
            let span = if line.half < 1000 {
                1000
            } else {
                line.half as int
            };
            let middle = if per(from_middle as int, 1_000_000, span) > 1_000_000 {
                0
            } else {
                1_000_000 - per(from_middle as int, 1_000_000, span)
            };
            let behind = if per(minus(blade as int, along as int) as int, 1_000_000, 2000) > 1_000_000 {
                1_000_000
            } else {
                per(minus(blade as int, along as int) as int, 1_000_000, 2000) as int
            };
            Some(
                mq(
                    mq(mq(near, middle, 1_000_000) as int, behind, 1_000_000) as int,
                    self.open_share() as int,
                    1_000_000,
                ),
            )
        }
    }

    /// What the slash does to the cell at `p`: a push across the cut, away
    /// from the line, with a slight turn and swell that follow it. A
    /// slash without duration does nothing.
    pub open spec fn delta_at(
        self,
        p: GridPosition,
        region: EffectRegion,
        layout: TerminalLayout,
        sample: Sample,
    ) -> CellDelta {
        let line = cut_line(region, sample);
        if self.duration == 0 {
            CellDelta::none()
        } else {
            match self.strength(p, line, sample) {
                None => CellDelta::none(),
                Some(strength) => {
                    let across = project(p.col * 1000, p.row * 1000, -sample.sin, sample.cos as int);
                    let side: int = if across >= line.across {
                        1
                    } else {
                        -1
                    };
                    let push = side * mq(self.amplitude as int, strength as int, 1_000_000);
                    CellDelta {
                        dx: mq(mq(-sample.sin, push, 1_000_000) as int, layout.cell_width as int, 1000),
                        dy: mq(
                            mq(sample.cos as int, push, 1_000_000) as int,
                            clamp(-layout.cell_height) as int,
                            1000,
                        ),
                        turn: Turn::By((side * mq(80_000, strength as int, 1_000_000)) as i64),
                        resize: Resize::By((1000 + mq(100, strength as int, 1_000_000)) as i64),
                        recolor: Recolor::Keep,
                    }
                },
            }
        }
    }

    /// Advances the slash by one tick and returns whether it applies in
    /// this tick.
    pub fn tick(&mut self, dt: u32) -> (live: bool)
        ensures
            *final(self) == old(self).after(dt),
            live == final(self).active,
    {
        let mut t = OneShot { elapsed: self.elapsed, duration: self.duration, active: self.active };
        let live = t.tick(dt);
        self.elapsed = t.elapsed;
        self.active = t.active;
        live
    }

    /// Starts the slash over.
    pub fn retrigger(&mut self)
        ensures
            *final(self) == old(self).restarted(),
    {
        self.elapsed = 0;
        self.active = true;
    }

    /// Where the sine and the cosine are to be taken.
    pub fn probe(&self) -> (r: Probe)
        ensures
            r == self.probe_at(),
    {
        Probe::at_angle(self.angle as i64)
    }

    fn blade_at(&self, line: CutLine) -> (b: i64)
        ensures
            b == self.blade(line),
    {
        let progress: i64 = mul_div(self.elapsed as i64, 1_000_000, self.duration as i64);
        let cut: i64 = if progress < 500_000 {
            proof {
                if self.duration > 0 {
                    vstd::arithmetic::div_mod::lemma_div_pos_is_pos(
                        self.elapsed * 1_000_000,
                        self.duration as int,
                    );
                }
            }
            2 * progress
        } else {
            1_000_000
        };
        add_sat(sub_sat(line.along, line.half), mul_quot(cut, add_sat(line.half, line.half), 1_000_000))
    }

    fn open_now(&self) -> (o: i64)
        ensures
            o == self.open_share(),
            0 <= o <= 1_000_000,
    {
        let progress: i64 = mul_div(self.elapsed as i64, 1_000_000, self.duration as i64);
        if progress > 500_000 {
            let t: i64 = add_sat(crate::units::saturate(2 * (progress as i128)), -1_000_000);
            let sq: i64 = mul_quot(t, t, 1_000_000);
            proof {
                assert(t * t >= 0) by (nonlinear_arith);
                vstd::arithmetic::div_mod::lemma_div_pos_is_pos(t * t, 1_000_000);
            }
            if sq > 1_000_000 {
                0
            } else {
                1_000_000 - sq
            }
        } else {
            1_000_000
        }
    }

    fn strength_of(&self, p: GridPosition, line: CutLine, sample: Sample) -> (r: Option<i64>)
        ensures
            r == self.strength(p, line, sample),
            r matches Some(v) ==> 0 <= v <= 1_000_000,
    {
        let c: i64 = sample.cos as i64;
        let s: i64 = sample.sin as i64;
        let along: i64 = project_onto(p.col as i64 * 1000, p.row as i64 * 1000, c, s);
        let across: i64 = project_onto(p.col as i64 * 1000, p.row as i64 * 1000, -s, c);
        let half_width: i64 = (self.width / 2) as i64;
        let off: i64 = wide_gap(across, line.across);
        let blade: i64 = self.blade_at(line);
        if off >= half_width || along > blade {
            return None;
        }
        let near: i64 = smoothstep(1_000_000 - mul_div(off, 1_000_000, half_width));
        let from_middle: i64 = wide_gap(along, line.along);
        let span: i64 = if line.half < 1000 {
            1000
        } else {
            line.half
        };
        let ratio: i64 = mul_div(from_middle, 1_000_000, span);
        let middle: i64 = if ratio > 1_000_000 {
            0
        } else {
            1_000_000 - ratio
        };
        let lag: i64 = mul_div(sub_sat(blade, along), 1_000_000, 2000);
        let behind: i64 = if lag > 1_000_000 {
            1_000_000
        } else {
            lag
        };
        let open: i64 = self.open_now();
        proof {
            lemma_share(off as int, half_width as int);
            lemma_share(from_middle as int, span as int);
            assert(lag >= 0) by {
                crate::units::lemma_quot_bounds((blade - along) * 1_000_000, 2000);
            }
            lemma_product_of_shares(near as int, middle as int);
            lemma_product_of_shares(mq(near as int, middle as int, 1_000_000) as int, behind as int);
            lemma_product_of_shares(
                mq(mq(near as int, middle as int, 1_000_000) as int, behind as int, 1_000_000) as int,
                open as int,
            );
        }
        Some(mul_quot(mul_quot(mul_quot(near, middle, 1_000_000), behind, 1_000_000), open, 1_000_000))
    }

    /// What the slash does to the cell at `p`, given the sample of the cut.
    pub fn delta(
        &self,
        p: GridPosition,
        region: &EffectRegion,
        layout: &TerminalLayout,
        sample: Sample,
    ) -> (d: CellDelta)
        ensures
            d == self.delta_at(p, *region, *layout, sample),
    {
        if self.duration == 0 {
            return CellDelta::identity();
        }
        let line = cut_line_of(region, sample);
        match self.strength_of(p, line, sample) {
            None => CellDelta::identity(),
            Some(strength) => {
                let c: i64 = sample.cos as i64;
                let s: i64 = sample.sin as i64;
                let across: i64 = project_onto(p.col as i64 * 1000, p.row as i64 * 1000, -s, c);
                let side: i64 = if across >= line.across {
                    1
                } else {
                    -1
                };
                proof {
                    lemma_scaled(self.amplitude as int, strength as int);
                    lemma_scaled(80_000, strength as int);
                    lemma_scaled(100, strength as int);
                }
                let push: i64 = side * mul_quot(self.amplitude as i64, strength, 1_000_000);
                CellDelta {
                    dx: mul_quot(mul_quot(-s, push, 1_000_000), layout.cell_width, 1000),
                    dy: mul_quot(mul_quot(c, push, 1_000_000), neg_sat(layout.cell_height), 1000),
                    turn: Turn::By(side * mul_quot(80_000, strength, 1_000_000)),
                    resize: Resize::By(1000 + mul_quot(100, strength, 1_000_000)),
                    recolor: Recolor::Keep,
                }
            },
        }
    }
}

/// The distance between two numbers, saturated.
fn wide_gap(a: i64, b: i64) -> (g: i64)
    ensures
        g == size(a - b),
        g >= 0,
{
    let d: i128 = a as i128 - b as i128;
    crate::units::saturate(
        if d < 0 {
            -d
        } else {
            d
        },
    )
}

/// A part of a whole, as a share in millionths, lies between 0 and 1.
proof fn lemma_share(part: int, whole: int)
    requires
        0 <= part,
        0 < whole,
    ensures
        0 <= per(part, 1_000_000, whole),
        part < whole ==> per(part, 1_000_000, whole) <= 1_000_000,
{
    let n = part * 1_000_000;
    vstd::arithmetic::div_mod::lemma_div_pos_is_pos(n, whole);
    if part < whole {
        assert(n <= whole * 1_000_000);
        vstd::arithmetic::div_mod::lemma_div_is_ordered(n, whole * 1_000_000, whole);
        vstd::arithmetic::div_mod::lemma_div_by_multiple(1_000_000, whole);
        assert(whole * 1_000_000 == 1_000_000 * whole);
    }
}

/// The product of two shares is a share.
proof fn lemma_product_of_shares(a: int, b: int)
    requires
        0 <= a <= 1_000_000,
        0 <= b <= 1_000_000,
    ensures
        0 <= mq(a, b, 1_000_000) <= 1_000_000,
{
    assert(0 <= a * b <= 1_000_000 * 1_000_000) by (nonlinear_arith)
        requires
            0 <= a <= 1_000_000,
            0 <= b <= 1_000_000,
    ;
}

/// A number scaled by a share is no larger in size than the number.
proof fn lemma_scaled(v: int, share: int)
    requires
        0 <= share <= 1_000_000,
        -0x8000_0000 <= v <= 0x7fff_ffff,
    ensures
        -0x8000_0000 <= mq(v, share, 1_000_000) <= 0x7fff_ffff,
{
    if v >= 0 {
        assert(0 <= v * share <= v * 1_000_000) by (nonlinear_arith)
            requires
                0 <= v,
                0 <= share <= 1_000_000,
        ;
        vstd::arithmetic::div_mod::lemma_div_is_ordered(v * share, v * 1_000_000, 1_000_000);
        vstd::arithmetic::div_mod::lemma_div_by_multiple(v, 1_000_000);
        vstd::arithmetic::div_mod::lemma_div_pos_is_pos(v * share, 1_000_000);
    } else {
        assert(0 <= (-v) * share <= (-v) * 1_000_000 && -(v * share) == (-v) * share)
            by (nonlinear_arith)
            requires
                v < 0,
                0 <= share <= 1_000_000,
        ;
        vstd::arithmetic::div_mod::lemma_div_is_ordered((-v) * share, (-v) * 1_000_000, 1_000_000);
        vstd::arithmetic::div_mod::lemma_div_by_multiple(-v, 1_000_000);
        vstd::arithmetic::div_mod::lemma_div_pos_is_pos((-v) * share, 1_000_000);
    }
}

/// Runs one slash for one tick: time passes for it and, unless it is
/// finished, the cells of the region that the blade has passed part from
/// the cut.
pub fn slash_system(
    clock: Clock,
    layout: &TerminalLayout,
    effect: &mut Slash,
    region: &EffectRegion,
    grid: &mut TerminalGrid,
    samples: &Vec<Sample>,
)
    requires
        old(grid).wf(),
    ensures
        final(grid).wf(),
        *final(effect) == old(effect).after(clock.delta),
        final(grid)@ == effected(
            old(grid)@,
            Effect::Slash(*final(effect)),
            Scene { clock, layout: *layout, region: *region, samples: samples@ },
        ),
{
    if effect.tick(clock.delta) {
        sweep(grid, &Effect::Slash(*effect), clock, layout, region, samples);
    }
}

} // verus!
