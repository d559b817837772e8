//! What one effect does to one cell in one tick, and how that composes.
//!
//! An effect never writes a pose or a color directly. It states a delta:
//! an offset to add, a turn to add, a factor to multiply the scale by, and
//! a recoloring of the glyph. Applying the deltas of the active effects one
//! after the other to the cell at rest gives the cell of this tick, so the
//! order in which effects were added can be seen in the result. The
//! effects of the core only add and multiply; a delta that the host hands
//! in may also impose a rotation or a scale.

use crate::color::{CHANNEL_ONE, Rgba};
use crate::grid::{ForegroundSprite, TerminalCell, Transform};
use crate::units::{add_sat, clamp, mul_quot, quot, Vec3};
use vstd::prelude::*;

verus! {

/// What happens to the rotation.
#[derive(Clone, Copy, Debug, PartialEq, Eq, Structural)]
pub enum Turn {
    /// Nothing.
    Keep,
    /// The angle is added to the rotation there is.
    By(i64),
    /// The rotation becomes the angle, whatever it was.
    To(i64),
}

/// What happens to the scale.
#[derive(Clone, Copy, Debug, PartialEq, Eq, Structural)]
pub enum Resize {
    /// Nothing.
    Keep,
    /// Every axis is multiplied by the factor, in thousandths.
    By(i64),
    /// Every axis becomes the scale, in thousandths, whatever it was.
    To(i64),
}

/// What happens to the color of the glyph.
#[derive(Clone, Copy, Debug, PartialEq, Eq, Structural)]
pub enum Recolor {
    /// Nothing.
    Keep,
    /// Red, green and blue are replaced; alpha stays.
    Rgb(u16, u16, u16),
    /// Red, green and blue are multiplied by the factor, in thousandths,
    /// and capped at 1.0; alpha stays.
    Brighten(u32),
    /// Alpha is multiplied by the factor, in thousandths, and kept between
    /// 0.0 and 1.0; a negative factor gives 0.0.
    Fade(i64),
    /// Red, green and blue move toward those of the color by the strength,
    /// in thousandths and capped at 1000; alpha stays.
    Toward(Rgba, u16),
}

/// The delta of one effect on one cell.
#[derive(Clone, Copy, Debug, PartialEq, Eq, Structural)]
pub struct CellDelta {
    /// Added to the translation's x.
    pub dx: i64,
    /// Added to the translation's y.
    pub dy: i64,
    pub turn: Turn,
    pub resize: Resize,
    pub recolor: Recolor,
}

/// One channel multiplied by a factor in thousandths and capped at 1.0.
pub open spec fn brightened(c: u16, factor: u32) -> u16 {
    if c * factor / 1000 > CHANNEL_ONE {
        CHANNEL_ONE
    } else {
        (c * factor / 1000) as u16
    }
}

/// Alpha multiplied by a factor in thousandths, kept between 0.0 and 1.0.
pub open spec fn faded(a: u16, factor: i64) -> u16 {
    if factor <= 0 {
        0
    } else if a * factor / 1000 > CHANNEL_ONE {
        CHANNEL_ONE
    } else {
        (a * factor / 1000) as u16
    }
}

/// One channel moved toward `target` by `strength` thousandths of the
/// distance; `strength` is at most 1000.
pub open spec fn blended(c: u16, target: u16, strength: int) -> u16 {
    (c + quot((target - c) * strength, 1000)) as u16
}

/// The strength of a blend, capped at 1.0.
pub open spec fn capped(strength: u16) -> int {
    if strength > 1000 {
        1000
    } else {
        strength as int
    }
}

impl Recolor {
    /// The color after the recoloring.
    pub open spec fn of(self, c: Rgba) -> Rgba {
        match self {
            Recolor::Keep => c,
            Recolor::Rgb(r, g, b) => Rgba { r, g, b, a: c.a },
            Recolor::Brighten(f) => Rgba {
                r: brightened(c.r, f),
                g: brightened(c.g, f),
                b: brightened(c.b, f),
                a: c.a,
            },
            Recolor::Fade(f) => Rgba { a: faded(c.a, f), ..c },
            Recolor::Toward(t, s) => Rgba {
                r: blended(c.r, t.r, capped(s)),
                g: blended(c.g, t.g, capped(s)),
                b: blended(c.b, t.b, capped(s)),
                a: c.a,
            },
        }
    }

    /// The color after the recoloring.
    pub fn apply(self, c: Rgba) -> (r: Rgba)
        ensures
            r == self.of(c),
    {
        match self {
            Recolor::Keep => c,
            Recolor::Rgb(r, g, b) => Rgba { r, g, b, a: c.a },
            Recolor::Brighten(f) => Rgba {
                r: brighten(c.r, f),
                g: brighten(c.g, f),
                b: brighten(c.b, f),
                a: c.a,
            },
            Recolor::Fade(f) => Rgba { r: c.r, g: c.g, b: c.b, a: fade(c.a, f) },
            Recolor::Toward(t, s) => {
                let s: u16 = if s > 1000 {
                    1000
                } else {
                    s
                };
                Rgba { r: blend(c.r, t.r, s), g: blend(c.g, t.g, s), b: blend(c.b, t.b, s), a: c.a }
            },
        }
    }
}

fn brighten(c: u16, factor: u32) -> (r: u16)
    ensures
        r == brightened(c, factor),
{
    assert(c * factor <= 0xffff * 0xffff_ffff) by (nonlinear_arith)
        requires
            0 <= c <= 0xffff,
            0 <= factor <= 0xffff_ffff,
    ;
    let v: u64 = (c as u64) * (factor as u64) / 1000;
    if v > CHANNEL_ONE as u64 {
        CHANNEL_ONE
    } else {
        v as u16
    }
}

fn fade(a: u16, factor: i64) -> (r: u16)
    ensures
        r == faded(a, factor),
{
    if factor <= 0 {
        return 0;
    }
    assert(0 <= a * factor <= 0xffff * 0x7fff_ffff_ffff_ffff) by (nonlinear_arith)
        requires
            0 <= a <= 0xffff,
            0 < factor <= 0x7fff_ffff_ffff_ffff,
    ;
    let v: u128 = (a as u128) * (factor as u128) / 1000;
    if v > CHANNEL_ONE as u128 {
        CHANNEL_ONE
    } else {
        v as u16
    }
}

fn blend(c: u16, target: u16, strength: u16) -> (r: u16)
    requires
        strength <= 1000,
    ensures
        r == blended(c, target, strength as int),
{
    let d: i64 = target as i64 - c as i64;
    assert(-0xffff * 1000 <= d * strength <= 0xffff * 1000) by (nonlinear_arith)
        requires
            -0xffff <= d <= 0xffff,
            0 <= strength <= 1000,
    ;
    let step: i64 = d * (strength as i64) / 1000;
    proof {
        lemma_blend_between(c, target, strength as int);
    }
    (c as i64 + step) as u16
}

/// A blend lies between the channel and the target.
pub proof fn lemma_blend_between(c: u16, target: u16, strength: int)
    requires
        0 <= strength <= 1000,
    ensures
        c <= target ==> c <= c + quot((target - c) * strength, 1000) <= target,
        target <= c ==> target <= c + quot((target - c) * strength, 1000) <= c,
        strength == 0 ==> quot((target - c) * strength, 1000) == 0,
        strength == 1000 ==> c + quot((target - c) * strength, 1000) == target,
{
    let d = target - c;
    if d >= 0 {
        assert(0 <= d * strength <= d * 1000) by (nonlinear_arith)
            requires
                d >= 0,
                0 <= strength <= 1000,
        ;
        vstd::arithmetic::div_mod::lemma_div_is_ordered(d * strength, d * 1000, 1000);
        vstd::arithmetic::div_mod::lemma_div_by_multiple(d, 1000);
        vstd::arithmetic::div_mod::lemma_div_pos_is_pos(d * strength, 1000);
    } else {
        assert(0 <= (-d) * strength <= (-d) * 1000 && -(d * strength) == (-d) * strength)
            by (nonlinear_arith)
            requires
                d < 0,
                0 <= strength <= 1000,
        ;
        vstd::arithmetic::div_mod::lemma_div_is_ordered((-d) * strength, (-d) * 1000, 1000);
        vstd::arithmetic::div_mod::lemma_div_by_multiple(-d, 1000);
        vstd::arithmetic::div_mod::lemma_div_pos_is_pos((-d) * strength, 1000);
    }
}

impl CellDelta {
    /// The delta that changes nothing.
    pub open spec fn none() -> CellDelta {
        CellDelta { dx: 0, dy: 0, turn: Turn::Keep, resize: Resize::Keep, recolor: Recolor::Keep }
    }

    /// The delta that only shifts.
    pub open spec fn shift(dx: i64, dy: i64) -> CellDelta {
        CellDelta { dx, dy, ..CellDelta::none() }
    }

    /// The delta that changes nothing.
    pub fn identity() -> (d: CellDelta)
        ensures
            d == CellDelta::none(),
    {
        CellDelta { dx: 0, dy: 0, turn: Turn::Keep, resize: Resize::Keep, recolor: Recolor::Keep }
    }

    /// The delta that only shifts.
    pub fn translate(dx: i64, dy: i64) -> (d: CellDelta)
        ensures
            d == CellDelta::shift(dx, dy),
    {
        CellDelta { dx, dy, turn: Turn::Keep, resize: Resize::Keep, recolor: Recolor::Keep }
    }

    /// The pose after the delta: the offset is added, the turn and the
    /// resize are composed with what is there or put in its place.
    pub open spec fn posed(self, t: Transform) -> Transform {
        Transform {
            translation: Vec3 {
                x: clamp(t.translation.x + self.dx),
                y: clamp(t.translation.y + self.dy),
                z: t.translation.z,
            },
            rotation: match self.turn {
                Turn::Keep => t.rotation,
                Turn::By(a) => clamp(t.rotation + a),
                Turn::To(a) => a,
            },
            scale: match self.resize {
                Resize::Keep => t.scale,
                Resize::By(f) => Vec3 {
                    x: clamp(quot(t.scale.x * f, 1000)),
                    y: clamp(quot(t.scale.y * f, 1000)),
                    z: clamp(quot(t.scale.z * f, 1000)),
                },
                Resize::To(s) => Vec3 { x: s, y: s, z: s },
            },
        }
    }

    /// The cell after the delta: its pose and the color of its glyph
    /// change, nothing else does.
    pub open spec fn applied(self, cell: TerminalCell) -> TerminalCell {
        TerminalCell {
            transform: self.posed(cell.transform),
            foreground: ForegroundSprite {
                color: self.recolor.of(cell.foreground.color),
                ..cell.foreground
            },
            ..cell
        }
    }

    /// The cell after the delta.
    pub fn apply(&self, cell: TerminalCell) -> (r: TerminalCell)
        ensures
            r == self.applied(cell),
    {
        let t = cell.transform;
        let rotation: i64 = match self.turn {
            Turn::Keep => t.rotation,
            Turn::By(a) => add_sat(t.rotation, a),
            Turn::To(a) => a,
        };
        let scale: Vec3 = match self.resize {
            Resize::Keep => t.scale,
            Resize::By(f) => Vec3 {
                x: mul_quot(t.scale.x, f, 1000),
                y: mul_quot(t.scale.y, f, 1000),
                z: mul_quot(t.scale.z, f, 1000),
            },
            Resize::To(s) => Vec3 { x: s, y: s, z: s },
        };
        TerminalCell {
            transform: Transform {
                translation: Vec3 {
                    x: add_sat(t.translation.x, self.dx),
                    y: add_sat(t.translation.y, self.dy),
                    z: t.translation.z,
                },
                rotation,
                scale,
            },
            foreground: ForegroundSprite {
                color: self.recolor.apply(cell.foreground.color),
                ..cell.foreground
            },
            ..cell
        }
    }
}

/// The cell after a run of deltas, applied first to last.
pub open spec fn applied_all(cell: TerminalCell, deltas: Seq<CellDelta>) -> TerminalCell
    decreases deltas.len(),
{
    if deltas.len() == 0 {
        cell
    } else {
        deltas.last().applied(applied_all(cell, deltas.drop_last()))
    }
}

/// Two deltas compose in order: the second applies to what the first
/// made of the cell.
pub proof fn lemma_two_deltas(cell: TerminalCell, a: CellDelta, b: CellDelta)
    ensures
        applied_all(cell, seq![a, b]) == b.applied(a.applied(cell)),
{
    let s = seq![a, b];
    assert(s.drop_last() =~= seq![a]);
    assert(seq![a].drop_last() =~= Seq::<CellDelta>::empty());
    assert(applied_all(cell, seq![a]) == a.applied(applied_all(cell, Seq::<CellDelta>::empty())));
}

/// The order of two deltas matters in general: imposing a rotation and
/// then adding to it does not give what adding and then imposing gives.
pub proof fn lemma_order_matters(cell: TerminalCell)
    ensures
        ({
            let set = CellDelta { turn: Turn::To(0), ..CellDelta::none() };
            let add = CellDelta { turn: Turn::By(1), ..CellDelta::none() };
            add.applied(set.applied(cell)) != set.applied(add.applied(cell))
        }),
{
}

/// The identity delta changes nothing.
pub proof fn lemma_none_changes_nothing(cell: TerminalCell)
    ensures
        CellDelta::none().applied(cell) == cell,
{
}

} // verus!
