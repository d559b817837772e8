//! Fixed-point units and the arithmetic that goes with them.
//!
//! Every quantity is a whole number of small units: lengths in thousandths
//! of a pixel, angles in millionths of a radian, scales and other factors
//! in thousandths, times in microseconds. Sums saturate at the ends of the
//! 64-bit range; quotients round toward zero.

use vstd::prelude::*;

verus! {

/// A point or an extent in the plane.
#[derive(Clone, Copy, Debug, PartialEq, Eq, Structural)]
pub struct Vec2 {
    pub x: i64,
    pub y: i64,
}

/// A point or an extent in space.
#[derive(Clone, Copy, Debug, PartialEq, Eq, Structural)]
pub struct Vec3 {
    pub x: i64,
    pub y: i64,
    pub z: i64,
}

/// `v`, or the end of the 64-bit range that is nearest to it.
pub open spec fn clamp(v: int) -> i64 {
    if v < i64::MIN {
        i64::MIN
    } else if v > i64::MAX {
        i64::MAX
    } else {
        v as i64
    }
}

/// `n / d` rounded toward zero, for a positive `d`.
pub open spec fn quot(n: int, d: int) -> int {
    if n >= 0 {
        n / d
    } else {
        -((-n) / d)
    }
}

/// The saturated sum.
pub open spec fn plus(a: int, b: int) -> i64 {
    clamp(a + b)
}

/// The saturated difference.
pub open spec fn minus(a: int, b: int) -> i64 {
    clamp(a - b)
}

/// `v`, or the end of the 64-bit range that is nearest to it.
pub fn saturate(v: i128) -> (r: i64)
    ensures
        r == clamp(v as int),
{
    if v < -0x8000_0000_0000_0000 {
        i64::MIN
    } else if v > 0x7fff_ffff_ffff_ffff {
        i64::MAX
    } else {
        v as i64
    }
}

/// The saturating sum.
pub fn add_sat(a: i64, b: i64) -> (r: i64)
    ensures
        r == clamp(a + b),
        r == plus(a as int, b as int),
{
    saturate(a as i128 + b as i128)
}

/// The saturating difference.
pub fn sub_sat(a: i64, b: i64) -> (r: i64)
    ensures
        r == clamp(a - b),
        r == minus(a as int, b as int),
{
    saturate(a as i128 - b as i128)
}

/// The exact product of two 64-bit numbers.
pub fn wide_mul(a: i64, b: i64) -> (r: i128)
    ensures
        r == a * b,
        -0x4000_0000_0000_0000_0000_0000_0000_0000 <= r <= 0x4000_0000_0000_0000_0000_0000_0000_0000,
{
    assert(-0x4000_0000_0000_0000_0000_0000_0000_0000 <= a * b
        <= 0x4000_0000_0000_0000_0000_0000_0000_0000) by (nonlinear_arith)
        requires
            -0x8000_0000_0000_0000 <= a <= 0x7fff_ffff_ffff_ffff,
            -0x8000_0000_0000_0000 <= b <= 0x7fff_ffff_ffff_ffff,
    ;
    (a as i128) * (b as i128)
}

/// `a * b / d`, rounded toward zero and saturated.
pub fn mul_quot(a: i64, b: i64, d: i64) -> (r: i64)
    requires
        d > 0,
    ensures
        r == clamp(quot(a * b, d as int)),
        r == mq(a as int, b as int, d as int),
{
    let p: i128 = wide_mul(a, b);
    saturate(p / (d as i128))
}

/// `a * b / d` in fixed point: rounded toward zero and saturated.
pub open spec fn mq(a: int, b: int, d: int) -> i64 {
    clamp(quot(a * b, d))
}

/// `a * b / d` for a divisor of either sign; 0 when the divisor is 0.
pub open spec fn per(a: int, b: int, d: int) -> i64 {
    if d > 0 {
        clamp(quot(a * b, d))
    } else if d < 0 {
        clamp(quot(-(a * b), -d))
    } else {
        0
    }
}

/// `a * b / d`, rounded toward zero and saturated, for a divisor of
/// either sign; 0 when the divisor is 0.
pub fn mul_div(a: i64, b: i64, d: i64) -> (r: i64)
    ensures
        r == per(a as int, b as int, d as int),
{
    let p: i128 = wide_mul(a, b);
    if d > 0 {
        saturate(p / (d as i128))
    } else if d < 0 {
        saturate((-p) / (-(d as i128)))
    } else {
        0
    }
}

/// The size of `v` without its sign, saturated.
pub open spec fn size(v: int) -> i64 {
    if v < 0 {
        clamp(-v)
    } else {
        clamp(v)
    }
}

/// The size of `v` without its sign, saturated.
pub fn abs_sat(v: i64) -> (r: i64)
    ensures
        r == size(v as int),
        r >= 0,
{
    if v < 0 {
        saturate(-(v as i128))
    } else {
        v
    }
}

/// `-v`, saturated.
pub fn neg_sat(v: i64) -> (r: i64)
    ensures
        r == clamp(-v),
{
    saturate(-(v as i128))
}

/// A quotient rounded toward zero is no larger in size than what was
/// divided, has its sign, and is exact when nothing is left over.
pub proof fn lemma_quot_bounds(n: int, d: int)
    requires
        d > 0,
    ensures
        n >= 0 ==> 0 <= quot(n, d) <= n,
        n <= 0 ==> n <= quot(n, d) <= 0,
        quot(n * d, d) == n,
{
    if n >= 0 {
        vstd::arithmetic::div_mod::lemma_div_pos_is_pos(n, d);
        vstd::arithmetic::div_mod::lemma_div_is_ordered_by_denominator(n, 1, d);
        assert(n * d >= 0) by (nonlinear_arith)
            requires
                n >= 0,
                d > 0,
        ;
        vstd::arithmetic::div_mod::lemma_div_by_multiple(n, d);
    } else {
        vstd::arithmetic::div_mod::lemma_div_pos_is_pos(-n, d);
        vstd::arithmetic::div_mod::lemma_div_is_ordered_by_denominator(-n, 1, d);
        assert(-(n * d) == (-n) * d && n * d < 0) by (nonlinear_arith)
            requires
                n < 0,
                d > 0,
        ;
        vstd::arithmetic::div_mod::lemma_div_by_multiple(-n, d);
    }
}

} // verus!
