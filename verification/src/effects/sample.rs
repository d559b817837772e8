//! What the core shares with the host about curves that it cannot trace
//! in whole numbers.
//!
//! Sines, cosines and exponentials are evaluated by the host. The core
//! works out the angle or the exponent, in millionths, the host hands back
//! the value of the curve there as a sample, in millionths, and the core
//! scales by it. Colors given by hue, saturation and lightness are made by
//! the host in the same way: the core names the three and takes red,
//! green and blue back. Distances are exact: the square root is rounded
//! down.

use crate::units::quot;
use vstd::prelude::*;

verus! {

/// A full turn, in millionths of a radian.
pub const TURN: i64 = 6_283_185;

/// What the host is to evaluate for one cell: the sine and the cosine at
/// `angle`, in millionths of a radian, the exponential at `exponent`, in
/// millionths, and the color of the given hue, saturation and lightness.
#[derive(Clone, Copy, Debug, PartialEq, Eq, Structural)]
pub struct Probe {
    pub angle: i64,
    pub exponent: i64,
    /// The hue, in millionths of a turn from 0 up to 1 000 000.
    pub hue: u32,
    /// The saturation, in thousandths.
    pub saturation: u16,
    /// The lightness, in thousandths.
    pub lightness: u16,
}

/// What the host found at a probe: the sine and the cosine of the angle
/// and the exponential of the exponent, in millionths, and red, green and
/// blue of the color, as color channels.
#[derive(Clone, Copy, Debug, PartialEq, Eq, Structural)]
pub struct Sample {
    pub sin: i32,
    pub cos: i32,
    pub exp: i32,
    pub red: u16,
    pub green: u16,
    pub blue: u16,
}

impl Probe {
    /// The probe at angle 0 and exponent 0, for black.
    pub open spec fn origin() -> Probe {
        Probe { angle: 0, exponent: 0, hue: 0, saturation: 0, lightness: 0 }
    }

    /// The probe at `angle` and `exponent`, for black.
    pub open spec fn curve(angle: i64, exponent: i64) -> Probe {
        Probe { angle, exponent, ..Probe::origin() }
    }

    /// The probe at angle 0 and exponent 0, for black.
    pub fn zero() -> (p: Probe)
        ensures
            p == Probe::origin(),
    {
        Probe { angle: 0, exponent: 0, hue: 0, saturation: 0, lightness: 0 }
    }

    /// The probe at `angle` and exponent 0.
    pub fn at_angle(angle: i64) -> (p: Probe)
        ensures
            p == Probe::curve(angle, 0),
    {
        Probe { angle, exponent: 0, hue: 0, saturation: 0, lightness: 0 }
    }
}

/// `r` is the square root of `n`, rounded down.
pub open spec fn is_root(n: int, r: int) -> bool {
    0 <= r && r * r <= n < (r + 1) * (r + 1)
}

/// The square root of `n`, rounded down.
pub open spec fn root(n: int) -> int {
    choose|r: int| is_root(n, r)
}

/// A number has at most one rounded-down square root.
pub proof fn lemma_root_unique(n: int, r: int)
    requires
        is_root(n, r),
    ensures
        root(n) == r,
{
    let s = root(n);
    assert(is_root(n, s));
    if s < r {
        assert((s + 1) * (s + 1) <= r * r) by (nonlinear_arith)
            requires
                0 <= s,
                s + 1 <= r,
        ;
    } else if r < s {
        assert((r + 1) * (r + 1) <= s * s) by (nonlinear_arith)
            requires
                0 <= r,
                r + 1 <= s,
        ;
    }
}

/// The square root, rounded down.
pub fn isqrt(n: u128) -> (r: u64)
    ensures
        r == root(n as int),
        is_root(n as int, r as int),
{
    let mut lo: u128 = 0;
    let mut hi: u128 = 0x1_0000_0000_0000_0000;
    assert(hi * hi == 0x1_0000_0000_0000_0000_0000_0000_0000_0000) by (nonlinear_arith)
        requires
            hi == 0x1_0000_0000_0000_0000,
    ;
    while hi - lo > 1
        invariant
            lo < hi <= 0x1_0000_0000_0000_0000,
            lo * lo <= n,
            n < hi * hi,
        decreases hi - lo,
    {
        let mid: u128 = lo + (hi - lo) / 2;
        assert(mid * mid <= 0xffff_ffff_ffff_ffff * 0xffff_ffff_ffff_ffff) by (nonlinear_arith)
            requires
                0 <= mid <= 0xffff_ffff_ffff_ffff,
        ;
        if mid * mid <= n {
            lo = mid;
        } else {
            hi = mid;
        }
    }
    proof {
        lemma_root_unique(n as int, lo as int);
    }
    lo as u64
}

/// The size of a number without its sign.
pub fn magnitude(v: i64) -> (m: u128)
    ensures
        m == if v < 0 {
            -v
        } else {
            v as int
        },
{
    if v < 0 {
        (-(v as i128)) as u128
    } else {
        v as u128
    }
}

/// The distance from the origin to `(dx, dy)`, rounded down.
pub open spec fn length(dx: int, dy: int) -> int {
    root(dx * dx + dy * dy)
}

/// The distance from the origin to `(dx, dy)`, rounded down.
pub fn length_of(dx: i64, dy: i64) -> (d: u64)
    ensures
        d == length(dx as int, dy as int),
        (dx != 0 || dy != 0) ==> d >= 1,
{
    let ax: u128 = magnitude(dx);
    let ay: u128 = magnitude(dy);
    assert(ax * ax <= 0x8000_0000_0000_0000 * 0x8000_0000_0000_0000 && ax * ax == dx * dx)
        by (nonlinear_arith)
        requires
            0 <= ax <= 0x8000_0000_0000_0000,
            ax == dx || ax == -dx,
    ;
    assert(ay * ay <= 0x8000_0000_0000_0000 * 0x8000_0000_0000_0000 && ay * ay == dy * dy)
        by (nonlinear_arith)
        requires
            0 <= ay <= 0x8000_0000_0000_0000,
            ay == dy || ay == -dy,
    ;
    let d = isqrt(ax * ax + ay * ay);
    proof {
        if dx != 0 || dy != 0 {
            assert(dx * dx + dy * dy >= 1) by (nonlinear_arith)
                requires
                    dx != 0 || dy != 0,
            ;
            if d == 0 {
                assert((0 + 1) * (0 + 1) == 1) by (nonlinear_arith);
            }
        }
    }
    d
}

/// The angle, in millionths of a radian from 0 up to a full turn, of a
/// number of turns given in millionths; whole turns are dropped.
pub open spec fn angle_of(turns: int) -> int {
    (turns % 1_000_000) * 6_283_185 / 1_000_000
}

/// The angle of a number of turns; whole turns are dropped.
pub fn turns_to_angle(turns: i128) -> (a: i64)
    ensures
        a == angle_of(turns as int),
        0 <= a < TURN,
{
    let m: i128 = turns % 1_000_000;
    let part: i128 = if m < 0 {
        m + 1_000_000
    } else {
        m
    };
    (part * 6_283_185 / 1_000_000) as i64
}

/// The turns made after `now` microseconds at `rate` thousandths of a turn
/// per second, in millionths of a turn.
pub open spec fn turns_at(now: u64, rate: i32) -> int {
    quot(rate * now, 1000)
}

/// The turns made after `now` microseconds at `rate`.
pub fn turns_made(now: u64, rate: i32) -> (t: i128)
    ensures
        t == turns_at(now, rate),
        -0x8000_0000_0000_0000_0000_0000 <= t <= 0x8000_0000_0000_0000_0000_0000,
{
    assert(-0x8000_0000 * 0xffff_ffff_ffff_ffff <= rate * now <= 0x8000_0000 * 0xffff_ffff_ffff_ffff)
        by (nonlinear_arith)
        requires
            -0x8000_0000 <= rate <= 0x7fff_ffff,
            0 <= now <= 0xffff_ffff_ffff_ffff,
    ;
    (rate as i128) * (now as i128) / 1000
}

/// The part of a turn, in millionths from 0 up to 1 000 000, that is
/// under way after `now` microseconds at `rate` thousandths of a turn per
/// second.
pub open spec fn phase_at(now: u64, rate: i32) -> int {
    turns_at(now, rate) % 1_000_000
}

/// The part of a turn that is under way after `now` microseconds at `rate`.
pub fn phase_of(now: u64, rate: i32) -> (p: i64)
    ensures
        p == phase_at(now, rate),
        0 <= p < 1_000_000,
{
    let m: i128 = turns_made(now, rate) % 1_000_000;
    if m < 0 {
        (m + 1_000_000) as i64
    } else {
        m as i64
    }
}

/// The smooth step from 0 to 1: `3 t^2 - 2 t^3` for `t` from 0.0 to 1.0,
/// in millionths; below and above that range it stays at its ends.
pub open spec fn smooth(t: int) -> int {
    let u = if t < 0 {
        0
    } else if t > 1_000_000 {
        1_000_000
    } else {
        t
    };
    u * u * (3_000_000 - 2 * u) / 1_000_000_000_000
}

/// The smooth step from 0 to 1.
pub fn smoothstep(t: i64) -> (s: i64)
    ensures
        s == smooth(t as int),
        0 <= s <= 1_000_000,
{
    let u: i128 = if t < 0 {
        0
    } else if t > 1_000_000 {
        1_000_000
    } else {
        t as i128
    };
    assert(0 <= u * u <= 1_000_000_000_000) by (nonlinear_arith)
        requires
            0 <= u <= 1_000_000,
    ;
    let sq: i128 = u * u;
    let rest: i128 = 3_000_000 - 2 * u;
    assert(0 <= sq * rest <= 3_000_000_000_000_000_000) by (nonlinear_arith)
        requires
            0 <= sq <= 1_000_000_000_000,
            1_000_000 <= rest <= 3_000_000,
    ;
    assert(sq * rest <= 1_000_000_000_000_000_000) by (nonlinear_arith)
        requires
            sq == u * u,
            rest == 3_000_000 - 2 * u,
            0 <= u <= 1_000_000,
    ;
    (sq * rest / 1_000_000_000_000) as i64
}

} // verus!
