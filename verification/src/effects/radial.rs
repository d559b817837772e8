//! Directions from an origin cell, for effects that throw cells outward,
//! and the per-cell numbers that such effects draw from the hash.

use crate::TerminalLayout;
use crate::grid::GridPosition;
use crate::units::{clamp, mq, mul_quot, neg_sat};
use super::hash::{hash_of, simple_hash};
use super::sample::{length, length_of};
use vstd::prelude::*;

verus! {

/// The way from an origin to a cell, in thousandths of a pixel; world y
/// grows upward, so a cell below the origin has a negative `dy`.
#[derive(Clone, Copy, Debug, PartialEq, Eq, Structural)]
pub struct Radial {
    pub dx: i64,
    pub dy: i64,
    /// The length of the way, at least one thousandth of a pixel.
    pub reach: i64,
}

/// The way to the cell at `p` from the origin at `(origin_col,
/// origin_row)`, given in thousandths of a cell.
pub open spec fn way(p: GridPosition, origin_col: i32, origin_row: i32, layout: TerminalLayout) -> Radial {
    let dx = mq(p.col * 1000 - origin_col, layout.cell_width as int, 1000);
    let dy = mq(p.row * 1000 - origin_row, clamp(-layout.cell_height) as int, 1000);
    let far = clamp(length(dx as int, dy as int));
    Radial { dx, dy, reach: if far < 1 {
        1
    } else {
        far
    } }
}

/// The way to the cell at `p` from an origin.
pub fn way_to(p: GridPosition, origin_col: i32, origin_row: i32, layout: &TerminalLayout) -> (r: Radial)
    ensures
        r == way(p, origin_col, origin_row, *layout),
        r.reach >= 1,
{
    let dx: i64 = mul_quot(p.col as i64 * 1000 - origin_col as i64, layout.cell_width, 1000);
    let dy: i64 = mul_quot(p.row as i64 * 1000 - origin_row as i64, neg_sat(layout.cell_height), 1000);
    let far: u64 = length_of(dx, dy);
    let reach: i64 = if far > 0x7fff_ffff_ffff_ffff {
        0x7fff_ffff_ffff_ffff
    } else if far < 1 {
        1
    } else {
        far as i64
    };
    Radial { dx, dy, reach }
}

/// The number that stands for a cell in the hash of an outward effect: a
/// thousand times its column, plus its row.
pub open spec fn throw_id(p: GridPosition) -> u32 {
    (p.col * 1000 + p.row) as u32
}

/// The number from 0 up to 10 000 that the hash gives a cell for `salt`:
/// a fraction in ten-thousandths.
pub open spec fn lot(p: GridPosition, salt: u32) -> int {
    (hash_of(throw_id(p), salt) % 10000) as int
}

/// The number from 0 up to 10 000 that the hash gives a cell for `salt`.
pub fn draw_lot(p: GridPosition, salt: u32) -> (r: i64)
    ensures
        r == lot(p, salt),
        0 <= r < 10000,
{
    let id: u32 = p.col as u32 * 1000 + p.row as u32;
    (simple_hash(id, salt) % 10000) as i64
}

} // verus!
