//! Rectangles in grid coordinates and included/excluded region selectors.

use vstd::prelude::*;

verus! {

/// A rectangle in grid coordinates, covering columns `col .. col + width`
/// and rows `row .. row + height`.
#[derive(Clone, Copy, Debug, PartialEq, Eq, Structural)]
pub struct GridRect {
    pub col: u16,
    pub row: u16,
    pub width: u16,
    pub height: u16,
}

impl GridRect {
    /// The cells the rectangle covers. The right and bottom edges are
    /// computed without wrapping, so a rectangle that reaches past the last
    /// representable column or row simply covers everything up to it.
    pub open spec fn covers(self, col: int, row: int) -> bool {
        &&& self.col <= col < self.col + self.width
        &&& self.row <= row < self.row + self.height
    }

    /// Whether the rectangle covers the cell at `(col, row)`.
    pub fn contains(&self, col: u16, row: u16) -> (r: bool)
        ensures
            r == self.covers(col as int, row as int),
    {
        let right: u32 = self.col as u32 + self.width as u32;
        let bottom: u32 = self.row as u32 + self.height as u32;
        col >= self.col && (col as u32) < right && row >= self.row && (row as u32) < bottom
    }
}

/// Which cells an effect touches: the union of the included rectangles
/// (every cell, when there are none) minus the union of the excluded
/// rectangles.
#[derive(Clone, Debug)]
pub struct EffectRegion {
    pub included: Vec<GridRect>,
    pub excluded: Vec<GridRect>,
}

/// Some rectangle of `rects` covers the cell.
pub open spec fn any_covers(rects: Seq<GridRect>, col: int, row: int) -> bool {
    exists|i: int| 0 <= i < rects.len() && (#[trigger] rects[i]).covers(col, row)
}

impl View for EffectRegion {
    type V = (Seq<GridRect>, Seq<GridRect>);

    /// The included rectangles, then the excluded rectangles.
    open spec fn view(&self) -> Self::V {
        (self.included@, self.excluded@)
    }
}

impl EffectRegion {
    /// Membership of a cell: exclusion wins over inclusion, and an empty
    /// included list stands for the whole grid.
    pub open spec fn selects(self, col: int, row: int) -> bool {
        &&& !any_covers(self.excluded@, col, row)
        &&& (self.included@.len() == 0 || any_covers(self.included@, col, row))
    }

    /// Whether the region selects the cell at `(col, row)`.
    pub fn contains(&self, col: u16, row: u16) -> (r: bool)
        ensures
            r == self.selects(col as int, row as int),
    {
        if covered_by_any(&self.excluded, col, row) {
            return false;
        }
        if self.included.len() == 0 {
            return true;
        }
        covered_by_any(&self.included, col, row)
    }

    /// The region made of the single rectangle from the origin, `cols` wide
    /// and `rows` high.
    pub fn full_screen(cols: u16, rows: u16) -> (r: EffectRegion)
        ensures
            r.included@ == seq![GridRect { col: 0, row: 0, width: cols, height: rows }],
            r.excluded@ == Seq::<GridRect>::empty(),
            forall|c: int, w: int| r.selects(c, w) <==> (0 <= c < cols && 0 <= w < rows),
    {
        let mut included: Vec<GridRect> = Vec::new();
        included.push(GridRect { col: 0, row: 0, width: cols, height: rows });
        let r = EffectRegion { included, excluded: Vec::new() };
        proof {
            let rect = GridRect { col: 0, row: 0, width: cols, height: rows };
            assert(r.included@ =~= seq![rect]);
            assert forall|c: int, w: int| r.selects(c, w) <==> (0 <= c < cols && 0 <= w < rows) by {
                if 0 <= c < cols && 0 <= w < rows {
                    assert(r.included@[0].covers(c, w));
                }
            }
        }
        r
    }

    /// The region that selects every cell.
    pub fn all() -> (r: EffectRegion)
        ensures
            r.included@ == Seq::<GridRect>::empty(),
            r.excluded@ == Seq::<GridRect>::empty(),
            forall|c: int, w: int| r.selects(c, w),
    {
        EffectRegion { included: Vec::new(), excluded: Vec::new() }
    }

    /// Content equality: the same rectangles in the same order.
    pub fn same_as(&self, other: &EffectRegion) -> (r: bool)
        ensures
            r == (self@ == other@),
    {
        let a = same_rects(&self.included, &other.included);
        let b = same_rects(&self.excluded, &other.excluded);
        a && b
    }
}

fn covered_by_any(rects: &Vec<GridRect>, col: u16, row: u16) -> (r: bool)
    ensures
        r == any_covers(rects@, col as int, row as int),
{
    let mut i: usize = 0;
    while i < rects.len()
        invariant
            i <= rects.len(),
            forall|j: int| 0 <= j < i ==> !(#[trigger] rects@[j]).covers(col as int, row as int),
        decreases rects.len() - i,
    {
        if rects[i].contains(col, row) {
            return true;
        }
        i += 1;
    }
    false
}

fn same_rects(a: &Vec<GridRect>, b: &Vec<GridRect>) -> (r: bool)
    ensures
        r == (a@ == b@),
{
    if a.len() != b.len() {
        return false;
    }
    let mut i: usize = 0;
    while i < a.len()
        invariant
            i <= a.len(),
            a.len() == b.len(),
            forall|j: int| 0 <= j < i ==> a@[j] == b@[j],
        decreases a.len() - i,
    {
        if a[i] != b[i] {
            return false;
        }
        i += 1;
    }
    assert(a@ =~= b@);
    true
}

} // verus!
