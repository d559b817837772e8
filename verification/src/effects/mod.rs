//! Effects: regions, the shared hash, and the reset that precedes them.
//!
//! Every tick starts from rest: [`reset_transforms`] and [`reset_colors`]
//! put each cell back at its resting pose and colors, and the effects of
//! the tick then apply on top of that, one after the other. Nothing of an
//! effect carries over to the next tick.

pub mod breathe;
pub mod bubbly;
pub mod collapse;
pub mod delta;
pub mod engine;
pub mod explode;
pub mod glitch;
pub mod glow;
pub mod gravity;
pub mod hash;
pub mod jitter;
pub mod knock;
pub mod radial;
pub mod rainbow;
pub mod region;
pub mod ripple;
pub mod sample;
pub mod scatter;
pub mod shiny;
pub mod slash;
pub mod timing;
pub mod tint;
pub mod wave;

pub use hash::simple_hash;
pub use region::{EffectRegion, GridRect};

use crate::grid::{BackgroundSprite, ForegroundSprite, GridView, TerminalCell, TerminalGrid};
use vstd::prelude::*;

verus! {

/// The grid with every working pose back at the resting pose.
pub open spec fn poses_at_rest(grid: GridView) -> GridView {
    GridView {
        cells: Seq::new(
            grid.cells.len(),
            |i: int| TerminalCell { transform: grid.cells[i].base.pose(), ..grid.cells[i] },
        ),
        ..grid
    }
}

/// The grid with every working color back at the cell's own colors.
pub open spec fn colors_at_rest(grid: GridView) -> GridView {
    GridView {
        cells: Seq::new(
            grid.cells.len(),
            |i: int|
                TerminalCell {
                    background: BackgroundSprite { color: grid.cells[i].style.bg },
                    foreground: ForegroundSprite {
                        color: grid.cells[i].style.shown_fg(),
                        ..grid.cells[i].foreground
                    },
                    ..grid.cells[i]
                },
        ),
        ..grid
    }
}

/// Puts every cell's working pose back at its resting pose.
pub fn reset_transforms(grid: &mut TerminalGrid)
    requires
        old(grid).wf(),
    ensures
        final(grid).wf(),
        final(grid)@ == poses_at_rest(old(grid)@),
        forall|i: int|
            0 <= i < final(grid)@.cells.len() ==> (#[trigger] final(grid)@.cells[i]).transform
                == final(grid)@.cells[i].base.pose(),
{
    let n: usize = grid.len();
    let mut i: usize = 0;
    while i < n
        invariant
            i <= n,
            n == grid@.cells.len(),
            grid.wf(),
            grid@.columns == old(grid)@.columns,
            grid@.rows == old(grid)@.rows,
            grid@.cells.len() == old(grid)@.cells.len(),
            forall|j: int|
                0 <= j < i ==> #[trigger] grid@.cells[j] == poses_at_rest(old(grid)@).cells[j],
            forall|j: int| i <= j < n ==> #[trigger] grid@.cells[j] == old(grid)@.cells[j],
        decreases n - i,
    {
        let cell = grid.cell(i);
        grid.set_cell(i, TerminalCell { transform: cell.base.to_transform(), ..cell });
        i += 1;
    }
    assert(grid@.cells =~= poses_at_rest(old(grid)@).cells);
}

/// Puts every cell's working colors back at the colors of its style.
pub fn reset_colors(grid: &mut TerminalGrid)
    requires
        old(grid).wf(),
    ensures
        final(grid).wf(),
        final(grid)@ == colors_at_rest(old(grid)@),
{
    let n: usize = grid.len();
    let mut i: usize = 0;
    while i < n
        invariant
            i <= n,
            n == grid@.cells.len(),
            grid.wf(),
            grid@.columns == old(grid)@.columns,
            grid@.rows == old(grid)@.rows,
            grid@.cells.len() == old(grid)@.cells.len(),
            forall|j: int|
                0 <= j < i ==> #[trigger] grid@.cells[j] == colors_at_rest(old(grid)@).cells[j],
            forall|j: int| i <= j < n ==> #[trigger] grid@.cells[j] == old(grid)@.cells[j],
        decreases n - i,
    {
        let cell = grid.cell(i);
        grid.set_cell(
            i,
            TerminalCell {
                background: BackgroundSprite { color: cell.style.bg },
                foreground: ForegroundSprite { color: cell.style.glyph_color(), ..cell.foreground },
                ..cell
            },
        );
        i += 1;
    }
    assert(grid@.cells =~= colors_at_rest(old(grid)@).cells);
}

/// Resetting poses and then colors, in either order, puts every cell at
/// rest.
pub proof fn lemma_resets_give_rest(grid: GridView)
    ensures
        colors_at_rest(poses_at_rest(grid)) == grid.rested(),
        poses_at_rest(colors_at_rest(grid)) == grid.rested(),
{
    assert(colors_at_rest(poses_at_rest(grid)).cells =~= grid.rested().cells);
    assert(poses_at_rest(colors_at_rest(grid)).cells =~= grid.rested().cells);
}

} // verus!
