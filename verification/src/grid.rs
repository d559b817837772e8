//! The grid model: one record per cell, holding what the cell shows, where
//! it rests and where it is drawn this tick.

use crate::{TerminalConfig, TerminalLayout};
use crate::backend::{area, flat_index, lemma_index_in_range};
use crate::color::Rgba;
use crate::units::{Vec2, Vec3};
use vstd::prelude::*;

verus! {

/// The identity of a cell: its column and row.
#[derive(Clone, Copy, Debug, PartialEq, Eq, Hash, Structural)]
pub struct GridPosition {
    pub col: u16,
    pub row: u16,
}

/// What a cell shows: resolved colors, style flags and the symbol.
#[derive(Clone, Copy, Debug, PartialEq, Eq, Structural)]
pub struct CellStyle {
    pub fg: Rgba,
    pub bg: Rgba,
    pub bold: bool,
    pub italic: bool,
    pub underlined: bool,
    pub dim: bool,
    pub symbol: char,
}

impl CellStyle {
    /// A space, white on black, with no style flag set.
    pub open spec fn plain() -> CellStyle {
        CellStyle {
            fg: Rgba::white(),
            bg: Rgba::opaque(0, 0, 0),
            bold: false,
            italic: false,
            underlined: false,
            dim: false,
            symbol: ' ',
        }
    }

    /// The color of the glyph on screen: the foreground, at half its alpha
    /// when the cell is dim.
    pub open spec fn shown_fg(self) -> Rgba {
        if self.dim {
            Rgba { a: self.fg.a / 2, ..self.fg }
        } else {
            self.fg
        }
    }

    /// The color of the glyph on screen.
    pub fn glyph_color(&self) -> (c: Rgba)
        ensures
            c == self.shown_fg(),
    {
        if self.dim {
            self.fg.with_alpha(self.fg.a / 2)
        } else {
            self.fg
        }
    }
}

impl Default for CellStyle {
    fn default() -> (s: CellStyle)
        ensures
            s == CellStyle::plain(),
    {
        CellStyle {
            fg: Rgba::srgb(5100, 5100, 5100),
            bg: Rgba::srgb(0, 0, 0),
            bold: false,
            italic: false,
            underlined: false,
            dim: false,
            symbol: ' ',
        }
    }
}

/// A pose: where a cell is, how far it is turned about the view axis
/// (millionths of a radian, counter-clockwise) and how large it is
/// (thousandths).
#[derive(Clone, Copy, Debug, PartialEq, Eq, Structural)]
pub struct Transform {
    pub translation: Vec3,
    pub rotation: i64,
    pub scale: Vec3,
}

/// The resting pose of a cell. Effects offset from this.
#[derive(Clone, Copy, Debug, PartialEq, Eq, Structural)]
pub struct BaseTransform {
    pub translation: Vec3,
    pub rotation: i64,
    pub scale: Vec3,
}

impl BaseTransform {
    /// The resting pose as a working pose.
    pub open spec fn pose(self) -> Transform {
        Transform { translation: self.translation, rotation: self.rotation, scale: self.scale }
    }

    /// The unturned, unscaled pose at `translation`.
    pub open spec fn at(translation: Vec3) -> BaseTransform {
        BaseTransform { translation, rotation: 0, scale: Vec3 { x: 1000, y: 1000, z: 1000 } }
    }

    /// The resting pose as a working pose.
    pub fn to_transform(&self) -> (t: Transform)
        ensures
            t == self.pose(),
    {
        Transform { translation: self.translation, rotation: self.rotation, scale: self.scale }
    }
}

/// The background of a cell as drawn this tick.
#[derive(Clone, Copy, Debug, PartialEq, Eq, Structural)]
pub struct BackgroundSprite {
    pub color: Rgba,
}

impl Default for BackgroundSprite {
    fn default() -> (s: BackgroundSprite)
        ensures
            s.color == Rgba::opaque(0, 0, 0),
    {
        BackgroundSprite { color: Rgba::srgb(0, 0, 0) }
    }
}

/// The glyph of a cell as drawn this tick: its color and its atlas tile.
#[derive(Clone, Copy, Debug, PartialEq, Eq, Structural)]
pub struct ForegroundSprite {
    pub color: Rgba,
    pub glyph: usize,
}

impl Default for ForegroundSprite {
    fn default() -> (s: ForegroundSprite)
        ensures
            s.color == Rgba::white(),
            s.glyph == 0,
    {
        ForegroundSprite { color: Rgba::srgb(5100, 5100, 5100), glyph: 0 }
    }
}

/// The velocity of a cell under gravity, in thousandths of a pixel per
/// second.
#[derive(Clone, Copy, Debug, PartialEq, Eq, Structural)]
pub struct CellVelocity {
    pub velocity: Vec2,
}

impl Default for CellVelocity {
    fn default() -> (v: CellVelocity)
        ensures
            v.velocity == (Vec2 { x: 0, y: 0 }),
    {
        CellVelocity { velocity: Vec2 { x: 0, y: 0 } }
    }
}

/// One cell of the grid.
#[derive(Clone, Copy, Debug, PartialEq, Eq, Structural)]
pub struct TerminalCell {
    pub position: GridPosition,
    pub style: CellStyle,
    /// The resting pose.
    pub base: BaseTransform,
    /// The pose this tick: the resting pose with the effects applied.
    pub transform: Transform,
    pub background: BackgroundSprite,
    pub foreground: ForegroundSprite,
    pub velocity: CellVelocity,
}

impl TerminalCell {
    /// The cell as it is at the start: plain style, at rest at
    /// `translation`, showing tile `glyph`.
    pub open spec fn fresh(position: GridPosition, translation: Vec3, glyph: usize) -> TerminalCell {
        TerminalCell {
            position,
            style: CellStyle::plain(),
            base: BaseTransform::at(translation),
            transform: BaseTransform::at(translation).pose(),
            background: BackgroundSprite { color: Rgba::opaque(0, 0, 0) },
            foreground: ForegroundSprite { color: Rgba::white(), glyph },
            velocity: CellVelocity { velocity: Vec2 { x: 0, y: 0 } },
        }
    }

    /// The cell with its pose and colors back at rest.
    pub open spec fn rested(self) -> TerminalCell {
        TerminalCell {
            transform: self.base.pose(),
            background: BackgroundSprite { color: self.style.bg },
            foreground: ForegroundSprite { color: self.style.shown_fg(), ..self.foreground },
            ..self
        }
    }

    /// The cell with its resting and its working translation set to
    /// `translation`.
    pub open spec fn moved_to(self, translation: Vec3) -> TerminalCell {
        TerminalCell {
            base: BaseTransform { translation, ..self.base },
            transform: Transform { translation, ..self.transform },
            ..self
        }
    }
}

/// What a grid is, to its callers.
pub struct GridView {
    pub columns: u16,
    pub rows: u16,
    /// The cells, row by row.
    pub cells: Seq<TerminalCell>,
}

impl GridView {
    /// There is one cell per position, and each cell knows its position.
    pub open spec fn wf(self) -> bool {
        &&& self.cells.len() == self.columns * self.rows
        &&& forall|i: int|
            0 <= i < self.cells.len() ==> (#[trigger] self.cells[i]).position == self.position_of(
                i,
            )
    }

    /// The position of the cell at index `i`.
    pub open spec fn position_of(self, i: int) -> GridPosition {
        GridPosition { col: (i % self.columns as int) as u16, row: (i / self.columns as int) as u16 }
    }

    /// The grid has a cell at `(col, row)`.
    pub open spec fn in_bounds(self, col: int, row: int) -> bool {
        0 <= col < self.columns && 0 <= row < self.rows
    }

    /// The index of the cell at `(col, row)`.
    pub open spec fn index_of(self, col: int, row: int) -> int {
        row * self.columns + col
    }

    /// The grid with every cell back at rest.
    pub open spec fn rested(self) -> GridView {
        GridView { cells: Seq::new(self.cells.len(), |i: int| self.cells[i].rested()), ..self }
    }

    /// The grid with every cell resting at its place in `layout`, at depth
    /// `z`.
    pub open spec fn laid_out(self, layout: TerminalLayout, z: i64) -> GridView {
        GridView {
            cells: Seq::new(
                self.cells.len(),
                |i: int| self.cells[i].moved_to(place(layout, self.position_of(i), z)),
            ),
            ..self
        }
    }
}

/// The resting place of the cell at `position`: the center of its cell in
/// the layout, at depth `z`.
pub open spec fn place(layout: TerminalLayout, position: GridPosition, z: i64) -> Vec3 {
    let center = layout.center_of(position.col as int, position.row as int);
    Vec3 { x: center.x, y: center.y, z }
}

/// The grid of cells.
pub struct TerminalGrid {
    columns: u16,
    rows: u16,
    cells: Vec<TerminalCell>,
}

impl View for TerminalGrid {
    type V = GridView;

    closed spec fn view(&self) -> GridView {
        GridView { columns: self.columns, rows: self.rows, cells: self.cells@ }
    }
}

impl TerminalGrid {
    /// The grid is consistent: see [`GridView::wf`].
    pub open spec fn wf(&self) -> bool {
        self@.wf()
    }

    /// The number of columns.
    pub fn columns(&self) -> (c: u16)
        ensures
            c == self@.columns,
    {
        self.columns
    }

    /// The number of rows.
    pub fn rows(&self) -> (r: u16)
        ensures
            r == self@.rows,
    {
        self.rows
    }

    /// The number of cells.
    pub fn len(&self) -> (n: usize)
        ensures
            n == self@.cells.len(),
    {
        self.cells.len()
    }

    /// The cells, row by row.
    pub fn cells(&self) -> (c: &[TerminalCell])
        ensures
            c@ == self@.cells,
    {
        self.cells.as_slice()
    }

    /// The cell at `(col, row)`, if the grid has it.
    pub fn get(&self, col: u16, row: u16) -> (c: Option<&TerminalCell>)
        requires
            self.wf(),
        ensures
            c is Some <==> self@.in_bounds(col as int, row as int),
            c matches Some(cell) ==> *cell == self@.cells[self@.index_of(col as int, row as int)]
                && cell.position == (GridPosition { col, row }),
    {
        if col < self.columns && row < self.rows {
            proof {
                lemma_index_in_range(self.columns as int, self.rows as int, col as int, row as int);
            }
            Some(&self.cells[flat_index(self.columns, col, row)])
        } else {
            None
        }
    }

    /// The cell at index `i`.
    pub fn cell(&self, i: usize) -> (c: TerminalCell)
        requires
            i < self@.cells.len(),
        ensures
            c == self@.cells[i as int],
    {
        self.cells[i]
    }

    /// Replaces the cell at index `i`; the cell keeps its position.
    pub fn set_cell(&mut self, i: usize, cell: TerminalCell)
        requires
            old(self).wf(),
            i < old(self)@.cells.len(),
        ensures
            final(self).wf(),
            final(self)@ == (GridView {
                cells: old(self)@.cells.update(
                    i as int,
                    TerminalCell { position: old(self)@.cells[i as int].position, ..cell },
                ),
                ..old(self)@
            }),
    {
        let position = self.cells[i].position;
        self.cells.set(i, TerminalCell { position, ..cell });
    }
}

impl TerminalGrid {
    /// Moves every cell to its place in `layout`, at depth `z`: both the
    /// resting translation and the working translation are set; rotation,
    /// scale and everything else stay.
    pub fn relayout(&mut self, layout: &TerminalLayout, z: i64)
        requires
            old(self).wf(),
        ensures
            final(self).wf(),
            final(self)@ == old(self)@.laid_out(*layout, z),
    {
        let n: usize = self.cells.len();
        let mut i: usize = 0;
        while i < n
            invariant
                i <= n,
                n == self@.cells.len(),
                self.wf(),
                self@.columns == old(self)@.columns,
                self@.rows == old(self)@.rows,
                self@.cells.len() == old(self)@.cells.len(),
                forall|j: int|
                    0 <= j < i ==> #[trigger] self@.cells[j] == old(self)@.laid_out(
                        *layout,
                        z,
                    ).cells[j],
                forall|j: int| i <= j < n ==> #[trigger] self@.cells[j] == old(self)@.cells[j],
            decreases n - i,
        {
            let cell = self.cells[i];
            let center = layout.cell_center(cell.position.col, cell.position.row);
            let translation = Vec3 { x: center.x, y: center.y, z };
            let moved = TerminalCell {
                base: BaseTransform { translation, ..cell.base },
                transform: Transform { translation, ..cell.transform },
                ..cell
            };
            self.cells.set(i, moved);
            i += 1;
        }
        assert(self@.cells =~= old(self)@.laid_out(*layout, z).cells);
    }
}

/// Host identities of the cells: for each cell the identity of the
/// element that shows it, and of the element that shows its glyph.
pub struct CellEntityIndex {
    pub entities: Vec<u64>,
    pub fg_entities: Vec<u64>,
    pub columns: u16,
    pub rows: u16,
}

impl CellEntityIndex {
    /// The list of cell identities holds one per cell.
    pub open spec fn covers_cells(&self) -> bool {
        self.entities@.len() == self.columns * self.rows
    }

    /// The list of glyph identities holds one per cell.
    pub open spec fn covers_glyphs(&self) -> bool {
        self.fg_entities@.len() == self.columns * self.rows
    }

    /// The identity of the cell at `(col, row)`.
    pub fn get(&self, col: u16, row: u16) -> (e: Option<u64>)
        requires
            self.covers_cells(),
        ensures
            e == if col < self.columns && row < self.rows {
                Some(self.entities@[row * self.columns + col])
            } else {
                None
            },
    {
        if col < self.columns && row < self.rows {
            proof {
                lemma_index_in_range(self.columns as int, self.rows as int, col as int, row as int);
            }
            Some(self.entities[flat_index(self.columns, col, row)])
        } else {
            None
        }
    }

    /// The identity of the glyph of the cell at `(col, row)`.
    pub fn get_fg(&self, col: u16, row: u16) -> (e: Option<u64>)
        requires
            self.covers_glyphs(),
        ensures
            e == if col < self.columns && row < self.rows {
                Some(self.fg_entities@[row * self.columns + col])
            } else {
                None
            },
    {
        if col < self.columns && row < self.rows {
            proof {
                lemma_index_in_range(self.columns as int, self.rows as int, col as int, row as int);
            }
            Some(self.fg_entities[flat_index(self.columns, col, row)])
        } else {
            None
        }
    }
}

/// Makes the grid for a configuration: one fresh cell per position, each
/// resting at its place in the layout and showing tile `space_index`.
pub fn spawn_grid(config: &TerminalConfig, layout: &TerminalLayout, space_index: usize) -> (grid:
    TerminalGrid)
    ensures
        grid.wf(),
        grid@.columns == config.columns,
        grid@.rows == config.rows,
        forall|i: int|
            0 <= i < grid@.cells.len() ==> #[trigger] grid@.cells[i] == TerminalCell::fresh(
                grid@.position_of(i),
                place(*layout, grid@.position_of(i), config.z_layer),
                space_index,
            ),
{
    let total: usize = area(config.columns, config.rows);
    let mut cells: Vec<TerminalCell> = Vec::new();
    let ghost shape = GridView { columns: config.columns, rows: config.rows, cells: Seq::empty() };
    let mut row: u16 = 0;
    while row < config.rows
        invariant
            row <= config.rows,
            cells@.len() == row * config.columns,
            total == config.columns * config.rows,
            shape.columns == config.columns,
            forall|i: int|
                0 <= i < cells@.len() ==> #[trigger] cells@[i] == TerminalCell::fresh(
                    shape.position_of(i),
                    place(*layout, shape.position_of(i), config.z_layer),
                    space_index,
                ),
        decreases config.rows - row,
    {
        let mut col: u16 = 0;
        while col < config.columns
            invariant
                row < config.rows,
                col <= config.columns,
                cells@.len() == row * config.columns + col,
                shape.columns == config.columns,
                forall|i: int|
                    0 <= i < cells@.len() ==> #[trigger] cells@[i] == TerminalCell::fresh(
                        shape.position_of(i),
                        place(*layout, shape.position_of(i), config.z_layer),
                        space_index,
                    ),
            decreases config.columns - col,
        {
            let center = layout.cell_center(col, row);
            let translation = Vec3 { x: center.x, y: center.y, z: config.z_layer };
            let base = BaseTransform {
                translation,
                rotation: 0,
                scale: Vec3 { x: 1000, y: 1000, z: 1000 },
            };
            proof {
                lemma_index_in_range(
                    config.columns as int,
                    config.rows as int,
                    col as int,
                    row as int,
                );
            }
            cells.push(
                TerminalCell {
                    position: GridPosition { col, row },
                    style: CellStyle::default(),
                    base,
                    transform: base.to_transform(),
                    background: BackgroundSprite::default(),
                    foreground: ForegroundSprite { color: Rgba::srgb(5100, 5100, 5100), glyph: space_index },
                    velocity: CellVelocity::default(),
                },
            );
            col += 1;
        }
        assert(row * config.columns + config.columns == (row + 1) * config.columns)
            by (nonlinear_arith);
        row += 1;
    }
    assert(config.rows * config.columns == config.columns * config.rows) by (nonlinear_arith);
    TerminalGrid { columns: config.columns, rows: config.rows, cells }
}

} // verus!
