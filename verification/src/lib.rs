//! A verified core for rendering a character-grid terminal as a field of
//! independently animated cells: a glyph atlas packer, an incremental sync
//! from the character buffer to per-cell render state, and a pipeline that
//! layers effects over each cell's resting pose every tick.
//!
//! The core computes in whole numbers (see [`units`]); the host turns
//! font outlines into coverage samples and the resulting per-cell records
//! into whatever it draws.

pub mod atlas;
pub mod backend;
pub mod color;
pub mod effects;
pub mod grid;
pub mod input;
pub mod pipeline;
pub mod prelude;
pub mod sync;
pub mod units;

use color::Rgba;
use units::{clamp, quot, saturate, Vec2};
use vstd::prelude::*;

verus! {

/// Where the font data comes from.
#[derive(Clone, Debug)]
pub enum FontSource {
    /// The host's built-in font.
    Default,
    /// Font data loaded from a file or elsewhere.
    Custom(Vec<u8>),
}

impl FontSource {
    /// The custom font data; `None` asks for the host's built-in font.
    pub fn bytes(&self) -> (b: Option<&[u8]>)
        ensures
            match *self {
                FontSource::Default => b is None,
                FontSource::Custom(data) => b matches Some(s) && s@ == data@,
            },
    {
        match self {
            FontSource::Default => None,
            FontSource::Custom(data) => Some(data.as_slice()),
        }
    }
}

/// The size of one character cell as the font gives it at some font size,
/// in thousandths of a pixel and not rounded.
#[derive(Clone, Copy, Debug, PartialEq, Eq, Structural)]
pub struct CellMetrics {
    /// The horizontal advance of the reference glyph.
    pub width: u32,
    /// The font's ascent minus its descent.
    pub height: u32,
}

/// The least whole number of pixels that covers `thousandths`.
pub open spec fn ceil_px(thousandths: int) -> int {
    (thousandths + 999) / 1000
}

impl CellMetrics {
    /// The cell size rounded up to whole pixels, as raster buffers need it.
    pub fn raster_size(&self) -> (s: (u32, u32))
        ensures
            s.0 == ceil_px(self.width as int),
            s.1 == ceil_px(self.height as int),
    {
        (((self.width as u64 + 999) / 1000) as u32, ((self.height as u64 + 999) / 1000) as u32)
    }
}

/// Configuration of the terminal grid.
#[derive(Clone, Debug)]
pub struct TerminalConfig {
    /// Number of columns.
    pub columns: u16,
    /// Number of rows.
    pub rows: u16,
    /// Nominal font size, in thousandths of a pixel.
    pub font_size: u32,
    /// The font to rasterize glyphs from.
    pub font: FontSource,
    /// The color that a foreground of `Reset` resolves to.
    pub default_fg: Rgba,
    /// The color that a background of `Reset` resolves to.
    pub default_bg: Rgba,
    /// The top-left corner of the grid in world space; centered on the
    /// world origin when `None`.
    pub origin_override: Option<Vec2>,
    /// The depth of the cells.
    pub z_layer: i64,
    /// Whether this terminal receives keyboard input.
    pub receive_input: bool,
    /// Cell size to use in place of the font's, taken as it is.
    pub cell_size_override: Option<Vec2>,
    /// The render layer of the cells, if they go to one.
    pub render_layer: Option<u8>,
}

impl Default for TerminalConfig {
    fn default() -> (c: TerminalConfig)
        ensures
            c.columns == 80,
            c.rows == 24,
            c.font_size == 20_000,
            c.font is Default,
            c.default_fg == Rgba::opaque(4590, 4590, 4590),
            c.default_bg == Rgba::opaque(510, 510, 510),
            c.origin_override is None,
            c.z_layer == 0,
            c.receive_input,
            c.cell_size_override is None,
            c.render_layer is None,
    {
        TerminalConfig {
            columns: 80,
            rows: 24,
            font_size: 20_000,
            font: FontSource::Default,
            default_fg: Rgba::srgb(4590, 4590, 4590),
            default_bg: Rgba::srgb(510, 510, 510),
            origin_override: None,
            z_layer: 0,
            receive_input: true,
            cell_size_override: None,
            render_layer: None,
        }
    }
}

/// Layout derived from the configuration and the font: the size of a cell
/// and the world position of the grid's top-left corner, in thousandths of
/// a pixel. World y grows upward, rows grow downward. The cell size is
/// not rounded here; only raster buffers take whole pixels (see
/// [`CellMetrics::raster_size`]).
#[derive(Clone, Copy, Debug, PartialEq, Eq, Structural)]
pub struct TerminalLayout {
    pub cell_width: i64,
    pub cell_height: i64,
    pub origin: Vec2,
}

impl TerminalLayout {
    /// The layout that a configuration asks for, given the font's cell
    /// size at the configured font size: the cell is the override, or the
    /// font's cell as it is, not rounded, so that cells tile without a
    /// seam; the origin is the override, or the one that centers the grid
    /// on the world origin.
    pub open spec fn of(config: TerminalConfig, metrics: CellMetrics) -> TerminalLayout {
        let cell = match config.cell_size_override {
            Some(size) => size,
            None => Vec2 { x: metrics.width as i64, y: metrics.height as i64 },
        };
        let origin = match config.origin_override {
            Some(origin) => origin,
            None => Vec2 {
                x: clamp(-quot(config.columns * cell.x, 2)),
                y: clamp(quot(config.rows * cell.y, 2)),
            },
        };
        TerminalLayout { cell_width: cell.x, cell_height: cell.y, origin }
    }

    /// The world position of the center of cell `(col, row)`.
    pub open spec fn center_of(self, col: int, row: int) -> Vec2 {
        Vec2 {
            x: clamp(self.origin.x + col * self.cell_width + quot(self.cell_width as int, 2)),
            y: clamp(self.origin.y - row * self.cell_height - quot(self.cell_height as int, 2)),
        }
    }

    /// The size of a background sprite: the cell and half a pixel more each
    /// way, so that neighbours overlap and no gap shows between them.
    pub fn bg_sprite_size(&self) -> (s: Vec2)
        ensures
            s.x == clamp(self.cell_width + 500),
            s.y == clamp(self.cell_height + 500),
    {
        Vec2 { x: units::add_sat(self.cell_width, 500), y: units::add_sat(self.cell_height, 500) }
    }

    /// The layout that a configuration asks for, given the font's cell size.
    pub fn from_config(config: &TerminalConfig, metrics: CellMetrics) -> (l: TerminalLayout)
        ensures
            l == TerminalLayout::of(*config, metrics),
    {
        let (cell_width, cell_height) = match config.cell_size_override {
            Some(size) => (size.x, size.y),
            None => (metrics.width as i64, metrics.height as i64),
        };
        let origin = match config.origin_override {
            Some(origin) => origin,
            None => {
                let w: i128 = units::wide_mul(config.columns as i64, cell_width);
                let h: i128 = units::wide_mul(config.rows as i64, cell_height);
                Vec2 { x: saturate(-(w / 2)), y: saturate(h / 2) }
            },
        };
        TerminalLayout { cell_width, cell_height, origin }
    }

    /// The world position of the center of cell `(col, row)`.
    pub fn cell_center(&self, col: u16, row: u16) -> (p: Vec2)
        ensures
            p == self.center_of(col as int, row as int),
    {
        let across: i128 = units::wide_mul(col as i64, self.cell_width);
        let down: i128 = units::wide_mul(row as i64, self.cell_height);
        assert(-0x8000_0000_0000_0000 * 0x1_0000 <= across <= 0x8000_0000_0000_0000 * 0x1_0000)
            by (nonlinear_arith)
            requires
                across == col * self.cell_width,
                0 <= col < 0x1_0000,
                -0x8000_0000_0000_0000 <= self.cell_width <= 0x7fff_ffff_ffff_ffff,
        ;
        assert(-0x8000_0000_0000_0000 * 0x1_0000 <= down <= 0x8000_0000_0000_0000 * 0x1_0000)
            by (nonlinear_arith)
            requires
                down == row * self.cell_height,
                0 <= row < 0x1_0000,
                -0x8000_0000_0000_0000 <= self.cell_height <= 0x7fff_ffff_ffff_ffff,
        ;
        Vec2 {
            x: saturate(self.origin.x as i128 + across + (self.cell_width as i128) / 2),
            y: saturate(self.origin.y as i128 - down - (self.cell_height as i128) / 2),
        }
    }
}

/// The phases of a tick, in the order in which they run.
#[derive(Clone, Copy, Debug, PartialEq, Eq, Hash, Structural)]
pub enum TerminalSet {
    /// The text UI draws into the buffer and handles input.
    AppTick,
    /// Atlas upkeep, then buffer to cell sync.
    Sync,
    /// Every cell goes back to its resting pose and colors.
    ResetTransforms,
    /// Effects run, in the order in which they were added.
    Effects,
}

impl TerminalSet {
    /// The place of a phase in the tick.
    pub open spec fn rank(self) -> int {
        match self {
            TerminalSet::AppTick => 0,
            TerminalSet::Sync => 1,
            TerminalSet::ResetTransforms => 2,
            TerminalSet::Effects => 3,
        }
    }

    /// The phase that runs after this one, if any.
    pub fn next(self) -> (n: Option<TerminalSet>)
        ensures
            n is None <==> self == TerminalSet::Effects,
            n matches Some(p) ==> p.rank() == self.rank() + 1,
    {
        match self {
            TerminalSet::AppTick => Some(TerminalSet::Sync),
            TerminalSet::Sync => Some(TerminalSet::ResetTransforms),
            TerminalSet::ResetTransforms => Some(TerminalSet::Effects),
            TerminalSet::Effects => None,
        }
    }
}

} // verus!
