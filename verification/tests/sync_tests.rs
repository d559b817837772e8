use bevy_terminal_emu::atlas::{build_atlas_data_for_chars, FontAtlasResource};
use bevy_terminal_emu::backend::{BevyBackend, BufferCell, BOLD, DIM, ITALIC, UNDERLINED};
use bevy_terminal_emu::color::{Rgba, TermColor};
use bevy_terminal_emu::grid::{
    spawn_grid, BackgroundSprite, CellEntityIndex, CellStyle, ForegroundSprite, GridPosition,
    TerminalCell, TerminalGrid,
};
use bevy_terminal_emu::sync::{resolve_style, sync_buffer_to_entities, SyncGeneration};
use bevy_terminal_emu::units::{Vec2, Vec3};
use bevy_terminal_emu::{CellMetrics, FontSource, TerminalConfig, TerminalLayout, TerminalSet};

const TINY_FONT: [u8; 752] = [
    0x00, 0x01, 0x00, 0x00, 0x00, 0x07, 0x00, 0x40, 0x00, 0x02, 0x00, 0x30, 0x63, 0x6d, 0x61, 0x70,
    0x01, 0xc1, 0x00, 0x52, 0x00, 0x00, 0x00, 0x7c, 0x00, 0x00, 0x00, 0x34, 0x67, 0x6c, 0x79, 0x66,
    0x21, 0xb8, 0x53, 0x1b, 0x00, 0x00, 0x00, 0xb0, 0x00, 0x00, 0x00, 0x3c, 0x68, 0x65, 0x61, 0x64,
    0x61, 0x6b, 0x43, 0xa1, 0x00, 0x00, 0x00, 0xec, 0x00, 0x00, 0x00, 0x36, 0x68, 0x68, 0x65, 0x61,
    0x05, 0x7a, 0x01, 0x92, 0x00, 0x00, 0x01, 0x24, 0x00, 0x00, 0x00, 0x24, 0x68, 0x6d, 0x74, 0x78,
    0x02, 0x58, 0x00, 0x00, 0x00, 0x00, 0x01, 0x48, 0x00, 0x00, 0x00, 0xc4, 0x6c, 0x6f, 0x63, 0x61,
    0x01, 0xd1, 0x01, 0xef, 0x00, 0x00, 0x02, 0x0c, 0x00, 0x00, 0x00, 0xc4, 0x6d, 0x61, 0x78, 0x70,
    0x00, 0x63, 0x00, 0x04, 0x00, 0x00, 0x02, 0xd0, 0x00, 0x00, 0x00, 0x20, 0x00, 0x00, 0x00, 0x01,
    0x00, 0x00, 0x00, 0x03, 0x00, 0x00, 0x00, 0x0c, 0x00, 0x04, 0x00, 0x28, 0x00, 0x00, 0x00, 0x06,
    0x00, 0x04, 0x00, 0x01, 0x00, 0x02, 0x00, 0x7e, 0x00, 0xe9, 0xff, 0xff, 0x00, 0x00, 0x00, 0x20,
    0x00, 0xe9, 0xff, 0xff, 0xff, 0xe1, 0xff, 0x77, 0x00, 0x01, 0x00, 0x00, 0x00, 0x00, 0x00, 0x00,
    0x00, 0x01, 0x00, 0x64, 0x00, 0x00, 0x01, 0xf4, 0x02, 0x58, 0x00, 0x02, 0x00, 0x00, 0x01, 0x01,
    0x01, 0x00, 0x64, 0x01, 0x90, 0xff, 0x38, 0x00, 0x00, 0x00, 0x00, 0x02, 0x58, 0x00, 0x00, 0x01,
    0x00, 0x32, 0x00, 0x00, 0x02, 0x26, 0x02, 0xbc, 0x00, 0x02, 0x00, 0x00, 0x01, 0x01, 0x01, 0x00,
    0x32, 0x01, 0xf4, 0x00, 0x00, 0x00, 0x00, 0x00, 0x00, 0x02, 0xbc, 0x00, 0x00, 0x01, 0x00, 0x00,
    0x00, 0x01, 0x00, 0x00, 0x00, 0x00, 0x00, 0x00, 0x5f, 0x0f, 0x3c, 0xf5, 0x00, 0x00, 0x03, 0xe8,
    0x00, 0x00, 0x00, 0x00, 0x00, 0x00, 0x00, 0x00, 0x00, 0x00, 0x00, 0x00, 0x00, 0x00, 0x00, 0x00,
    0x00, 0x00, 0x00, 0x00, 0x02, 0x58, 0x02, 0xbc, 0x00, 0x00, 0x00, 0x08, 0x00, 0x02, 0x00, 0x00,
    0x00, 0x00, 0x00, 0x00, 0x00, 0x01, 0x00, 0x00, 0x03, 0x20, 0xff, 0x38, 0x00, 0x00, 0x02, 0x58,
    0x00, 0x00, 0x00, 0x00, 0x02, 0x58, 0x00, 0x01, 0x00, 0x00, 0x00, 0x00, 0x00, 0x00, 0x00, 0x00,
    0x00, 0x00, 0x00, 0x00, 0x00, 0x00, 0x00, 0x01, 0x02, 0x58, 0x00, 0x00, 0x00, 0x00, 0x00, 0x00,
    0x00, 0x00, 0x00, 0x00, 0x00, 0x00, 0x00, 0x00, 0x00, 0x00, 0x00, 0x00, 0x00, 0x00, 0x00, 0x00,
    0x00, 0x00, 0x00, 0x00, 0x00, 0x00, 0x00, 0x00, 0x00, 0x00, 0x00, 0x00, 0x00, 0x00, 0x00, 0x00,
    0x00, 0x00, 0x00, 0x00, 0x00, 0x00, 0x00, 0x00, 0x00, 0x00, 0x00, 0x00, 0x00, 0x00, 0x00, 0x00,
    0x00, 0x00, 0x00, 0x00, 0x00, 0x00, 0x00, 0x00, 0x00, 0x00, 0x00, 0x00, 0x00, 0x00, 0x00, 0x00,
    0x00, 0x00, 0x00, 0x00, 0x00, 0x00, 0x00, 0x00, 0x00, 0x00, 0x00, 0x00, 0x00, 0x00, 0x00, 0x00,
    0x00, 0x00, 0x00, 0x00, 0x00, 0x00, 0x00, 0x00, 0x00, 0x00, 0x00, 0x00, 0x00, 0x00, 0x00, 0x00,
    0x00, 0x00, 0x00, 0x00, 0x00, 0x00, 0x00, 0x00, 0x00, 0x00, 0x00, 0x00, 0x00, 0x00, 0x00, 0x00,
    0x00, 0x00, 0x00, 0x00, 0x00, 0x00, 0x00, 0x00, 0x00, 0x00, 0x00, 0x00, 0x00, 0x00, 0x00, 0x00,
    0x00, 0x00, 0x00, 0x00, 0x00, 0x00, 0x00, 0x00, 0x00, 0x00, 0x00, 0x00, 0x00, 0x00, 0x00, 0x00,
    0x00, 0x00, 0x00, 0x00, 0x00, 0x00, 0x00, 0x00, 0x00, 0x00, 0x00, 0x00, 0x00, 0x00, 0x00, 0x00,
    0x00, 0x00, 0x00, 0x00, 0x00, 0x00, 0x00, 0x00, 0x00, 0x00, 0x00, 0x00, 0x00, 0x00, 0x00, 0x00,
    0x00, 0x00, 0x00, 0x00, 0x00, 0x00, 0x00, 0x00, 0x00, 0x00, 0x00, 0x00, 0x00, 0x00, 0x00, 0x00,
    0x00, 0x00, 0x00, 0x00, 0x00, 0x00, 0x00, 0x00, 0x00, 0x00, 0x00, 0x00, 0x00, 0x00, 0x00, 0x00,
    0x00, 0x00, 0x00, 0x00, 0x00, 0x00, 0x00, 0x00, 0x00, 0x00, 0x00, 0x00, 0x00, 0x00, 0x00, 0x00,
    0x00, 0x00, 0x00, 0x00, 0x00, 0x00, 0x00, 0x00, 0x00, 0x00, 0x00, 0x00, 0x00, 0x00, 0x00, 0x00,
    0x00, 0x00, 0x00, 0x00, 0x00, 0x00, 0x00, 0x00, 0x00, 0x00, 0x00, 0x00, 0x00, 0x00, 0x00, 0x00,
    0x00, 0x00, 0x00, 0x0f, 0x00, 0x0f, 0x00, 0x0f, 0x00, 0x0f, 0x00, 0x0f, 0x00, 0x0f, 0x00, 0x0f,
    0x00, 0x0f, 0x00, 0x0f, 0x00, 0x0f, 0x00, 0x0f, 0x00, 0x0f, 0x00, 0x0f, 0x00, 0x0f, 0x00, 0x0f,
    0x00, 0x0f, 0x00, 0x0f, 0x00, 0x0f, 0x00, 0x0f, 0x00, 0x0f, 0x00, 0x0f, 0x00, 0x0f, 0x00, 0x0f,
    0x00, 0x0f, 0x00, 0x0f, 0x00, 0x0f, 0x00, 0x0f, 0x00, 0x0f, 0x00, 0x0f, 0x00, 0x0f, 0x00, 0x0f,
    0x00, 0x0f, 0x00, 0x0f, 0x00, 0x0f, 0x00, 0x0f, 0x00, 0x0f, 0x00, 0x0f, 0x00, 0x0f, 0x00, 0x0f,
    0x00, 0x0f, 0x00, 0x0f, 0x00, 0x0f, 0x00, 0x0f, 0x00, 0x0f, 0x00, 0x0f, 0x00, 0x0f, 0x00, 0x0f,
    0x00, 0x0f, 0x00, 0x0f, 0x00, 0x0f, 0x00, 0x0f, 0x00, 0x0f, 0x00, 0x0f, 0x00, 0x0f, 0x00, 0x0f,
    0x00, 0x0f, 0x00, 0x0f, 0x00, 0x0f, 0x00, 0x0f, 0x00, 0x0f, 0x00, 0x0f, 0x00, 0x0f, 0x00, 0x1e,
    0x00, 0x01, 0x00, 0x00, 0x00, 0x61, 0x00, 0x03, 0x00, 0x01, 0x00, 0x00, 0x00, 0x00, 0x00, 0x01,
    0x00, 0x00, 0x00, 0x00, 0x00, 0x00, 0x00, 0x00, 0x00, 0x00, 0x00, 0x00, 0x00, 0x00, 0x00, 0x00,
];

struct World {
    backend: BevyBackend,
    config: TerminalConfig,
    atlas: FontAtlasResource,
    grid: TerminalGrid,
    seen: SyncGeneration,
}

fn world(columns: u16, rows: u16, chars: &[char]) -> World {
    let mut config = TerminalConfig::default();
    config.columns = columns;
    config.rows = rows;
    let layout = TerminalLayout::from_config(&config, CellMetrics { width: 12_000, height: 24_000 });
    let atlas = build_atlas_data_for_chars(TINY_FONT.to_vec(), 20_000, 1000, 12, 24, chars).unwrap();
    let space = atlas.glyph_index(' ').unwrap_or(0);
    let grid = spawn_grid(&config, &layout, space);
    World { backend: BevyBackend::new(columns, rows), config, atlas, grid, seen: SyncGeneration::default() }
}

fn sync(w: &mut World) -> Vec<usize> {
    sync_buffer_to_entities(&mut w.backend, &w.config, &mut w.atlas, &mut w.grid, &mut w.seen)
}

fn cell(ch: char) -> BufferCell {
    BufferCell { symbol: ch, fg: TermColor::Reset, bg: TermColor::Reset, modifier: 0 }
}

const DEFAULT_FG: Rgba = Rgba { r: 4590, g: 4590, b: 4590, a: 5100 };
const DEFAULT_BG: Rgba = Rgba { r: 510, g: 510, b: 510, a: 5100 };

#[test]
fn sync_is_skipped_until_the_buffer_is_flushed() {
    let mut w = world(4, 2, &[' ', 'A']);
    w.backend.draw(vec![(1, 0, cell('A'))]);
    let before: Vec<TerminalCell> = w.grid.cells().to_vec();
    assert_eq!(sync(&mut w), Vec::<usize>::new());
    assert_eq!(w.grid.cells(), before.as_slice());
    assert_eq!(w.backend.dirty_cells(), &[true; 8]);
    assert_eq!(w.seen, SyncGeneration(0));
}

#[test]
fn first_sync_after_a_flush_paints_every_dirty_cell() {
    let mut w = world(4, 2, &[' ', 'A']);
    w.backend.draw(vec![(1, 0, cell('A'))]);
    w.backend.flush();
    // Every cell starts dirty, and the configured default colors differ
    // from the colors of a fresh cell, so every cell changes.
    assert_eq!(sync(&mut w), (0..8).collect::<Vec<usize>>());
    assert_eq!(w.seen, SyncGeneration(1));
    assert_eq!(w.backend.dirty_cells(), &[false; 8]);
    let a = w.grid.get(1, 0).unwrap();
    assert_eq!(a.style.symbol, 'A');
    assert_eq!(a.style.fg, DEFAULT_FG);
    assert_eq!(a.style.bg, DEFAULT_BG);
    assert_eq!(a.foreground.glyph, 1);
    assert_eq!(a.foreground.color, DEFAULT_FG);
    assert_eq!(a.background.color, DEFAULT_BG);
    let blank = w.grid.get(0, 0).unwrap();
    assert_eq!(blank.style.symbol, ' ');
    assert_eq!(blank.foreground.glyph, 0);
}

#[test]
fn second_sync_with_the_same_generation_writes_nothing() {
    let mut w = world(4, 2, &[' ', 'A']);
    w.backend.draw(vec![(1, 0, cell('A'))]);
    w.backend.flush();
    assert_eq!(sync(&mut w).len(), 8);
    // Writes that were not flushed are not seen.
    w.backend.draw(vec![(2, 1, cell('A'))]);
    let cells: Vec<TerminalCell> = w.grid.cells().to_vec();
    let dirty: Vec<bool> = w.backend.dirty_cells().to_vec();
    let pending = w.atlas.pending_glyphs().to_vec();
    assert_eq!(sync(&mut w), Vec::<usize>::new());
    assert_eq!(w.grid.cells(), cells.as_slice());
    assert_eq!(w.backend.dirty_cells(), dirty.as_slice());
    assert_eq!(w.atlas.pending_glyphs(), pending.as_slice());
    assert_eq!(w.seen, SyncGeneration(1));
}

#[test]
fn only_dirty_cells_are_touched() {
    let mut w = world(4, 2, &[' ', 'A']);
    w.backend.flush();
    sync(&mut w);
    w.backend.draw(vec![(3, 1, cell('A')), (0, 0, cell('A'))]);
    w.backend.flush();
    assert_eq!(sync(&mut w), vec![0, 7]);
    assert_eq!(w.grid.cell(7).style.symbol, 'A');
    assert_eq!(w.grid.cell(0).style.symbol, 'A');
    assert_eq!(w.grid.cell(1).style.symbol, ' ');
}

#[test]
fn a_dirty_cell_with_unchanged_content_gives_no_signal() {
    let mut w = world(4, 2, &[' ', 'A']);
    w.backend.draw(vec![(1, 0, cell('A'))]);
    w.backend.flush();
    sync(&mut w);
    // The same content again: dirty, but equal to what is stored.
    w.backend.draw(vec![(1, 0, cell('A')), (2, 0, cell(' '))]);
    w.backend.flush();
    let cells: Vec<TerminalCell> = w.grid.cells().to_vec();
    assert_eq!(sync(&mut w), Vec::<usize>::new());
    assert_eq!(w.grid.cells(), cells.as_slice());
    assert_eq!(w.backend.dirty_cells(), &[false; 8]);
    assert_eq!(w.seen, SyncGeneration(2));
}

#[test]
fn a_change_of_one_field_is_signalled() {
    let mut w = world(2, 1, &[' ', 'A']);
    w.backend.draw(vec![(0, 0, cell('A'))]);
    w.backend.flush();
    sync(&mut w);
    let variants = [
        BufferCell { symbol: 'A', fg: TermColor::Red, bg: TermColor::Reset, modifier: 0 },
        BufferCell { symbol: 'A', fg: TermColor::Red, bg: TermColor::Blue, modifier: 0 },
        BufferCell { symbol: 'A', fg: TermColor::Red, bg: TermColor::Blue, modifier: BOLD },
        BufferCell { symbol: 'A', fg: TermColor::Red, bg: TermColor::Blue, modifier: BOLD | ITALIC },
        BufferCell { symbol: 'A', fg: TermColor::Red, bg: TermColor::Blue, modifier: BOLD | ITALIC | UNDERLINED },
        BufferCell { symbol: 'A', fg: TermColor::Red, bg: TermColor::Blue, modifier: BOLD | ITALIC | UNDERLINED | DIM },
        BufferCell { symbol: ' ', fg: TermColor::Red, bg: TermColor::Blue, modifier: BOLD | ITALIC | UNDERLINED | DIM },
    ];
    for v in variants {
        w.backend.draw(vec![(0, 0, v)]);
        w.backend.flush();
        assert_eq!(sync(&mut w), vec![0], "{:?}", v);
        assert_eq!(w.grid.cell(0).style, resolve_style(&v, &w.config));
    }
}

#[test]
fn colors_and_flags_are_resolved() {
    let mut w = world(2, 1, &[' ', 'A']);
    let source = BufferCell {
        symbol: 'A',
        fg: TermColor::Indexed(196),
        bg: TermColor::Rgb(0, 128, 255),
        modifier: BOLD | UNDERLINED | 0x100,
    };
    w.backend.draw(vec![(1, 0, source)]);
    w.backend.flush();
    sync(&mut w);
    let c = w.grid.cell(1);
    assert_eq!(
        c.style,
        CellStyle {
            fg: Rgba { r: 5100, g: 0, b: 0, a: 5100 },
            bg: Rgba { r: 0, g: 2560, b: 5100, a: 5100 },
            bold: true,
            italic: false,
            underlined: true,
            dim: false,
            symbol: 'A',
        }
    );
    assert_eq!(c.background, BackgroundSprite { color: Rgba { r: 0, g: 2560, b: 5100, a: 5100 } });
    assert_eq!(c.foreground, ForegroundSprite { color: Rgba { r: 5100, g: 0, b: 0, a: 5100 }, glyph: 1 });
}

#[test]
fn dim_halves_the_alpha_of_the_glyph() {
    let mut w = world(2, 1, &[' ', 'A']);
    w.config.default_fg = Rgba { r: 100, g: 200, b: 300, a: 4001 };
    w.backend.draw(vec![
        (0, 0, BufferCell { symbol: 'A', fg: TermColor::Green, bg: TermColor::Reset, modifier: DIM }),
        (1, 0, BufferCell { symbol: 'A', fg: TermColor::Reset, bg: TermColor::Reset, modifier: DIM }),
    ]);
    w.backend.flush();
    sync(&mut w);
    let c = w.grid.cell(0);
    assert!(c.style.dim);
    assert_eq!(c.style.fg, Rgba { r: 0, g: 4080, b: 0, a: 5100 });
    assert_eq!(c.foreground.color, Rgba { r: 0, g: 4080, b: 0, a: 2550 });
    assert_eq!(c.style.glyph_color(), c.foreground.color);
    let d = w.grid.cell(1);
    assert_eq!(d.style.fg, Rgba { r: 100, g: 200, b: 300, a: 4001 });
    assert_eq!(d.foreground.color, Rgba { r: 100, g: 200, b: 300, a: 2000 });
}

#[test]
fn unknown_glyph_shows_the_space_and_is_queued() {
    let mut w = world(4, 1, &[' ', 'A', 'B']);
    w.backend.draw(vec![(0, 0, cell('\u{e9}')), (1, 0, cell('Z')), (2, 0, cell('\u{e9}')), (3, 0, cell('B'))]);
    w.backend.flush();
    sync(&mut w);
    assert_eq!(w.grid.cell(0).style.symbol, '\u{e9}');
    assert_eq!(w.grid.cell(0).foreground.glyph, 0);
    assert_eq!(w.grid.cell(1).foreground.glyph, 0);
    assert_eq!(w.grid.cell(3).foreground.glyph, 2);
    assert_eq!(w.atlas.pending_glyphs(), &['Z', '\u{e9}']);
    assert_eq!(w.atlas.chars(), &[' ', 'A', 'B']);
}

#[test]
fn a_space_that_has_no_tile_is_queued_like_any_other_symbol() {
    let mut w = world(2, 1, &['A', 'B']);
    w.backend.draw(vec![(0, 0, cell(' ')), (1, 0, cell('B'))]);
    w.backend.flush();
    sync(&mut w);
    assert_eq!(w.atlas.pending_glyphs(), &[' ']);
    // Without a space in the atlas the fallback tile is tile 0.
    assert_eq!(w.grid.cell(0).foreground.glyph, 0);
    assert_eq!(w.grid.cell(1).foreground.glyph, 1);
    // The font has no outline for the space, so upkeep drops it again.
    assert!(!bevy_terminal_emu::atlas::expand_font_atlas(&mut w.atlas, &mut w.backend));
    assert!(w.atlas.pending_glyphs().is_empty());
    assert_eq!(w.atlas.chars(), &['A', 'B']);
}

#[test]
fn queued_glyph_arrives_one_tick_later() {
    let mut w = world(2, 1, &[' ', 'A']);
    w.backend.draw(vec![(0, 0, cell('\u{e9}'))]);
    w.backend.flush();
    sync(&mut w);
    assert_eq!(w.grid.cell(0).foreground.glyph, 0);
    // Next tick: upkeep first, then sync after the next flush.
    assert!(bevy_terminal_emu::atlas::expand_font_atlas(&mut w.atlas, &mut w.backend));
    w.backend.flush();
    assert_eq!(sync(&mut w), vec![0]);
    assert_eq!(w.grid.cell(0).foreground.glyph, 2);
}

#[test]
fn sync_leaves_poses_alone() {
    let mut w = world(3, 2, &[' ', 'A']);
    let poses: Vec<_> = w.grid.cells().iter().map(|c| (c.base, c.transform, c.velocity, c.position)).collect();
    w.backend.draw(vec![(1, 1, cell('A'))]);
    w.backend.flush();
    sync(&mut w);
    let after: Vec<_> = w.grid.cells().iter().map(|c| (c.base, c.transform, c.velocity, c.position)).collect();
    assert_eq!(poses, after);
}

#[test]
fn grid_larger_than_the_buffer_syncs_the_common_part() {
    let mut w = world(3, 2, &[' ', 'A']);
    w.backend = BevyBackend::new(2, 1);
    w.backend.draw(vec![(0, 0, cell('A')), (1, 0, cell('A'))]);
    w.backend.flush();
    assert_eq!(sync(&mut w), vec![0, 1]);
    assert_eq!(w.grid.cell(2).style, CellStyle::default());
    assert_eq!(w.grid.cell(3).style, CellStyle::default());
}

#[test]
fn buffer_larger_than_the_grid_syncs_the_common_part() {
    let mut w = world(2, 1, &[' ', 'A']);
    w.backend = BevyBackend::new(3, 2);
    w.backend.draw(vec![(0, 0, cell('A')), (2, 0, cell('\u{e9}')), (1, 1, cell('\u{e9}'))]);
    w.backend.flush();
    assert_eq!(sync(&mut w), vec![0, 1]);
    assert_eq!(w.grid.cell(0).style.symbol, 'A');
    // Cells outside the grid are not looked at, so their symbols are not queued.
    assert!(w.atlas.pending_glyphs().is_empty());
    assert_eq!(w.backend.dirty_cells(), &[false; 6]);
}

#[test]
fn spawned_grid_is_fresh_and_laid_out() {
    let mut config = TerminalConfig::default();
    config.columns = 80;
    config.rows = 24;
    config.z_layer = 7;
    let layout = TerminalLayout::from_config(&config, CellMetrics { width: 12_000, height: 24_000 });
    assert_eq!(layout.cell_width, 12_000);
    assert_eq!(layout.cell_height, 24_000);
    assert_eq!(layout.origin, Vec2 { x: -480_000, y: 288_000 });
    assert_eq!(layout.bg_sprite_size(), Vec2 { x: 12_500, y: 24_500 });
    let grid = spawn_grid(&config, &layout, 5);
    assert_eq!(grid.len(), 80 * 24);
    assert_eq!(grid.columns(), 80);
    assert_eq!(grid.rows(), 24);
    for (i, c) in grid.cells().iter().enumerate() {
        let (col, row) = ((i % 80) as i64, (i / 80) as i64);
        assert_eq!(c.position, GridPosition { col: col as u16, row: row as u16 });
        assert_eq!(
            c.base.translation,
            Vec3 { x: -480_000 + col * 12_000 + 6_000, y: 288_000 - row * 24_000 - 12_000, z: 7 }
        );
        assert_eq!(c.base.rotation, 0);
        assert_eq!(c.base.scale, Vec3 { x: 1000, y: 1000, z: 1000 });
        assert_eq!(c.transform, c.base.to_transform());
        assert_eq!(c.style, CellStyle::default());
        assert_eq!(c.foreground, ForegroundSprite { color: Rgba { r: 5100, g: 5100, b: 5100, a: 5100 }, glyph: 5 });
        assert_eq!(c.background, BackgroundSprite::default());
        assert_eq!(c.velocity.velocity, Vec2 { x: 0, y: 0 });
    }
    assert!(grid.get(80, 0).is_none());
    assert!(grid.get(0, 24).is_none());
    assert_eq!(grid.get(79, 23).unwrap().position, GridPosition { col: 79, row: 23 });
    assert_eq!(layout.cell_center(0, 0), Vec2 { x: -474_000, y: 276_000 });
}

#[test]
fn layout_takes_the_cell_of_the_font_unrounded() {
    let mut config = TerminalConfig::default();
    config.columns = 80;
    config.rows = 24;
    let metrics = CellMetrics { width: 11_100, height: 23_501 };
    let layout = TerminalLayout::from_config(&config, metrics);
    assert_eq!(layout.cell_width, 11_100);
    assert_eq!(layout.cell_height, 23_501);
    assert_eq!(layout.origin, Vec2 { x: -444_000, y: 282_012 });
    assert_eq!(layout.cell_center(0, 0), Vec2 { x: -444_000 + 5_550, y: 282_012 - 11_750 });
    assert_eq!(layout.cell_center(79, 23), Vec2 { x: -444_000 + 79 * 11_100 + 5_550, y: 282_012 - 23 * 23_501 - 11_750 });
    // Raster buffers round the same metrics up to whole pixels.
    assert_eq!(metrics.raster_size(), (12, 24));
    // A font with a tiny cell gives a tiny cell, not a whole pixel.
    let tiny = TerminalLayout::from_config(&config, CellMetrics { width: 1, height: 1 });
    assert_eq!((tiny.cell_width, tiny.cell_height), (1, 1));
    assert_eq!(tiny.origin, Vec2 { x: -40, y: 12 });
}

#[test]
fn layout_overrides_are_taken_as_they_are() {
    let mut config = TerminalConfig::default();
    config.columns = 3;
    config.rows = 3;
    config.cell_size_override = Some(Vec2 { x: 10_500, y: 20_250 });
    let layout = TerminalLayout::from_config(&config, CellMetrics { width: 1, height: 1 });
    assert_eq!(layout.cell_width, 10_500);
    assert_eq!(layout.cell_height, 20_250);
    assert_eq!(layout.origin, Vec2 { x: -15_750, y: 30_375 });
    config.origin_override = Some(Vec2 { x: 100, y: -200 });
    let layout = TerminalLayout::from_config(&config, CellMetrics { width: 1, height: 1 });
    assert_eq!(layout.origin, Vec2 { x: 100, y: -200 });
    assert_eq!(layout.cell_center(2, 1), Vec2 { x: 100 + 21_000 + 5_250, y: -200 - 20_250 - 10_125 });
}

#[test]
fn metrics_round_up_to_whole_pixels() {
    assert_eq!(CellMetrics { width: 0, height: 1 }.raster_size(), (0, 1));
    assert_eq!(CellMetrics { width: 1000, height: 1001 }.raster_size(), (1, 2));
    assert_eq!(CellMetrics { width: 11_999, height: 12_000 }.raster_size(), (12, 12));
    assert_eq!(CellMetrics { width: u32::MAX, height: 0 }.raster_size(), (4_294_968, 0));
}

#[test]
fn default_configuration() {
    let c = TerminalConfig::default();
    assert_eq!(c.columns, 80);
    assert_eq!(c.rows, 24);
    assert_eq!(c.font_size, 20_000);
    assert!(matches!(c.font, FontSource::Default));
    assert_eq!(c.default_fg, DEFAULT_FG);
    assert_eq!(c.default_bg, DEFAULT_BG);
    assert_eq!(c.origin_override, None);
    assert_eq!(c.z_layer, 0);
    assert!(c.receive_input);
    assert_eq!(c.cell_size_override, None);
    assert_eq!(c.render_layer, None);
}

#[test]
fn font_source_bytes() {
    assert_eq!(FontSource::Default.bytes(), None);
    assert_eq!(FontSource::Custom(vec![1, 2, 3]).bytes(), Some(&[1u8, 2, 3][..]));
}

#[test]
fn entity_index_lookup() {
    let index = CellEntityIndex {
        entities: (100..106).collect(),
        fg_entities: (200..206).collect(),
        columns: 3,
        rows: 2,
    };
    assert_eq!(index.get(0, 0), Some(100));
    assert_eq!(index.get(2, 1), Some(105));
    assert_eq!(index.get_fg(1, 1), Some(204));
    assert_eq!(index.get(3, 0), None);
    assert_eq!(index.get_fg(0, 2), None);
}

#[test]
fn phases_run_in_their_order() {
    assert_eq!(TerminalSet::AppTick.next(), Some(TerminalSet::Sync));
    assert_eq!(TerminalSet::Sync.next(), Some(TerminalSet::ResetTransforms));
    assert_eq!(TerminalSet::ResetTransforms.next(), Some(TerminalSet::Effects));
    assert_eq!(TerminalSet::Effects.next(), None);
}
