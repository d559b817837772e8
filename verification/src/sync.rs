//! Diff-sync: makes the grid agree with the character buffer, touching
//! only what changed.
//!
//! A sync is skipped outright when the buffer was not flushed since the
//! last one. Otherwise each cell whose buffer cell is marked dirty takes
//! the resolved content of that buffer cell, the markers are cleared, and
//! every symbol that has no tile yet is queued for the atlas while the
//! cell shows the tile of the space in its place.

use crate::TerminalConfig;
use crate::atlas::{AtlasView, FontAtlasResource};
use crate::atlas::charset::{ascending_of, lemma_ascending_of_own_set};
use crate::backend::{BackendView, BevyBackend, BOLD, BufferCell, DIM, ITALIC, UNDERLINED};
use crate::color::{ratatui_bg_to_bevy, ratatui_fg_to_bevy, resolved_or};
use crate::grid::{
    BackgroundSprite, CellStyle, ForegroundSprite, GridView, TerminalCell, TerminalGrid,
};
use vstd::prelude::*;

verus! {

/// The buffer generation that the last sync saw.
#[derive(Clone, Copy, Debug, PartialEq, Eq, Structural)]
pub struct SyncGeneration(pub u64);

impl Default for SyncGeneration {
    fn default() -> (g: SyncGeneration)
        ensures
            g.0 == 0,
    {
        SyncGeneration(0)
    }
}

/// What a buffer cell shows once its colors are resolved against the
/// configured defaults and its style bits are read.
pub open spec fn resolved_style(cell: BufferCell, config: TerminalConfig) -> CellStyle {
    CellStyle {
        fg: resolved_or(cell.fg, config.default_fg),
        bg: resolved_or(cell.bg, config.default_bg),
        bold: cell.modifier & BOLD != 0,
        italic: cell.modifier & ITALIC != 0,
        underlined: cell.modifier & UNDERLINED != 0,
        dim: cell.modifier & DIM != 0,
        symbol: cell.symbol,
    }
}

/// The tile that stands for `symbol` in an atlas that holds `chars`: its
/// own if it has one, else the one of the space, else tile 0.
pub open spec fn tile_for(chars: Seq<char>, symbol: char) -> usize {
    if chars.contains(symbol) {
        chars.index_of(symbol) as usize
    } else if chars.contains(' ') {
        chars.index_of(' ') as usize
    } else {
        0
    }
}

/// A cell after it took the content of a buffer cell; pose and velocity
/// stay.
pub open spec fn synced_cell(
    cell: TerminalCell,
    source: BufferCell,
    config: TerminalConfig,
    chars: Seq<char>,
) -> TerminalCell {
    let style = resolved_style(source, config);
    TerminalCell {
        style,
        background: BackgroundSprite { color: style.bg },
        foreground: ForegroundSprite { color: style.shown_fg(), glyph: tile_for(chars, style.symbol) },
        ..cell
    }
}

/// Everything that a sync reads or writes.
pub struct SyncWorld {
    pub backend: BackendView,
    pub atlas: AtlasView,
    pub grid: GridView,
    /// The generation that the last sync saw.
    pub seen: u64,
}

impl SyncWorld {
    /// Buffer, atlas and grid are each consistent.
    pub open spec fn wf(self) -> bool {
        &&& self.backend.cells.len() == self.backend.width * self.backend.height
        &&& self.backend.dirty.len() == self.backend.cells.len()
        &&& self.atlas.wf()
        &&& self.grid.wf()
    }

    /// The buffer was flushed since the last sync.
    pub open spec fn stale(self) -> bool {
        self.backend.generation != self.seen
    }

    /// The buffer index of grid cell `i`.
    pub open spec fn source_index(self, i: int) -> int {
        let p = self.grid.position_of(i);
        self.backend.index_of(p.col as int, p.row as int)
    }

    /// Grid cell `i` has a buffer cell and that buffer cell is marked
    /// dirty.
    pub open spec fn dirty(self, i: int) -> bool {
        let p = self.grid.position_of(i);
        &&& 0 <= i < self.grid.cells.len()
        &&& self.backend.in_bounds(p.col as int, p.row as int)
        &&& self.backend.dirty[self.source_index(i)]
    }

    /// What grid cell `i` becomes if it is synced.
    pub open spec fn target(self, i: int, config: TerminalConfig) -> TerminalCell {
        synced_cell(
            self.grid.cells[i],
            self.backend.cells[self.source_index(i)],
            config,
            self.atlas.chars,
        )
    }

    /// A sync changes grid cell `i`: the cell is dirty and at least one
    /// field of it differs from what the buffer resolves to.
    pub open spec fn changes(self, i: int, config: TerminalConfig) -> bool {
        self.stale() && self.dirty(i) && self.target(i, config) != self.grid.cells[i]
    }

    /// A sync meets `c` in a dirty cell, and `c` has no tile.
    pub open spec fn misses(self, c: char, below: int) -> bool {
        exists|i: int|
            0 <= i < below && #[trigger] self.dirty(i) && self.backend.cells[self.source_index(
                i,
            )].symbol == c && !self.atlas.chars.contains(c)
    }

    /// The characters that a sync finds missing from the atlas.
    pub open spec fn missed(self) -> Set<char> {
        Set::new(|c: char| self.misses(c, self.grid.cells.len() as int))
    }

    /// The world after a sync.
    pub open spec fn synced(self, config: TerminalConfig) -> SyncWorld {
        if !self.stale() {
            self
        } else {
            SyncWorld {
                backend: BackendView {
                    dirty: Seq::new(self.backend.dirty.len(), |i: int| false),
                    ..self.backend
                },
                atlas: AtlasView {
                    pending: ascending_of(self.atlas.pending.to_set().union(self.missed())),
                    ..self.atlas
                },
                grid: GridView {
                    cells: Seq::new(
                        self.grid.cells.len(),
                        |i: int|
                            if self.dirty(i) {
                                self.target(i, config)
                            } else {
                                self.grid.cells[i]
                            },
                    ),
                    ..self.grid
                },
                seen: self.backend.generation,
            }
        }
    }

    /// `list` names, in ascending order and once each, the cells that a
    /// sync changes.
    pub open spec fn lists_changes(self, list: Seq<usize>, config: TerminalConfig) -> bool {
        &&& forall|a: int, b: int| 0 <= a < b < list.len() ==> list[a] < list[b]
        &&& forall|i: int| list.contains(i as usize) && 0 <= i <= usize::MAX <==> self.changes(i, config)
    }
}

/// Resolves one buffer cell.
pub fn resolve_style(cell: &BufferCell, config: &TerminalConfig) -> (s: CellStyle)
    ensures
        s == resolved_style(*cell, *config),
{
    CellStyle {
        fg: ratatui_fg_to_bevy(cell.fg, config.default_fg),
        bg: ratatui_bg_to_bevy(cell.bg, config.default_bg),
        bold: cell.modifier & BOLD != 0,
        italic: cell.modifier & ITALIC != 0,
        underlined: cell.modifier & UNDERLINED != 0,
        dim: cell.modifier & DIM != 0,
        symbol: cell.symbol,
    }
}

/// The world that a sync works on.
pub open spec fn world(
    backend: &BevyBackend,
    atlas: &FontAtlasResource,
    grid: &TerminalGrid,
    seen: &SyncGeneration,
) -> SyncWorld {
    SyncWorld { backend: backend@, atlas: atlas@, grid: grid@, seen: seen.0 }
}

/// Brings the grid up to date with the buffer and returns the indices of
/// the cells that changed, ascending. Does nothing at all, and returns no
/// index, when the buffer's generation is the one that the last sync saw.
pub fn sync_buffer_to_entities(
    backend: &mut BevyBackend,
    config: &TerminalConfig,
    atlas: &mut FontAtlasResource,
    grid: &mut TerminalGrid,
    sync_gen: &mut SyncGeneration,
) -> (changed: Vec<usize>)
    requires
        old(backend).wf(),
        old(atlas).wf(),
        old(grid).wf(),
    ensures
        final(backend).wf(),
        final(atlas).wf(),
        final(grid).wf(),
        world(final(backend), final(atlas), final(grid), final(sync_gen)) == world(
            old(backend),
            old(atlas),
            old(grid),
            old(sync_gen),
        ).synced(*config),
        world(old(backend), old(atlas), old(grid), old(sync_gen)).lists_changes(changed@, *config),
        final(sync_gen).0 == final(backend)@.generation,
        world(old(backend), old(atlas), old(grid), old(sync_gen)).stale() ==> final(atlas)@.pending.to_set()
            == old(atlas)@.pending.to_set().union(
            world(old(backend), old(atlas), old(grid), old(sync_gen)).missed(),
        ),
{
    let ghost w = world(backend, atlas, grid, sync_gen);
    let mut changed: Vec<usize> = Vec::new();
    let generation = backend.generation();
    if generation == sync_gen.0 {
        return changed;
    }
    sync_gen.0 = generation;
    let space_index: usize = match atlas.glyph_index(' ') {
        Some(i) => i,
        None => 0,
    };
    let width: u16 = backend.size().width;
    let n: usize = grid.len();
    let mut i: usize = 0;
    proof {
        assert(atlas@.pending.to_set() =~= w.atlas.pending.to_set().union(
            Set::new(|c: char| w.misses(c, 0)),
        ));
    }
    while i < n
        invariant
            i <= n,
            n == w.grid.cells.len(),
            w.wf(),
            w.stale(),
            backend.wf(),
            atlas.wf(),
            grid.wf(),
            backend@ == w.backend,
            width == w.backend.width,
            grid@.columns == w.grid.columns,
            grid@.rows == w.grid.rows,
            grid@.cells.len() == w.grid.cells.len(),
            atlas@ == (AtlasView { pending: atlas@.pending, ..w.atlas }),
            space_index == tile_for(w.atlas.chars, ' '),
            atlas@.pending.to_set() == w.atlas.pending.to_set().union(
                Set::new(|c: char| w.misses(c, i as int)),
            ),
            forall|j: int|
                0 <= j < i ==> #[trigger] grid@.cells[j] == if w.dirty(j) {
                    w.target(j, *config)
                } else {
                    w.grid.cells[j]
                },
            forall|j: int| i <= j < n ==> #[trigger] grid@.cells[j] == w.grid.cells[j],
            forall|a: int, b: int| 0 <= a < b < changed@.len() ==> changed@[a] < changed@[b],
            forall|a: int| 0 <= a < changed@.len() ==> changed@[a] < i,
            forall|j: int|
                changed@.contains(j as usize) && 0 <= j <= usize::MAX <==> (j < i && w.changes(
                    j,
                    *config,
                )),
        decreases n - i,
    {
        let cell = grid.cell(i);
        let col = cell.position.col;
        let row = cell.position.row;
        let ghost before_changed = changed@;
        let mut touched: bool = false;
        assert(cell.position == w.grid.position_of(i as int));
        match backend.cell(col, row) {
            Some(source) => {
                proof {
                    crate::backend::lemma_index_in_range(
                        w.backend.width as int,
                        w.backend.height as int,
                        col as int,
                        row as int,
                    );
                }
                let idx: usize = crate::backend::flat_index(width, col, row);
                if backend.dirty_cells()[idx] {
                    let style = resolve_style(source, config);
                    let glyph: usize = match atlas.glyph_index(style.symbol) {
                        Some(g) => g,
                        None => {
                            atlas.request_glyph(style.symbol);
                            space_index
                        },
                    };
                    let next = TerminalCell {
                        style,
                        background: BackgroundSprite { color: style.bg },
                        foreground: ForegroundSprite { color: style.glyph_color(), glyph },
                        ..cell
                    };
                    assert(next == w.target(i as int, *config));
                    if next != cell {
                        grid.set_cell(i, next);
                        changed.push(i);
                        touched = true;
                    }
                }
            },
            None => {},
        }
        proof {
            let sym = w.backend.cells[w.source_index(i as int)].symbol;
            let adds = w.dirty(i as int) && !w.atlas.chars.contains(sym);
            assert forall|c: char|
                w.misses(c, i as int + 1) <==> (w.misses(c, i as int) || (adds && c == sym)) by {
                if w.misses(c, i as int + 1) {
                    let k = choose|k: int|
                        0 <= k < i as int + 1 && #[trigger] w.dirty(k) && w.backend.cells[w.source_index(
                            k,
                        )].symbol == c && !w.atlas.chars.contains(c);
                    if k < i {
                        assert(w.misses(c, i as int));
                    }
                }
                if w.misses(c, i as int) {
                    let k = choose|k: int|
                        0 <= k < i as int && #[trigger] w.dirty(k) && w.backend.cells[w.source_index(
                            k,
                        )].symbol == c && !w.atlas.chars.contains(c);
                    assert(w.dirty(k) && k < i + 1);
                }
                if adds && c == sym {
                    assert(w.dirty(i as int));
                }
            }
            assert(atlas@.pending.to_set() =~= w.atlas.pending.to_set().union(
                Set::new(|c: char| w.misses(c, i as int + 1)),
            ));
            if touched {
                assert(changed@ == before_changed.push(i));
                assert forall|j: int|
                    changed@.contains(j as usize) && 0 <= j <= usize::MAX <==> (j < i + 1
                        && w.changes(j, *config)) by {
                    if changed@.contains(j as usize) && 0 <= j <= usize::MAX {
                        let k = changed@.index_of(j as usize);
                        if k < before_changed.len() {
                            assert(before_changed[k] == j as usize);
                            assert(before_changed.contains(j as usize));
                        }
                    }
                    if j < i && w.changes(j, *config) {
                        assert(before_changed.contains(j as usize));
                        let k = before_changed.index_of(j as usize);
                        assert(changed@[k] == j as usize);
                    }
                    if j == i {
                        assert(changed@[before_changed.len() as int] == i);
                    }
                }
            } else {
                assert(changed@ == before_changed);
            }
        }
        i += 1;
    }
    backend.clear_dirty();
    proof {
        lemma_ascending_of_own_set(atlas@.pending);
        let after = world(backend, atlas, grid, sync_gen);
        let goal = w.synced(*config);
        assert(after.grid.cells =~= goal.grid.cells);
        assert(after.backend.dirty =~= goal.backend.dirty);
        assert(after.atlas.pending == goal.atlas.pending);
    }
    changed
}

/// A sync that follows a sync without a flush between them changes
/// nothing and reports no cell.
pub proof fn lemma_second_sync_is_idle(w: SyncWorld, config: TerminalConfig, i: int)
    ensures
        !w.synced(config).stale(),
        w.synced(config).synced(config) == w.synced(config),
        !w.synced(config).changes(i, config),
{
}

/// A dirty cell that already holds what its buffer cell resolves to is not
/// reported: no mutation is signalled for it.
pub proof fn lemma_equal_cell_is_silent(w: SyncWorld, config: TerminalConfig, i: int)
    requires
        w.dirty(i),
        w.grid.cells[i].style == resolved_style(w.backend.cells[w.source_index(i)], config),
        w.grid.cells[i].background.color == w.grid.cells[i].style.bg,
        w.grid.cells[i].foreground.color == w.grid.cells[i].style.shown_fg(),
        w.grid.cells[i].foreground.glyph == tile_for(w.atlas.chars, w.grid.cells[i].style.symbol),
    ensures
        !w.changes(i, config),
        w.stale() ==> w.synced(config).grid.cells[i] == w.grid.cells[i],
{
}

} // verus!
