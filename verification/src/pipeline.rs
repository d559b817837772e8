//! The tick: the phases of the core, in their one order.
//!
//! Atlas upkeep comes first, so that glyphs asked for in the last tick
//! have their tiles; then the check for a new font size; then the sync
//! from the buffer, which establishes what the cells show in this tick;
//! then the reset to rest; then the effects, in the order of their
//! registration. An effect therefore always works on the current content
//! at rest, and nothing of it lasts into the next tick.

use crate::{ceil_px, CellMetrics, TerminalConfig, TerminalLayout};
use crate::atlas::{
    AtlasView, expand_font_atlas, FontAtlasResource, generate_font_atlas, rebuild_font_atlas,
};
use crate::atlas::font::AtlasError;
use crate::backend::{BackendView, BevyBackend, blank, Position};
use crate::effects::{lemma_resets_give_rest, reset_colors, reset_transforms};
use crate::effects::engine::{apply_effects, effected_all, EffectInstance, probes};
use crate::effects::sample::{Probe, Sample};
use crate::effects::timing::Clock;
use crate::grid::{GridView, spawn_grid, TerminalGrid};
use crate::sync::{sync_buffer_to_entities, SyncGeneration, SyncWorld, tile_for};
use vstd::prelude::*;

verus! {

/// What the host knows at a tick and the core cannot work out: the time,
/// the display scale, and the font's cell size at the configured font
/// size (for the layout) and at that size times the display scale (for
/// the texture).
#[derive(Clone, Copy, Debug, PartialEq, Eq, Structural)]
pub struct TickInput {
    pub clock: Clock,
    /// The display scale, in thousandths.
    pub scale_factor: u32,
    pub layout_metrics: CellMetrics,
    pub raster_metrics: CellMetrics,
}

/// What a tick did that the host has to follow up.
pub struct TickReport {
    /// The atlas took in new characters and was renumbered; its texture is
    /// empty and every glyph has to be rasterized anew.
    pub atlas_expanded: bool,
    /// The atlas was rebuilt for a new font size or display scale; its
    /// texture is empty and every glyph has to be rasterized anew.
    pub atlas_rebuilt: bool,
    /// The cells whose content changed in the sync, ascending.
    pub changed: Vec<usize>,
}

/// One terminal: its configuration, its buffer, its atlas, its grid and
/// its effects.
pub struct Terminal {
    pub config: TerminalConfig,
    pub layout: TerminalLayout,
    pub backend: BevyBackend,
    pub atlas: FontAtlasResource,
    pub grid: TerminalGrid,
    pub sync_gen: SyncGeneration,
    /// The effect instances, in the order in which they were added.
    pub effects: Vec<EffectInstance>,
}

/// What a terminal is, to its callers.
pub struct TerminalView {
    pub config: TerminalConfig,
    pub layout: TerminalLayout,
    pub backend: BackendView,
    pub atlas: AtlasView,
    pub grid: GridView,
    pub seen: u64,
    pub effects: Seq<EffectInstance>,
}

/// The instances after the time of a tick has passed for each.
pub open spec fn aged(effects: Seq<EffectInstance>, clock: Clock) -> Seq<EffectInstance> {
    Seq::new(effects.len(), |k: int| effects[k].after(clock))
}

impl TerminalView {
    /// Buffer, atlas and grid are each consistent.
    pub open spec fn wf(self) -> bool {
        &&& self.backend.cells.len() == self.backend.width * self.backend.height
        &&& self.backend.dirty.len() == self.backend.cells.len()
        &&& self.atlas.wf()
        &&& self.grid.wf()
    }

    /// The cell size of the texture that `input` asks for.
    pub open spec fn raster_cell(input: TickInput) -> (u32, u32) {
        (
            ceil_px(input.raster_metrics.width as int) as u32,
            ceil_px(input.raster_metrics.height as int) as u32,
        )
    }

    /// After phase one, atlas upkeep: the atlas took in what it could, and
    /// if that renumbered it every buffer cell is dirty.
    pub open spec fn kept_up(self) -> TerminalView {
        TerminalView {
            atlas: self.atlas.expanded(),
            backend: if self.atlas.can_expand() {
                BackendView {
                    dirty: Seq::new(self.backend.dirty.len(), |i: int| true),
                    ..self.backend
                }
            } else {
                self.backend
            },
            ..self
        }
    }

    /// Whether phase two rebuilds the atlas for `input`.
    pub open spec fn resizes(self, input: TickInput) -> bool {
        self.atlas.can_resize(
            self.config.font_size,
            input.scale_factor,
            TerminalView::raster_cell(input).0,
            TerminalView::raster_cell(input).1,
        )
    }

    /// After phase two, the check for a new font size or display scale:
    /// if there is one, atlas, layout and resting places follow it.
    pub open spec fn resized(self, input: TickInput) -> TerminalView {
        if self.resizes(input) {
            let layout = TerminalLayout::of(self.config, input.layout_metrics);
            TerminalView {
                atlas: self.atlas.resized(
                    self.config.font_size,
                    input.scale_factor,
                    TerminalView::raster_cell(input).0,
                    TerminalView::raster_cell(input).1,
                ),
                layout,
                grid: self.grid.laid_out(layout, self.config.z_layer),
                ..self
            }
        } else {
            self
        }
    }

    /// The part of the terminal that a sync works on.
    pub open spec fn sync_world(self) -> SyncWorld {
        SyncWorld { backend: self.backend, atlas: self.atlas, grid: self.grid, seen: self.seen }
    }

    /// After phase three, the sync from the buffer.
    pub open spec fn synced(self) -> TerminalView {
        let w = self.sync_world().synced(self.config);
        TerminalView { backend: w.backend, atlas: w.atlas, grid: w.grid, seen: w.seen, ..self }
    }

    /// After phase four, the reset: every cell is at rest.
    pub open spec fn rested(self) -> TerminalView {
        TerminalView { grid: self.grid.rested(), ..self }
    }

    /// After phase five, the effects, each given its tick and applied in
    /// the order of the list.
    pub open spec fn effected(self, clock: Clock) -> TerminalView {
        TerminalView {
            grid: effected_all(self.grid, self.effects, clock, self.layout),
            effects: aged(self.effects, clock),
            ..self
        }
    }

    /// After a whole tick: the five phases in their order.
    pub open spec fn ticked(self, input: TickInput) -> TerminalView {
        self.kept_up().resized(input).synced().rested().effected(input.clock)
    }
}

impl View for Terminal {
    type V = TerminalView;

    open spec fn view(&self) -> TerminalView {
        TerminalView {
            config: self.config,
            layout: self.layout,
            backend: self.backend@,
            atlas: self.atlas@,
            grid: self.grid@,
            seen: self.sync_gen.0,
            effects: self.effects@,
        }
    }
}

impl Terminal {
    /// The terminal is consistent: see [`TerminalView::wf`].
    pub open spec fn wf(&self) -> bool {
        self@.wf()
    }

    /// Sets a terminal up: the layout for the configuration, an empty
    /// buffer, the atlas of the printable ASCII characters, a grid of
    /// fresh cells that show the space, and no effects. Fails when the
    /// atlas cannot be built.
    pub fn new(config: TerminalConfig, font_bytes: Vec<u8>, input: TickInput) -> (r: Result<
        Terminal,
        AtlasError,
    >)
        ensures
            match r {
                Ok(t) => {
                    &&& t.wf()
                    &&& t@.config == config
                    &&& t@.layout == TerminalLayout::of(config, input.layout_metrics)
                    &&& t@.backend == (BackendView {
                        width: config.columns,
                        height: config.rows,
                        cells: Seq::new((config.columns * config.rows) as nat, |i: int| blank()),
                        dirty: Seq::new((config.columns * config.rows) as nat, |i: int| true),
                        cursor: Position { x: 0, y: 0 },
                        cursor_visible: false,
                        generation: 0,
                    })
                    &&& t@.seen == 0
                    &&& t@.effects == Seq::<EffectInstance>::empty()
                    &&& crate::atlas::built(
                        Ok(t.atlas),
                        font_bytes@,
                        config.font_size,
                        input.scale_factor,
                        TerminalView::raster_cell(input).0,
                        TerminalView::raster_cell(input).1,
                        Seq::new(95, |i: int| (0x20 + i) as char),
                    )
                    &&& t@.grid.columns == config.columns
                    &&& t@.grid.rows == config.rows
                    &&& forall|i: int|
                        0 <= i < t@.grid.cells.len() ==> #[trigger] t@.grid.cells[i]
                            == crate::grid::TerminalCell::fresh(
                            t@.grid.position_of(i),
                            crate::grid::place(t@.layout, t@.grid.position_of(i), config.z_layer),
                            tile_for(t@.atlas.chars, ' '),
                        )
                },
                Err(e) => crate::atlas::built(
                    Err(e),
                    font_bytes@,
                    config.font_size,
                    input.scale_factor,
                    TerminalView::raster_cell(input).0,
                    TerminalView::raster_cell(input).1,
                    Seq::new(95, |i: int| (0x20 + i) as char),
                ),
            },
    {
        let atlas = match generate_font_atlas(
            font_bytes,
            &config,
            input.scale_factor,
            input.raster_metrics,
        ) {
            Ok(atlas) => atlas,
            Err(e) => {
                return Err(e);
            },
        };
        let layout = TerminalLayout::from_config(&config, input.layout_metrics);
        let space_index: usize = match atlas.glyph_index(' ') {
            Some(i) => i,
            None => 0,
        };
        let grid = spawn_grid(&config, &layout, space_index);
        let backend = BevyBackend::new(config.columns, config.rows);
        Ok(
            Terminal {
                config,
                layout,
                backend,
                atlas,
                grid,
                sync_gen: SyncGeneration(0),
                effects: Vec::new(),
            },
        )
    }

    /// Phases one and two: atlas upkeep, then the check for a new font
    /// size or display scale. Returns whether the atlas was expanded and
    /// whether it was rebuilt.
    pub fn upkeep(&mut self, input: TickInput) -> (r: (bool, bool))
        requires
            old(self).wf(),
        ensures
            final(self).wf(),
            final(self)@ == old(self)@.kept_up().resized(input),
            r.0 == old(self)@.atlas.can_expand(),
            r.1 == old(self)@.kept_up().resizes(input),
    {
        let expanded = expand_font_atlas(&mut self.atlas, &mut self.backend);
        assert(self@ == old(self)@.kept_up());
        let rebuilt = rebuild_font_atlas(
            &self.config,
            &mut self.layout,
            &mut self.atlas,
            &mut self.grid,
            input.scale_factor,
            input.layout_metrics,
            input.raster_metrics,
        );
        (expanded, rebuilt)
    }

    /// Phase three: the sync from the buffer. Returns the cells whose
    /// content changed, ascending.
    pub fn sync(&mut self) -> (changed: Vec<usize>)
        requires
            old(self).wf(),
        ensures
            final(self).wf(),
            final(self)@ == old(self)@.synced(),
            old(self)@.sync_world().lists_changes(changed@, old(self)@.config),
    {
        sync_buffer_to_entities(
            &mut self.backend,
            &self.config,
            &mut self.atlas,
            &mut self.grid,
            &mut self.sync_gen,
        )
    }

    /// Phase four: every cell goes back to rest.
    pub fn reset(&mut self)
        requires
            old(self).wf(),
        ensures
            final(self).wf(),
            final(self)@ == old(self)@.rested(),
    {
        let ghost before = self.grid@;
        reset_transforms(&mut self.grid);
        reset_colors(&mut self.grid);
        proof {
            lemma_resets_give_rest(before);
        }
    }

    /// Phase five: the effects, each given its tick and applied in the
    /// order of the list.
    pub fn run_effects(&mut self, clock: Clock)
        requires
            old(self).wf(),
        ensures
            final(self).wf(),
            final(self)@ == old(self)@.effected(clock),
    {
        let ghost before = self.effects@;
        apply_effects(&mut self.grid, &mut self.effects, clock, &self.layout);
        assert(self.effects@ =~= aged(before, clock));
    }

    /// Runs one tick: the five phases in their order.
    pub fn tick(&mut self, input: TickInput) -> (report: TickReport)
        requires
            old(self).wf(),
        ensures
            final(self).wf(),
            final(self)@ == old(self)@.ticked(input),
            report.atlas_expanded == old(self)@.atlas.can_expand(),
            report.atlas_rebuilt == old(self)@.kept_up().resizes(input),
            old(self)@.kept_up().resized(input).sync_world().lists_changes(
                report.changed@,
                old(self)@.config,
            ),
    {
        let (atlas_expanded, atlas_rebuilt) = self.upkeep(input);
        let changed = self.sync();
        self.reset();
        self.run_effects(input.clock);
        TickReport { atlas_expanded, atlas_rebuilt, changed }
    }

    /// Adds an effect instance after the ones there are and returns its
    /// place in the order.
    pub fn add_effect(&mut self, instance: EffectInstance) -> (k: usize)
        ensures
            final(self)@ == (TerminalView {
                effects: old(self)@.effects.push(instance),
                ..old(self)@
            }),
            k == old(self)@.effects.len(),
    {
        let k = self.effects.len();
        self.effects.push(instance);
        k
    }

    /// Names, cell by cell, where the host is to evaluate the curves for
    /// the instance at place `k` in the tick at `clock`; no probe when
    /// there is no such place.
    pub fn probes(&self, k: usize, clock: Clock) -> (r: Vec<Probe>)
        ensures
            r@ == if k < self@.effects.len() {
                self@.effects[k as int].probes_at(self@.grid, clock)
            } else {
                Seq::<Probe>::empty()
            },
    {
        if k < self.effects.len() {
            probes(&self.effects[k], &self.grid, clock)
        } else {
            Vec::new()
        }
    }

    /// Stores the host's samples for the instance at place `k`; does
    /// nothing when there is no such place.
    pub fn set_samples(&mut self, k: usize, samples: Vec<Sample>)
        ensures
            final(self).config == old(self).config,
            final(self).layout == old(self).layout,
            final(self).backend == old(self).backend,
            final(self).atlas == old(self).atlas,
            final(self).grid == old(self).grid,
            final(self).sync_gen == old(self).sync_gen,
            final(self)@.effects == if k < old(self)@.effects.len() {
                old(self)@.effects.update(
                    k as int,
                    EffectInstance {
                        region: old(self)@.effects[k as int].region,
                        effect: old(self)@.effects[k as int].effect,
                        samples,
                    },
                )
            } else {
                old(self)@.effects
            },
    {
        if k < self.effects.len() {
            let slot = &mut self.effects[k];
            slot.samples = samples;
        }
    }

    /// Starts the one-shot effect at place `k` over; does nothing when
    /// there is no such place or the effect there is no one-shot.
    pub fn retrigger(&mut self, k: usize)
        ensures
            final(self).config == old(self).config,
            final(self).layout == old(self).layout,
            final(self).backend == old(self).backend,
            final(self).atlas == old(self).atlas,
            final(self).grid == old(self).grid,
            final(self).sync_gen == old(self).sync_gen,
            final(self)@.effects == if k < old(self)@.effects.len() {
                old(self)@.effects.update(
                    k as int,
                    EffectInstance {
                        region: old(self)@.effects[k as int].region,
                        effect: old(self)@.effects[k as int].effect.restarted(),
                        samples: old(self)@.effects[k as int].samples,
                    },
                )
            } else {
                old(self)@.effects
            },
    {
        if k < self.effects.len() {
            let slot = &mut self.effects[k];
            slot.effect.retrigger();
        }
    }

    /// Takes the instance at place `k` out; the others keep their order.
    /// Returns the instance, or `None` when there is no such place.
    pub fn remove_effect(&mut self, k: usize) -> (r: Option<EffectInstance>)
        ensures
            match r {
                Some(instance) => k < old(self)@.effects.len() && instance == old(self)@.effects[k as int]
                    && final(self)@ == (TerminalView {
                    effects: old(self)@.effects.remove(k as int),
                    ..old(self)@
                }),
                None => k >= old(self)@.effects.len() && final(self)@ == old(self)@,
            },
    {
        if k < self.effects.len() {
            Some(self.effects.remove(k))
        } else {
            None
        }
    }
}

/// After the reset phase and before any effect, every cell's working pose
/// is its resting pose, whatever the effects of earlier ticks made of it.
pub proof fn lemma_rest_before_effects(t: TerminalView, input: TickInput, i: int)
    requires
        0 <= i < t.kept_up().resized(input).synced().rested().grid.cells.len(),
    ensures
        ({
            let cell = t.kept_up().resized(input).synced().rested().grid.cells[i];
            cell.transform == cell.base.pose()
        }),
{
}

/// A tick without effects leaves every cell at rest.
pub proof fn lemma_no_effects_no_motion(t: TerminalView, input: TickInput)
    requires
        t.effects.len() == 0,
    ensures
        t.ticked(input).grid == t.kept_up().resized(input).synced().rested().grid,
{
}

} // verus!
