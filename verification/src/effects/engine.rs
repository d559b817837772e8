//! The effect engine: effect instances, each with its region, applied to
//! the grid one after the other.
//!
//! Some effects follow curves, or take colors, that the host evaluates.
//! For those the engine first names, cell by cell, what is to be
//! evaluated ([`probes`]); the host stores what it found
//! in the instance's `samples`, one per cell in grid order; and the
//! engine then applies the effect with them. A cell without a sample is
//! left alone by such an effect.

use crate::TerminalLayout;
use crate::grid::{GridView, TerminalCell, TerminalGrid};
use super::breathe::Breathe;
use super::bubbly::Bubbly;
use super::collapse::Collapse;
use super::delta::CellDelta;
use super::explode::Explode;
use super::glitch::Glitch;
use super::glow::Glow;
use super::gravity::Gravity;
use super::jitter::Jitter;
use super::knock::Knock;
use super::rainbow::Rainbow;
use super::region::EffectRegion;
use super::ripple::Ripple;
use super::sample::{Probe, Sample};
use super::scatter::Scatter;
use super::shiny::Shiny;
use super::slash::Slash;
use super::timing::Clock;
use super::tint::Tint;
use super::wave::Wave;
use vstd::prelude::*;

verus! {

/// An effect and its state.
#[derive(Debug)]
pub enum Effect {
    Breathe(Breathe),
    Bubbly(Bubbly),
    Collapse(Collapse),
    Explode(Explode),
    Glitch(Glitch),
    Glow(Glow),
    Gravity(Gravity),
    Jitter(Jitter),
    Knock(Knock),
    Rainbow(Rainbow),
    Ripple(Ripple),
    Scatter(Scatter),
    Shiny(Shiny),
    Slash(Slash),
    Tint(Tint),
    Wave(Wave),
    /// Deltas that the host worked out for this tick, one per cell in grid
    /// order. A cell past the end of the list gets none.
    Custom(Vec<CellDelta>),
}

/// An effect at work on a region of the grid.
#[derive(Debug)]
pub struct EffectInstance {
    pub region: EffectRegion,
    pub effect: Effect,
    /// What the host found at the probes of this tick, one sample per cell
    /// in grid order; empty for an effect that needs none.
    pub samples: Vec<Sample>,
}

/// What an effect works with in a tick, besides the cell: the time, the
/// layout, its own region and the host's samples.
pub struct Scene {
    pub clock: Clock,
    pub layout: TerminalLayout,
    pub region: EffectRegion,
    pub samples: Seq<Sample>,
}

impl Scene {
    /// The scene of an effect that looks at neither layout nor samples.
    pub open spec fn plain(clock: Clock, region: EffectRegion) -> Scene {
        Scene { clock, layout: Scene::no_layout(), region, samples: Seq::empty() }
    }

    /// The scene of an effect that looks at the layout and needs no
    /// samples.
    pub open spec fn laid(clock: Clock, layout: TerminalLayout, region: EffectRegion) -> Scene {
        Scene { clock, layout, region, samples: Seq::empty() }
    }

    /// The scene of an effect that needs samples and does not look at the
    /// layout.
    pub open spec fn sampled(clock: Clock, region: EffectRegion, samples: Seq<Sample>) -> Scene {
        Scene { clock, layout: Scene::no_layout(), region, samples }
    }

    /// The layout that stands in where none is looked at.
    pub open spec fn no_layout() -> TerminalLayout {
        TerminalLayout { cell_width: 0, cell_height: 0, origin: crate::units::Vec2 { x: 0, y: 0 } }
    }
}

/// The layout that stands in where none is looked at.
pub(crate) fn no_layout() -> (l: TerminalLayout)
    ensures
        l == Scene::no_layout(),
{
    TerminalLayout { cell_width: 0, cell_height: 0, origin: crate::units::Vec2 { x: 0, y: 0 } }
}

impl Effect {
    /// The effect after the time of a tick has passed for it: a one-shot
    /// has aged, the rings of a ripple have run on, every other effect is
    /// as it was.
    pub open spec fn after(self, clock: Clock) -> Effect {
        match self {
            Effect::Collapse(e) => Effect::Collapse(e.after(clock.delta)),
            Effect::Explode(e) => Effect::Explode(e.after(clock.delta)),
            Effect::Knock(e) => Effect::Knock(e.after(clock.delta)),
            Effect::Ripple(e) => Effect::Ripple(e.after(clock.delta)),
            Effect::Scatter(e) => Effect::Scatter(e.after(clock.delta)),
            Effect::Slash(e) => Effect::Slash(e.after(clock.delta)),
            _ => self,
        }
    }

    /// Whether the effect applies: it is switched on and, if it is a
    /// one-shot, not finished.
    pub open spec fn live(self) -> bool {
        match self {
            Effect::Collapse(e) => e.active,
            Effect::Explode(e) => e.active,
            Effect::Glitch(e) => e.active,
            Effect::Gravity(e) => e.active,
            Effect::Knock(e) => e.active,
            Effect::Scatter(e) => e.active,
            Effect::Slash(e) => e.active,
            _ => true,
        }
    }

    /// Where the host is to evaluate the curves for `cell`; the origin for
    /// an effect that needs no sample.
    pub open spec fn probe_at(self, cell: TerminalCell, clock: Clock) -> Probe {
        match self {
            Effect::Breathe(e) => e.probe_at(cell.position, clock.now),
            Effect::Bubbly(e) => e.probe_at(cell.position, clock.now),
            Effect::Explode(e) => e.probe_at(cell.position),
            Effect::Glow(e) => e.probe_at(cell.position, clock.now),
            Effect::Knock(e) => e.probe_at(cell.position),
            Effect::Rainbow(e) => e.probe_at(cell.position, clock.now),
            Effect::Ripple(e) => e.probe_at(cell.position),
            Effect::Shiny(e) => e.probe_at(),
            Effect::Slash(e) => e.probe_at(),
            Effect::Wave(e) => e.probe_at(cell.position, clock.now),
            _ => Probe::origin(),
        }
    }

    /// What the effect does to `cell` given the host's sample for it.
    pub open spec fn sampled_delta(self, cell: TerminalCell, scene: Scene, sample: Sample) -> CellDelta {
        match self {
            Effect::Breathe(e) => e.delta_at(sample),
            Effect::Bubbly(e) => e.delta_at(cell.position, sample),
            Effect::Explode(e) => e.delta_at(cell.position, scene.layout, sample),
            Effect::Glow(e) => e.delta_at(sample),
            Effect::Knock(e) => e.delta_at(cell.position, scene.layout, sample),
            Effect::Rainbow(e) => e.delta_at(sample),
            Effect::Ripple(e) => e.delta_at(sample),
            Effect::Shiny(e) => e.delta_at(cell.position, scene.clock.now, sample),
            Effect::Slash(e) => e.delta_at(cell.position, scene.region, scene.layout, sample),
            Effect::Wave(e) => e.delta_at(sample),
            _ => CellDelta::none(),
        }
    }

    /// Whether the effect needs something that the host evaluates.
    pub open spec fn needs_samples(self) -> bool {
        match self {
            Effect::Breathe(_) => true,
            Effect::Bubbly(_) => true,
            Effect::Explode(_) => true,
            Effect::Glow(_) => true,
            Effect::Knock(_) => true,
            Effect::Rainbow(_) => true,
            Effect::Ripple(_) => true,
            Effect::Shiny(_) => true,
            Effect::Slash(_) => true,
            Effect::Wave(_) => true,
            _ => false,
        }
    }

    /// Whether the effect needs something that the host evaluates.
    pub fn wants_samples(&self) -> (b: bool)
        ensures
            b == self.needs_samples(),
    {
        match self {
            Effect::Breathe(_) => true,
            Effect::Bubbly(_) => true,
            Effect::Explode(_) => true,
            Effect::Glow(_) => true,
            Effect::Knock(_) => true,
            Effect::Rainbow(_) => true,
            Effect::Ripple(_) => true,
            Effect::Shiny(_) => true,
            Effect::Slash(_) => true,
            Effect::Wave(_) => true,
            _ => false,
        }
    }

    /// What the effect makes of the cell at index `i`.
    pub open spec fn affected(self, i: int, cell: TerminalCell, scene: Scene) -> TerminalCell {
        match self {
            Effect::Collapse(e) => e.delta_at(cell.position.row as int).applied(cell),
            Effect::Glitch(e) => e.delta_at(cell.position.row, scene.clock.now).applied(cell),
            Effect::Gravity(e) => e.affected(cell, scene.clock.delta),
            Effect::Jitter(e) => e.delta_at(cell.position, scene.clock.now).applied(cell),
            Effect::Scatter(e) => e.delta_at(cell.position, scene.layout).applied(cell),
            Effect::Tint(e) => e.delta_at().applied(cell),
            Effect::Custom(deltas) => if 0 <= i < deltas@.len() {
                deltas@[i].applied(cell)
            } else {
                cell
            },
            _ => if 0 <= i < scene.samples.len() {
                self.sampled_delta(cell, scene, scene.samples[i]).applied(cell)
            } else {
                cell
            },
        }
    }

    /// The effect started over: a one-shot is back at its start and
    /// running; every other effect is as it was.
    pub open spec fn restarted(self) -> Effect {
        match self {
            Effect::Collapse(e) => Effect::Collapse(e.restarted()),
            Effect::Explode(e) => Effect::Explode(e.restarted()),
            Effect::Knock(e) => Effect::Knock(e.restarted()),
            Effect::Scatter(e) => Effect::Scatter(e.restarted()),
            Effect::Slash(e) => Effect::Slash(e.restarted()),
            _ => self,
        }
    }

    /// Starts a one-shot effect over; does nothing to any other effect.
    pub fn retrigger(&mut self)
        ensures
            *final(self) == old(self).restarted(),
    {
        match self {
            Effect::Collapse(e) => e.retrigger(),
            Effect::Explode(e) => e.retrigger(),
            Effect::Knock(e) => e.retrigger(),
            Effect::Scatter(e) => e.retrigger(),
            Effect::Slash(e) => e.retrigger(),
            _ => {},
        }
    }

    /// Lets the time of a tick pass for the effect and returns whether it
    /// applies in this tick.
    pub fn tick(&mut self, clock: Clock) -> (live: bool)
        ensures
            *final(self) == old(self).after(clock),
            live == final(self).live(),
    {
        match self {
            Effect::Collapse(e) => e.tick(clock.delta),
            Effect::Explode(e) => e.tick(clock.delta),
            Effect::Glitch(e) => e.active,
            Effect::Gravity(e) => e.active,
            Effect::Knock(e) => e.tick(clock.delta),
            Effect::Ripple(e) => {
                e.tick(clock.delta);
                true
            },
            Effect::Scatter(e) => e.tick(clock.delta),
            Effect::Slash(e) => e.tick(clock.delta),
            _ => true,
        }
    }

    /// Where the host is to evaluate the curves for `cell`.
    pub fn probe(&self, cell: &TerminalCell, clock: Clock) -> (p: Probe)
        ensures
            p == self.probe_at(*cell, clock),
    {
        match self {
            Effect::Breathe(e) => e.probe(cell.position, clock),
            Effect::Bubbly(e) => e.probe(cell.position, clock),
            Effect::Explode(e) => e.probe(cell.position),
            Effect::Glow(e) => e.probe(cell.position, clock),
            Effect::Knock(e) => e.probe(cell.position),
            Effect::Rainbow(e) => e.probe(cell.position, clock),
            Effect::Ripple(e) => e.probe(cell.position),
            Effect::Shiny(e) => e.probe(),
            Effect::Slash(e) => e.probe(),
            Effect::Wave(e) => e.probe(cell.position, clock),
            _ => Probe::zero(),
        }
    }

    /// What the effect makes of the cell at index `i`.
    pub fn affect(
        &self,
        i: usize,
        cell: TerminalCell,
        clock: Clock,
        layout: &TerminalLayout,
        region: &EffectRegion,
        samples: &Vec<Sample>,
    ) -> (r: TerminalCell)
        ensures
            r == self.affected(
                i as int,
                cell,
                Scene { clock, layout: *layout, region: *region, samples: samples@ },
            ),
    {
        let p = cell.position;
        match self {
            Effect::Collapse(e) => e.delta(p.row).apply(cell),
            Effect::Glitch(e) => e.delta(p.row, clock).apply(cell),
            Effect::Gravity(e) => e.affect(cell, clock.delta),
            Effect::Jitter(e) => e.delta(p, clock).apply(cell),
            Effect::Scatter(e) => e.delta(p, layout).apply(cell),
            Effect::Tint(e) => e.delta().apply(cell),
            Effect::Custom(deltas) => if i < deltas.len() {
                deltas[i].apply(cell)
            } else {
                cell
            },
            Effect::Breathe(e) => if i < samples.len() {
                e.delta(samples[i]).apply(cell)
            } else {
                cell
            },
            Effect::Bubbly(e) => if i < samples.len() {
                e.delta(p, samples[i]).apply(cell)
            } else {
                cell
            },
            Effect::Explode(e) => if i < samples.len() {
                e.delta(p, layout, samples[i]).apply(cell)
            } else {
                cell
            },
            Effect::Glow(e) => if i < samples.len() {
                e.delta(samples[i]).apply(cell)
            } else {
                cell
            },
            Effect::Knock(e) => if i < samples.len() {
                e.delta(p, layout, samples[i]).apply(cell)
            } else {
                cell
            },
            Effect::Rainbow(e) => if i < samples.len() {
                e.delta(samples[i]).apply(cell)
            } else {
                cell
            },
            Effect::Ripple(e) => if i < samples.len() {
                e.delta(samples[i]).apply(cell)
            } else {
                cell
            },
            Effect::Shiny(e) => if i < samples.len() {
                e.delta(p, clock, samples[i]).apply(cell)
            } else {
                cell
            },
            Effect::Slash(e) => if i < samples.len() {
                e.delta(p, region, layout, samples[i]).apply(cell)
            } else {
                cell
            },
            Effect::Wave(e) => if i < samples.len() {
                e.delta(samples[i]).apply(cell)
            } else {
                cell
            },
        }
    }
}

/// The grid after an effect that has had its tick: when the effect is
/// live, every cell that the region selects is what the effect makes of
/// it, and every other cell is untouched; when it is not, nothing moves.
pub open spec fn effected(grid: GridView, effect: Effect, scene: Scene) -> GridView {
    if effect.live() {
        GridView {
            cells: Seq::new(
                grid.cells.len(),
                |i: int|
                    if scene.region.selects(
                        grid.cells[i].position.col as int,
                        grid.cells[i].position.row as int,
                    ) {
                        effect.affected(i, grid.cells[i], scene)
                    } else {
                        grid.cells[i]
                    },
            ),
            ..grid
        }
    } else {
        grid
    }
}

impl EffectInstance {
    /// The scene of this instance in a tick.
    pub open spec fn scene(self, clock: Clock, layout: TerminalLayout) -> Scene {
        Scene { clock, layout, region: self.region, samples: self.samples@ }
    }

    /// The instance after the time of a tick has passed for its effect.
    pub open spec fn after(self, clock: Clock) -> EffectInstance {
        EffectInstance { effect: self.effect.after(clock), ..self }
    }

    /// Where the host is to evaluate the curves in this tick, one probe
    /// per cell in grid order: the probes of the effect as it will be once
    /// the time of the tick has passed for it.
    pub open spec fn probes_at(self, grid: GridView, clock: Clock) -> Seq<Probe> {
        Seq::new(grid.cells.len(), |i: int| self.effect.after(clock).probe_at(grid.cells[i], clock))
    }

    /// An instance of `effect` on `region`, without samples yet.
    pub fn new(region: EffectRegion, effect: Effect) -> (r: EffectInstance)
        ensures
            r.region == region,
            r.effect == effect,
            r.samples@ == Seq::<Sample>::empty(),
    {
        EffectInstance { region, effect, samples: Vec::new() }
    }
}

/// The grid after a run of instances, each given its tick and applied,
/// first to last.
pub open spec fn effected_all(
    grid: GridView,
    instances: Seq<EffectInstance>,
    clock: Clock,
    layout: TerminalLayout,
) -> GridView
    decreases instances.len(),
{
    if instances.len() == 0 {
        grid
    } else {
        let last = instances.last();
        effected(
            effected_all(grid, instances.drop_last(), clock, layout),
            last.effect.after(clock),
            last.scene(clock, layout),
        )
    }
}

/// Applies a live effect to the cells of a region.
pub(crate) fn sweep(
    grid: &mut TerminalGrid,
    effect: &Effect,
    clock: Clock,
    layout: &TerminalLayout,
    region: &EffectRegion,
    samples: &Vec<Sample>,
)
    requires
        old(grid).wf(),
        effect.live(),
    ensures
        final(grid).wf(),
        final(grid)@ == effected(
            old(grid)@,
            *effect,
            Scene { clock, layout: *layout, region: *region, samples: samples@ },
        ),
{
    let ghost scene = Scene { clock, layout: *layout, region: *region, samples: samples@ };
    let n: usize = grid.len();
    let mut i: usize = 0;
    while i < n
        invariant
            i <= n,
            n == grid@.cells.len(),
            grid.wf(),
            effect.live(),
            scene == (Scene { clock, layout: *layout, region: *region, samples: samples@ }),
            grid@.columns == old(grid)@.columns,
            grid@.rows == old(grid)@.rows,
            grid@.cells.len() == old(grid)@.cells.len(),
            forall|j: int|
                0 <= j < i ==> #[trigger] grid@.cells[j] == effected(old(grid)@, *effect, scene).cells[j],
            forall|j: int| i <= j < n ==> #[trigger] grid@.cells[j] == old(grid)@.cells[j],
        decreases n - i,
    {
        let cell = grid.cell(i);
        if region.contains(cell.position.col, cell.position.row) {
            grid.set_cell(i, effect.affect(i, cell, clock, layout, region, samples));
        }
        i += 1;
    }
    assert(grid@.cells =~= effected(old(grid)@, *effect, scene).cells);
}

/// Names, cell by cell, where the host is to evaluate the curves for an
/// instance in the tick at `clock`. To be called before the instance is
/// applied in that tick.
pub fn probes(instance: &EffectInstance, grid: &TerminalGrid, clock: Clock) -> (r: Vec<Probe>)
    ensures
        r@ == instance.probes_at(grid@, clock),
{
    let mut r: Vec<Probe> = Vec::new();
    let n: usize = grid.len();
    let mut i: usize = 0;
    while i < n
        invariant
            i <= n,
            n == grid@.cells.len(),
            r@.len() == i,
            forall|j: int| 0 <= j < i ==> #[trigger] r@[j] == instance.probes_at(grid@, clock)[j],
        decreases n - i,
    {
        let cell = grid.cell(i);
        let p = match &instance.effect {
            Effect::Knock(e) => {
                let mut aged = *e;
                aged.tick(clock.delta);
                aged.probe(cell.position)
            },
            Effect::Ripple(e) => {
                let mut aged = *e;
                aged.tick(clock.delta);
                aged.probe(cell.position)
            },
            other => other.probe(&cell, clock),
        };
        r.push(p);
        i += 1;
    }
    assert(r@ =~= instance.probes_at(grid@, clock));
    r
}

/// Gives one instance its tick and applies it to the grid.
pub fn apply_effect(
    grid: &mut TerminalGrid,
    instance: &mut EffectInstance,
    clock: Clock,
    layout: &TerminalLayout,
)
    requires
        old(grid).wf(),
    ensures
        final(grid).wf(),
        *final(instance) == old(instance).after(clock),
        final(grid)@ == effected(
            old(grid)@,
            final(instance).effect,
            old(instance).scene(clock, *layout),
        ),
{
    if instance.effect.tick(clock) {
        sweep(grid, &instance.effect, clock, layout, &instance.region, &instance.samples);
    }
}

/// Gives every instance its tick and applies it to the grid, in the order
/// of the list.
pub fn apply_effects(
    grid: &mut TerminalGrid,
    effects: &mut Vec<EffectInstance>,
    clock: Clock,
    layout: &TerminalLayout,
)
    requires
        old(grid).wf(),
    ensures
        final(grid).wf(),
        final(effects)@.len() == old(effects)@.len(),
        forall|k: int|
            0 <= k < old(effects)@.len() ==> #[trigger] final(effects)@[k] == old(effects)@[k].after(
                clock,
            ),
        final(grid)@ == effected_all(old(grid)@, old(effects)@, clock, *layout),
{
    let n: usize = effects.len();
    let mut k: usize = 0;
    while k < n
        invariant
            k <= n,
            n == effects@.len(),
            n == old(effects)@.len(),
            grid.wf(),
            forall|j: int| 0 <= j < k ==> #[trigger] effects@[j] == old(effects)@[j].after(clock),
            forall|j: int| k <= j < n ==> #[trigger] effects@[j] == old(effects)@[j],
            grid@ == effected_all(old(grid)@, old(effects)@.take(k as int), clock, *layout),
        decreases n - k,
    {
        apply_effect(grid, &mut effects[k], clock, layout);
        proof {
            let upto = old(effects)@.take(k as int + 1);
            assert(upto.drop_last() =~= old(effects)@.take(k as int));
            assert(upto.last() == old(effects)@[k as int]);
        }
        k += 1;
    }
    assert(old(effects)@.take(n as int) =~= old(effects)@);
}

/// Of two instances, the second applies to what the first made of a
/// cell: for a cell that both select, the result is the second effect
/// applied to the first effect applied to the cell.
pub proof fn lemma_second_applies_to_first(
    grid: GridView,
    a: EffectInstance,
    b: EffectInstance,
    clock: Clock,
    layout: TerminalLayout,
    i: int,
)
    requires
        0 <= i < grid.cells.len(),
        a.effect.after(clock).live(),
        b.effect.after(clock).live(),
        a.region.selects(grid.cells[i].position.col as int, grid.cells[i].position.row as int),
        b.region.selects(grid.cells[i].position.col as int, grid.cells[i].position.row as int),
    ensures
        effected_all(grid, seq![a, b], clock, layout).cells[i] == b.effect.after(clock).affected(
            i,
            a.effect.after(clock).affected(i, grid.cells[i], a.scene(clock, layout)),
            b.scene(clock, layout),
        ),
{
    let both = seq![a, b];
    assert(both.drop_last() =~= seq![a]);
    assert(seq![a].drop_last() =~= Seq::<EffectInstance>::empty());
    let first = effected(grid, a.effect.after(clock), a.scene(clock, layout));
    assert(effected_all(grid, Seq::<EffectInstance>::empty(), clock, layout) == grid);
    assert(seq![a].last() == a);
    assert(effected_all(grid, seq![a], clock, layout) == first);
    assert(both.last() == b);
    lemma_effect_keeps_content(a.effect.after(clock), i, grid.cells[i], a.scene(clock, layout));
}

/// An effect changes the pose, the glyph color and the velocity of a
/// cell, and nothing else: the cell stays where it is in the grid, with
/// its style, its resting pose, its background and its tile.
pub proof fn lemma_effect_keeps_content(effect: Effect, i: int, cell: TerminalCell, scene: Scene)
    ensures
        effect.affected(i, cell, scene).position == cell.position,
        effect.affected(i, cell, scene).style == cell.style,
        effect.affected(i, cell, scene).base == cell.base,
        effect.affected(i, cell, scene).background == cell.background,
        effect.affected(i, cell, scene).foreground.glyph == cell.foreground.glyph,
{
}

/// No effect of the core imposes a rotation or a scale: each turns and
/// scales on top of what earlier effects left. Only deltas that the host
/// hands in may impose.
pub proof fn lemma_effects_compose(effect: Effect, cell: TerminalCell, scene: Scene, sample: Sample)
    ensures
        !(effect.sampled_delta(cell, scene, sample).turn is To),
        !(effect.sampled_delta(cell, scene, sample).resize is To),
        effect matches Effect::Collapse(e) ==> e.delta_at(cell.position.row as int) == CellDelta::shift(
            0,
            e.delta_at(cell.position.row as int).dy,
        ),
        effect matches Effect::Glitch(e) ==> !(e.delta_at(cell.position.row, scene.clock.now).turn is To)
            && !(e.delta_at(cell.position.row, scene.clock.now).resize is To),
        effect matches Effect::Jitter(e) ==> !(e.delta_at(cell.position, scene.clock.now).turn is To)
            && !(e.delta_at(cell.position, scene.clock.now).resize is To),
        effect matches Effect::Scatter(e) ==> !(e.delta_at(cell.position, scene.layout).turn is To)
            && !(e.delta_at(cell.position, scene.layout).resize is To),
        effect matches Effect::Tint(e) ==> !(e.delta_at().turn is To) && !(e.delta_at().resize is To),
        effect matches Effect::Gravity(e) ==> e.affected(cell, scene.clock.delta).transform.rotation
            == cell.transform.rotation && e.affected(cell, scene.clock.delta).transform.scale
            == cell.transform.scale,
{
}

/// A cell outside an instance's region is untouched by it, and an effect
/// that is not live touches no cell.
pub proof fn lemma_outside_region_untouched(grid: GridView, effect: Effect, scene: Scene, i: int)
    requires
        0 <= i < grid.cells.len(),
        !effect.live() || !scene.region.selects(
            grid.cells[i].position.col as int,
            grid.cells[i].position.row as int,
        ),
    ensures
        effected(grid, effect, scene).cells[i] == grid.cells[i],
{
}

/// The effect after a run of ticks, first to last.
pub open spec fn after_all(effect: Effect, clocks: Seq<Clock>) -> Effect
    decreases clocks.len(),
{
    if clocks.len() == 0 {
        effect
    } else {
        after_all(effect, clocks.drop_last()).after(clocks.last())
    }
}

/// Triggering a one-shot again replays it: time only moves a one-shot's
/// clock, so however long the effect has run, and whether or not it has
/// finished, started over it is the effect that it was when it first
/// started, and every tick after that is what it was the first time.
pub proof fn lemma_retrigger_replays(effect: Effect, clocks: Seq<Clock>)
    requires
        !(effect is Ripple),
    ensures
        after_all(effect, clocks).restarted() == effect.restarted(),
        after_all(effect, clocks) is Ripple == effect is Ripple,
    decreases clocks.len(),
{
    if clocks.len() > 0 {
        lemma_retrigger_replays(effect, clocks.drop_last());
    }
}

/// A one-shot that is finished moves nothing and stays finished, tick
/// after tick, until it is triggered again.
pub proof fn lemma_finished_effect_rests(
    grid: GridView,
    instance: EffectInstance,
    clock: Clock,
    layout: TerminalLayout,
)
    requires
        !instance.effect.live(),
    ensures
        instance.effect.after(clock) == instance.effect,
        effected_all(grid, seq![instance], clock, layout) == grid,
{
    assert(seq![instance].drop_last() =~= Seq::<EffectInstance>::empty());
    assert(seq![instance].last() == instance);
    assert(effected_all(grid, Seq::<EffectInstance>::empty(), clock, layout) == grid);
}

} // verus!
