//! Tint: glyph colors move toward one color.

use crate::color::Rgba;
use crate::grid::TerminalGrid;
use super::delta::{CellDelta, Recolor};
use super::engine::{Effect, effected, no_layout, Scene, sweep};
use super::region::EffectRegion;
use super::sample::Sample;
use super::timing::Clock;
use vstd::prelude::*;

verus! {

/// A color tint.
#[derive(Clone, Copy, Debug, PartialEq, Eq, Structural)]
pub struct Tint {
    /// The color to move toward.
    pub color: Rgba,
    /// How far to move, in thousandths: 0 leaves the glyph's color, 1000
    /// or more replaces its red, green and blue.
    pub strength: u16,
}

impl Tint {
    /// What the tint does to a cell, whichever it is.
    pub open spec fn delta_at(self) -> CellDelta {
        CellDelta { recolor: Recolor::Toward(self.color, self.strength), ..CellDelta::none() }
    }

    /// What the tint does to a cell.
    pub fn delta(&self) -> (d: CellDelta)
        ensures
            d == self.delta_at(),
    {
        CellDelta { recolor: Recolor::Toward(self.color, self.strength), ..CellDelta::identity() }
    }
}

/// A tint of strength 0 keeps every color; one of full strength gives the
/// tint's red, green and blue and keeps the alpha.
pub proof fn lemma_tint_ends(t: Tint, c: Rgba)
    ensures
        t.strength == 0 ==> t.delta_at().recolor.of(c) == c,
        t.strength >= 1000 ==> t.delta_at().recolor.of(c) == (Rgba { a: c.a, ..t.color }),
{
    super::delta::lemma_blend_between(c.r, t.color.r, super::delta::capped(t.strength));
    super::delta::lemma_blend_between(c.g, t.color.g, super::delta::capped(t.strength));
    super::delta::lemma_blend_between(c.b, t.color.b, super::delta::capped(t.strength));
}

/// Runs one tint for one tick: the glyph of every cell of the region
/// moves toward the tint's color.
pub fn tint_system(clock: Clock, effect: &Tint, region: &EffectRegion, grid: &mut TerminalGrid)
    requires
        old(grid).wf(),
    ensures
        final(grid).wf(),
        final(grid)@ == effected(old(grid)@, Effect::Tint(*effect), Scene::plain(clock, *region)),
{
    let samples: Vec<Sample> = Vec::new();
    sweep(grid, &Effect::Tint(*effect), clock, &no_layout(), region, &samples);
}

} // verus!
