//! The glyph atlas: which characters have a tile, where each tile lies in
//! the texture, and the texture's pixels.
//!
//! The atlas numbers its tiles by the ascending order of its characters.
//! Outlines are rasterized outside; every pixel they produce enters the
//! texture through [`FontAtlasResource::plot`], which clips it to the slot
//! of its tile.

pub mod charset;
pub mod font;
pub mod layout;

use charset::{ascending, ascending_of, CharSet};
use font::{AtlasError, font_parses, FontData, mapped, renderable};
use layout::AtlasLayout;
use crate::{ceil_px, CellMetrics, TerminalConfig, TerminalLayout};
use crate::backend::{BackendView, BevyBackend};
use crate::grid::TerminalGrid;
use vstd::prelude::*;

verus! {

/// What an atlas is, to its callers.
pub struct AtlasView {
    /// The characters that have a tile, ascending; tile `i` shows
    /// `chars[i]`.
    pub chars: Seq<char>,
    pub layout: AtlasLayout,
    /// The texture, four bytes (red, green, blue, alpha) a pixel, row by
    /// row.
    pub pixels: Seq<u8>,
    /// The nominal font size, in thousandths of a pixel.
    pub font_size: u32,
    /// The display scale that the texture was rasterized for, in
    /// thousandths.
    pub scale_factor: u32,
    /// The font data.
    pub font: Seq<u8>,
    /// Characters that were asked for and have no tile yet, ascending.
    pub pending: Seq<char>,
}

impl AtlasView {
    /// The characters and the pending characters are ascending, the layout
    /// fits, and there is one tile per character and four bytes per pixel.
    pub open spec fn wf(self) -> bool {
        &&& ascending(self.chars)
        &&& ascending(self.pending)
        &&& self.layout.wf()
        &&& self.layout.glyph_count == self.chars.len()
        &&& self.pixels.len() == self.layout.byte_len()
    }

    /// The tile of each character that has one.
    pub open spec fn glyph_map(self) -> Map<char, usize> {
        Map::new(|c: char| self.chars.contains(c), |c: char| self.chars.index_of(c) as usize)
    }

    /// The texture after one sample of coverage for tile `tile`: `(x, y)`
    /// is the sample's offset from the tile's origin and `alpha` its
    /// coverage. A sample inside the tile's slot turns its pixel white and
    /// raises the pixel's alpha to `alpha` if that is more; a sample
    /// outside the slot, or for a tile that is not there, is dropped.
    pub open spec fn plotted(self, tile: int, x: int, y: int, alpha: u8) -> Seq<u8> {
        if 0 <= tile < self.layout.glyph_count && 0 <= x < self.layout.stride_w() && 0 <= y
            < self.layout.stride_h() {
            let at = self.layout.byte_at(
                self.layout.origin_x(tile) + x,
                self.layout.origin_y(tile) + y,
            );
            let a = if self.pixels[at + 3] < alpha {
                alpha
            } else {
                self.pixels[at + 3]
            };
            self.pixels.update(at, 255u8).update(at + 1, 255u8).update(at + 2, 255u8).update(
                at + 3,
                a,
            )
        } else {
            self.pixels
        }
    }

    /// The pending characters that the font can draw: those that it maps
    /// to a glyph with an outline.
    pub open spec fn drawable_pending(self) -> Set<char> {
        Set::new(|c: char| self.pending.contains(c) && renderable(self.font, c))
    }

    /// The characters after the drawable pending ones were taken in.
    pub open spec fn expanded_chars(self) -> Seq<char> {
        ascending_of(self.chars.to_set().union(self.drawable_pending()))
    }

    /// The atlas after its upkeep: rebuilt over the old and the drawable
    /// pending characters with an empty texture if that can be, and with
    /// nothing pending either way.
    pub open spec fn expanded(self) -> AtlasView {
        if self.can_expand() {
            let layout = AtlasLayout {
                glyph_count: self.expanded_chars().len() as u32,
                ..self.layout
            };
            AtlasView {
                chars: self.expanded_chars(),
                layout,
                pixels: Seq::new(layout.byte_len() as nat, |i: int| 0u8),
                pending: Seq::<char>::empty(),
                ..self
            }
        } else {
            AtlasView { pending: Seq::<char>::empty(), ..self }
        }
    }

    /// Font size or display scale differ from the ones the atlas has, and
    /// the texture for the new cell size would fit.
    pub open spec fn can_resize(self, font_size: u32, scale_factor: u32, cell_w: u32, cell_h: u32) -> bool {
        &&& font_size != self.font_size || scale_factor != self.scale_factor
        &&& (AtlasLayout { cell_w, cell_h, ..self.layout }).wf()
    }

    /// The atlas rebuilt for another font size and display scale if that
    /// can be: same characters, new layout, empty texture.
    pub open spec fn resized(self, font_size: u32, scale_factor: u32, cell_w: u32, cell_h: u32) -> AtlasView {
        if self.can_resize(font_size, scale_factor, cell_w, cell_h) {
            let layout = AtlasLayout { cell_w, cell_h, ..self.layout };
            AtlasView {
                layout,
                pixels: Seq::new(layout.byte_len() as nat, |i: int| 0u8),
                font_size,
                scale_factor,
                ..self
            }
        } else {
            self
        }
    }

    /// An expansion has something to add and its texture would fit.
    pub open spec fn can_expand(self) -> bool {
        &&& exists|c: char| self.drawable_pending().contains(c)
        &&& self.expanded_chars().len() <= u32::MAX
        &&& (AtlasLayout {
            glyph_count: self.expanded_chars().len() as u32,
            ..self.layout
        }).wf()
    }
}

/// The font atlas: the texture, its layout, the glyph map and the
/// characters waiting for a tile.
pub struct FontAtlasResource {
    pixels: Vec<u8>,
    layout: AtlasLayout,
    chars: CharSet,
    font_size: u32,
    scale_factor: u32,
    font: FontData,
    pending: CharSet,
}

impl View for FontAtlasResource {
    type V = AtlasView;

    closed spec fn view(&self) -> AtlasView {
        AtlasView {
            chars: self.chars@,
            layout: self.layout,
            pixels: self.pixels@,
            font_size: self.font_size,
            scale_factor: self.scale_factor,
            font: self.font@,
            pending: self.pending@,
        }
    }
}

/// A texture of `n` transparent black bytes.
fn blank_pixels(n: usize) -> (v: Vec<u8>)
    ensures
        v@ == Seq::new(n as nat, |i: int| 0u8),
{
    let v = vec![0u8; n];
    assert(v@ =~= Seq::new(n as nat, |i: int| 0u8));
    v
}

/// The printable ASCII characters, space to tilde, ascending.
pub fn ascii_chars() -> (v: Vec<char>)
    ensures
        v@.len() == 95,
        forall|i: int| 0 <= i < 95 ==> v@[i] as int == 0x20 + i,
        ascending(v@),
{
    let mut v: Vec<char> = Vec::new();
    let mut b: u8 = 0x20;
    while b <= 0x7e
        invariant
            0x20 <= b <= 0x7f,
            v@.len() == b - 0x20,
            forall|i: int| 0 <= i < v@.len() ==> v@[i] as int == 0x20 + i,
        decreases 0x7f - b,
    {
        v.push(b as char);
        b += 1;
    }
    v
}

/// The characters of `chars` that the font held in `font` maps to a glyph
/// of its own.
pub open spec fn mapped_chars(chars: Seq<char>, font: Seq<u8>) -> Set<char> {
    Set::new(|c: char| chars.contains(c) && mapped(font, c))
}

/// What [`build_atlas_data_for_chars`] owes for its arguments: the atlas of
/// the characters that the font maps, in ascending order, with an empty
/// texture, or the reason why there is none.
pub open spec fn built(
    r: Result<FontAtlasResource, AtlasError>,
    font_bytes: Seq<u8>,
    font_size: u32,
    scale_factor: u32,
    cell_w: u32,
    cell_h: u32,
    chars: Seq<char>,
) -> bool {
    let sorted = ascending_of(mapped_chars(chars, font_bytes));
    let layout = AtlasLayout { cell_w, cell_h, glyph_count: sorted.len() as u32 };
    let fits = sorted.len() <= u32::MAX && layout.wf();
    match r {
        Ok(atlas) => {
            &&& font_parses(font_bytes)
            &&& fits
            &&& atlas.wf()
            &&& atlas@ == (AtlasView {
                chars: sorted,
                layout,
                pixels: Seq::new(layout.byte_len() as nat, |i: int| 0u8),
                font_size,
                scale_factor,
                font: font_bytes,
                pending: Seq::<char>::empty(),
            })
            &&& sorted.to_set() == mapped_chars(chars, font_bytes)
        },
        Err(AtlasError::InvalidFont) => !font_parses(font_bytes),
        Err(AtlasError::TooLarge) => font_parses(font_bytes) && !fits,
    }
}

/// Whether a character is taken into the atlas: at a build, if the font
/// maps it; at an expansion (`outlined`), if the font can also draw it.
pub open spec fn taken(font: Seq<u8>, c: char, outlined: bool) -> bool {
    if outlined {
        renderable(font, c)
    } else {
        mapped(font, c)
    }
}

/// The set of the characters of `chars` that are taken into the atlas.
fn collect(font: &FontData, chars: &[char], outlined: bool) -> (set: CharSet)
    ensures
        set.wf(),
        forall|c: char| set@.contains(c) <==> (chars@.contains(c) && taken(font@, c, outlined)),
{
    let mut set = CharSet::new();
    let mut i: usize = 0;
    while i < chars.len()
        invariant
            i <= chars@.len(),
            set.wf(),
            forall|c: char|
                set@.contains(c) <==> (chars@.take(i as int).contains(c) && taken(font@, c, outlined)),
        decreases chars@.len() - i,
    {
        let c = chars[i];
        let ghost before = set@;
        let take = if outlined {
            font.renders(c)
        } else {
            font.maps(c)
        };
        if take {
            set.insert(c);
        }
        proof {
            let upto = chars@.take(i as int + 1);
            let prev = chars@.take(i as int);
            assert(upto =~= prev.push(c));
            assert(take == taken(font@, c, outlined));
            assert(set@.to_set() == if take {
                before.to_set().insert(c)
            } else {
                before.to_set()
            });
            assert forall|d: char|
                set@.contains(d) <==> (upto.contains(d) && taken(font@, d, outlined)) by {
                assert(set@.to_set().contains(d) == set@.contains(d));
                assert(before.to_set().contains(d) == before.contains(d));
                assert(before.contains(d) <==> (prev.contains(d) && taken(font@, d, outlined)));
                if upto.contains(d) {
                    let k = upto.index_of(d);
                    if k < i {
                        assert(prev[k] == d);
                    }
                }
                if prev.contains(d) {
                    let k = prev.index_of(d);
                    assert(upto[k] == d);
                }
                assert(upto[i as int] == c);
            }
        }
        i += 1;
    }
    assert(chars@.take(chars@.len() as int) =~= chars@);
    set
}

/// Builds an empty texture and the glyph map for the characters of
/// `chars`, in any order and with repeats, at the given cell size in whole
/// pixels. A character that the font does not map is left out: it gets no
/// tile and is no key of the glyph map. Fails when the font data does not
/// parse, and otherwise when the texture would be too large.
pub fn build_atlas_data_for_chars(
    font_bytes: Vec<u8>,
    font_size: u32,
    scale_factor: u32,
    cell_w: u32,
    cell_h: u32,
    chars: &[char],
) -> (r: Result<FontAtlasResource, AtlasError>)
    ensures
        built(r, font_bytes@, font_size, scale_factor, cell_w, cell_h, chars@),
{
    let font = match FontData::parse(font_bytes) {
        Ok(font) => font,
        Err(e) => {
            return Err(e);
        },
    };
    let set = collect(&font, chars, false);
    proof {
        assert(set@.to_set() =~= mapped_chars(chars@, font@));
        charset::lemma_ascending_of_own_set(set@);
    }
    let layout = match AtlasLayout::plan(cell_w, cell_h, set.len()) {
        Some(layout) => layout,
        None => {
            return Err(AtlasError::TooLarge);
        },
    };
    let pixels = blank_pixels(byte_count(&layout));
    Ok(
        FontAtlasResource {
            pixels,
            layout,
            chars: set,
            font_size,
            scale_factor,
            font,
            pending: CharSet::new(),
        },
    )
}

/// A character that the font does not map is no key of the glyph map of
/// an atlas built with that font, whatever else was asked for.
pub proof fn lemma_unmapped_is_left_out(
    r: Result<FontAtlasResource, AtlasError>,
    font_bytes: Seq<u8>,
    font_size: u32,
    scale_factor: u32,
    cell_w: u32,
    cell_h: u32,
    chars: Seq<char>,
    c: char,
)
    requires
        built(r, font_bytes, font_size, scale_factor, cell_w, cell_h, chars),
        r is Ok,
    ensures
        r->Ok_0@.glyph_map().dom().contains(c) <==> (chars.contains(c) && mapped(font_bytes, c)),
{
    let atlas = r->Ok_0@;
    assert(atlas.chars.contains(c) == atlas.chars.to_set().contains(c));
}

/// Builds the first atlas of a terminal: the printable ASCII characters
/// that the font maps, at the configured font size, rasterized for the
/// display scale `scale_factor`, with cells of `raster_metrics` rounded up
/// to whole pixels.
pub fn generate_font_atlas(
    font_bytes: Vec<u8>,
    config: &TerminalConfig,
    scale_factor: u32,
    raster_metrics: CellMetrics,
) -> (r: Result<FontAtlasResource, AtlasError>)
    ensures
        built(
            r,
            font_bytes@,
            config.font_size,
            scale_factor,
            ceil_px(raster_metrics.width as int) as u32,
            ceil_px(raster_metrics.height as int) as u32,
            Seq::new(95, |i: int| (0x20 + i) as char),
        ),
{
    let chars = ascii_chars();
    let (cell_w, cell_h) = raster_metrics.raster_size();
    assert(chars@ =~= Seq::new(95, |i: int| (0x20 + i) as char));
    build_atlas_data_for_chars(
        font_bytes,
        config.font_size,
        scale_factor,
        cell_w,
        cell_h,
        chars.as_slice(),
    )
}

/// Atlas upkeep: takes in the pending characters that the font can draw.
/// When that rebuilt the atlas, every buffer cell is marked dirty, so that
/// the next sync gives every cell its tile in the new numbering. Returns
/// whether the atlas was rebuilt; the host then rasterizes every glyph
/// anew.
pub fn expand_font_atlas(atlas: &mut FontAtlasResource, backend: &mut BevyBackend) -> (grew: bool)
    requires
        old(atlas).wf(),
        old(backend).wf(),
    ensures
        final(atlas).wf(),
        final(backend).wf(),
        grew == old(atlas)@.can_expand(),
        final(atlas)@ == old(atlas)@.expanded(),
        grew ==> final(atlas)@.chars.to_set() == old(atlas)@.chars.to_set().union(
            old(atlas)@.drawable_pending(),
        ),
        final(backend)@ == if grew {
            BackendView {
                dirty: Seq::new(old(backend)@.dirty.len(), |i: int| true),
                ..old(backend)@
            }
        } else {
            old(backend)@
        },
{
    let grew = atlas.expand();
    if grew {
        backend.mark_all_dirty();
    }
    grew
}

/// Follows a change of font size or display scale: the atlas is rebuilt
/// with the cell size of `raster_metrics`, the layout is derived anew from
/// the configuration and `layout_metrics`, and every cell goes to its
/// place in the new layout. Nothing changes when size and scale are the
/// ones the atlas has, or when the new texture would not fit. Returns
/// whether the atlas was rebuilt; the host then rasterizes every glyph
/// anew.
pub fn rebuild_font_atlas(
    config: &TerminalConfig,
    layout: &mut TerminalLayout,
    atlas: &mut FontAtlasResource,
    grid: &mut TerminalGrid,
    scale_factor: u32,
    layout_metrics: CellMetrics,
    raster_metrics: CellMetrics,
) -> (rebuilt: bool)
    requires
        old(atlas).wf(),
        old(grid).wf(),
    ensures
        final(atlas).wf(),
        final(grid).wf(),
        rebuilt == old(atlas)@.can_resize(
            config.font_size,
            scale_factor,
            ceil_px(raster_metrics.width as int) as u32,
            ceil_px(raster_metrics.height as int) as u32,
        ),
        final(atlas)@ == old(atlas)@.resized(
            config.font_size,
            scale_factor,
            ceil_px(raster_metrics.width as int) as u32,
            ceil_px(raster_metrics.height as int) as u32,
        ),
        *final(layout) == if rebuilt {
            TerminalLayout::of(*config, layout_metrics)
        } else {
            *old(layout)
        },
        final(grid)@ == if rebuilt {
            old(grid)@.laid_out(TerminalLayout::of(*config, layout_metrics), config.z_layer)
        } else {
            old(grid)@
        },
{
    let (cell_w, cell_h) = raster_metrics.raster_size();
    let rebuilt = atlas.resize(config.font_size, scale_factor, cell_w, cell_h);
    if rebuilt {
        *layout = TerminalLayout::from_config(config, layout_metrics);
        grid.relayout(layout, config.z_layer);
    }
    rebuilt
}

impl FontAtlasResource {
    /// The atlas is consistent: see [`AtlasView::wf`].
    pub open spec fn wf(&self) -> bool {
        self@.wf()
    }
}

impl FontAtlasResource {
    /// The tile of `ch`, if it has one.
    pub fn glyph_index(&self, ch: char) -> (r: Option<usize>)
        requires
            self.wf(),
        ensures
            r is Some <==> self@.chars.contains(ch),
            r is Some <==> self@.glyph_map().dom().contains(ch),
            r matches Some(i) ==> i == self@.glyph_map()[ch] && i < self@.chars.len()
                && self@.chars[i as int] == ch,
    {
        self.chars.position(ch)
    }

    /// The number of tiles.
    pub fn glyph_count(&self) -> (n: usize)
        requires
            self.wf(),
        ensures
            n == self@.chars.len(),
            n == self@.layout.glyph_count,
    {
        self.chars.len()
    }

    /// The character that tile `i` shows.
    pub fn glyph_char(&self, i: usize) -> (c: char)
        requires
            self.wf(),
            i < self@.chars.len(),
        ensures
            c == self@.chars[i as int],
    {
        self.chars.get(i)
    }

    /// The characters that have a tile, ascending.
    pub fn chars(&self) -> (s: &[char])
        ensures
            s@ == self@.chars,
    {
        self.chars.as_slice()
    }

    /// The characters waiting for a tile, ascending.
    pub fn pending_glyphs(&self) -> (s: &[char])
        ensures
            s@ == self@.pending,
    {
        self.pending.as_slice()
    }

    /// The size of a glyph cell in whole pixels.
    pub fn cell_size(&self) -> (s: (u32, u32))
        ensures
            s == (self@.layout.cell_w, self@.layout.cell_h),
    {
        (self.layout.cell_w, self.layout.cell_h)
    }

    /// The geometry of the texture.
    pub fn layout(&self) -> (l: AtlasLayout)
        ensures
            l == self@.layout,
    {
        self.layout
    }

    /// The nominal font size, in thousandths of a pixel.
    pub fn font_size(&self) -> (s: u32)
        ensures
            s == self@.font_size,
    {
        self.font_size
    }

    /// The display scale that the texture was rasterized for, in thousandths.
    pub fn scale_factor(&self) -> (s: u32)
        ensures
            s == self@.scale_factor,
    {
        self.scale_factor
    }

    /// The font data, which parses.
    pub fn font_bytes(&self) -> (b: &[u8])
        ensures
            b@ == self@.font,
            font_parses(self@.font),
    {
        self.font.bytes()
    }

    /// The texture: four bytes a pixel, row by row.
    pub fn pixels(&self) -> (p: &[u8])
        ensures
            p@ == self@.pixels,
    {
        self.pixels.as_slice()
    }

    /// Puts `ch` among the characters waiting for a tile.
    pub fn request_glyph(&mut self, ch: char)
        requires
            old(self).wf(),
        ensures
            final(self).wf(),
            final(self)@ == (AtlasView {
                pending: charset::inserted(old(self)@.pending, ch),
                ..old(self)@
            }),
            final(self)@.pending.to_set() == old(self)@.pending.to_set().insert(ch),
    {
        self.pending.insert(ch);
    }

    /// Takes one sample of coverage for tile `tile` at offset `(x, y)`
    /// from the tile's origin. The sample is clipped to the tile's slot.
    pub fn plot(&mut self, tile: u32, x: i64, y: i64, alpha: u8)
        requires
            old(self).wf(),
        ensures
            final(self).wf(),
            final(self)@ == (AtlasView {
                pixels: old(self)@.plotted(tile as int, x as int, y as int, alpha),
                ..old(self)@
            }),
    {
        if tile >= self.layout.glyph_count {
            return ;
        }
        let sw: u32 = self.layout.stride_w_px();
        let sh: u32 = self.layout.stride_h_px();
        if x < 0 || y < 0 || x >= sw as i64 || y >= sh as i64 {
            return ;
        }
        let (ox, oy) = self.layout.tile_origin(tile);
        let width: u64 = self.layout.width_px() as u64;
        let px: u64 = ox as u64 + x as u64;
        let py: u64 = oy as u64 + y as u64;
        proof {
            self.layout.lemma_slot_in_texture(tile as int);
            self.layout.lemma_pixel_bytes(px as int, py as int, px as int, py as int);
            assert(py * width + px == self.layout.byte_at(px as int, py as int) / 4);
        }
        let at: usize = ((py * width + px) * 4) as usize;
        let old_alpha: u8 = self.pixels[at + 3];
        let a: u8 = if old_alpha < alpha {
            alpha
        } else {
            old_alpha
        };
        self.pixels.set(at, 255);
        self.pixels.set(at + 1, 255);
        self.pixels.set(at + 2, 255);
        self.pixels.set(at + 3, a);
    }

    /// Takes in the pending characters that the font can draw: the glyph
    /// map is renumbered over the old and the new characters together, the
    /// texture is emptied for the new layout, and nothing is left pending.
    /// Nothing but the pending list changes when no pending character can
    /// be drawn or when the larger texture would not fit. Returns whether
    /// the atlas was rebuilt.
    pub fn expand(&mut self) -> (grew: bool)
        requires
            old(self).wf(),
        ensures
            final(self).wf(),
            grew == old(self)@.can_expand(),
            final(self)@ == old(self)@.expanded(),
            grew ==> final(self)@.chars.to_set() == old(self)@.chars.to_set().union(
                old(self)@.drawable_pending(),
            ),
    {
        let fresh = collect(&self.font, self.pending.as_slice(), true);
        proof {
            assert(fresh@.to_set() =~= self@.drawable_pending());
            if fresh@.len() > 0 {
                assert(fresh@.to_set().contains(fresh@[0]));
            }
        }
        self.pending.clear();
        if fresh.is_empty() {
            return false;
        }
        let mut merged = CharSet::new();
        merged.extend(&self.chars);
        merged.extend(&fresh);
        proof {
            assert(Seq::<char>::empty().to_set().union(old(self)@.chars.to_set())
                =~= old(self)@.chars.to_set());
        }
        match AtlasLayout::plan(self.layout.cell_w, self.layout.cell_h, merged.len()) {
            Some(layout) => {
                self.pixels = blank_pixels(byte_count(&layout));
                self.layout = layout;
                self.chars = merged;
                true
            },
            None => false,
        }
    }

    /// Rebuilds the atlas for another font size or display scale, with the
    /// cell size that goes with them: same characters, new layout, empty
    /// texture. Nothing changes when size and scale are the ones the atlas
    /// has, or when the new texture would not fit. Returns whether the atlas
    /// was rebuilt.
    pub fn resize(&mut self, font_size: u32, scale_factor: u32, cell_w: u32, cell_h: u32) -> (rebuilt:
        bool)
        requires
            old(self).wf(),
        ensures
            final(self).wf(),
            rebuilt == old(self)@.can_resize(font_size, scale_factor, cell_w, cell_h),
            final(self)@ == old(self)@.resized(font_size, scale_factor, cell_w, cell_h),
    {
        if font_size == self.font_size && scale_factor == self.scale_factor {
            return false;
        }
        match AtlasLayout::plan(cell_w, cell_h, self.chars.len()) {
            Some(layout) => {
                self.pixels = blank_pixels(byte_count(&layout));
                self.layout = layout;
                self.font_size = font_size;
                self.scale_factor = scale_factor;
                true
            },
            None => false,
        }
    }
}

/// A sample plotted for one tile changes no byte of a pixel outside that
/// tile's slot.
pub proof fn lemma_plot_stays_in_slot(
    v: AtlasView,
    tile: int,
    x: int,
    y: int,
    alpha: u8,
    px: int,
    py: int,
    k: int,
)
    requires
        v.wf(),
        0 <= px < v.layout.width(),
        0 <= py < v.layout.height(),
        !v.layout.in_slot(tile, px, py),
        0 <= k < 4,
    ensures
        v.plotted(tile, x, y, alpha).len() == v.pixels.len(),
        v.plotted(tile, x, y, alpha)[v.layout.byte_at(px, py) + k] == v.pixels[v.layout.byte_at(
            px,
            py,
        ) + k],
{
    if 0 <= tile < v.layout.glyph_count && 0 <= x < v.layout.stride_w() && 0 <= y
        < v.layout.stride_h() {
        let qx = v.layout.origin_x(tile) + x;
        let qy = v.layout.origin_y(tile) + y;
        v.layout.lemma_slot_in_texture(tile);
        assert(v.layout.in_slot(tile, qx, qy));
        v.layout.lemma_pixel_bytes(px, py, qx, qy);
        v.layout.lemma_pixel_bytes(qx, qy, px, py);
    }
}

/// Tiles do not bleed into each other: a sample plotted for one tile
/// changes no byte of a pixel in the slot of another tile, whatever the
/// sample's offset.
pub proof fn lemma_plot_spares_other_tiles(
    v: AtlasView,
    tile: int,
    other: int,
    x: int,
    y: int,
    alpha: u8,
    px: int,
    py: int,
    k: int,
)
    requires
        v.wf(),
        0 <= other < v.layout.glyph_count,
        other != tile,
        v.layout.in_slot(other, px, py),
        0 <= k < 4,
    ensures
        0 <= px < v.layout.width(),
        0 <= py < v.layout.height(),
        v.plotted(tile, x, y, alpha)[v.layout.byte_at(px, py) + k] == v.pixels[v.layout.byte_at(
            px,
            py,
        ) + k],
{
    v.layout.lemma_slot_in_texture(other);
    if 0 <= tile {
        v.layout.lemma_slots_disjoint(other, tile, px, py);
        lemma_plot_stays_in_slot(v, tile, x, y, alpha, px, py, k);
    }
}

/// The glyph map depends on the set of characters alone: two atlases that
/// hold the same characters give every character the same tile, and with
/// the same cell size they have the same layout.
pub proof fn lemma_same_chars_same_tiles(a: AtlasView, b: AtlasView)
    requires
        a.wf(),
        b.wf(),
        a.chars.to_set() == b.chars.to_set(),
    ensures
        a.chars == b.chars,
        a.glyph_map() == b.glyph_map(),
        (a.layout.cell_w == b.layout.cell_w && a.layout.cell_h == b.layout.cell_h) ==> a.layout
            == b.layout,
{
    charset::lemma_ascending_unique(a.chars, b.chars);
}

/// An expansion keeps the tile of a character that every newly added
/// character sorts after.
pub proof fn lemma_expansion_keeps_tile(v: AtlasView, c: char)
    requires
        v.wf(),
        v.can_expand(),
        v.chars.contains(c),
        forall|x: char|
            v.drawable_pending().contains(x) && !v.chars.contains(x) ==> (c as int) < (x as int),
    ensures
        ascending(v.expanded_chars()),
        v.expanded_chars().to_set() == v.chars.to_set().union(v.drawable_pending()),
        v.expanded_chars().contains(c),
        v.expanded_chars().index_of(c) == v.chars.index_of(c),
{
    lemma_expanded_chars(v);
    let after = v.expanded_chars();
    assert forall|x: char| after.contains(x) && !v.chars.contains(x) implies (c as int) < (
    x as int) by {
        assert(after.to_set().contains(x));
        assert(!v.chars.to_set().contains(x));
    }
    assert forall|x: char| v.chars.to_set().contains(x) implies after.to_set().contains(x) by {}
    charset::lemma_growth_keeps_place(v.chars, after, c);
}

/// The characters after an expansion are the old ones and the drawable
/// pending ones, ascending.
pub proof fn lemma_expanded_chars(v: AtlasView)
    requires
        v.wf(),
    ensures
        ascending(v.expanded_chars()),
        v.expanded_chars().to_set() == v.chars.to_set().union(v.drawable_pending()),
{
    let target = v.chars.to_set().union(v.drawable_pending());
    let witness = lemma_ascending_exists(v.chars, v.pending, v.font, v.pending.len() as int);
    assert(witness.to_set() =~= target) by {
        assert(v.pending.take(v.pending.len() as int) =~= v.pending);
        assert forall|x: char| witness.to_set().contains(x) == target.contains(x) by {
            assert(witness.contains(x) == witness.to_set().contains(x));
            assert(v.chars.contains(x) == v.chars.to_set().contains(x));
        }
    }
}

/// There is an ascending sequence of the characters of `chars` and the
/// drawable ones among the first `n` pending characters.
proof fn lemma_ascending_exists(chars: Seq<char>, pending: Seq<char>, font: Seq<u8>, n: int) -> (s:
    Seq<char>)
    requires
        ascending(chars),
        0 <= n <= pending.len(),
    ensures
        ascending(s),
        forall|x: char|
            s.contains(x) <==> (chars.contains(x) || (pending.take(n).contains(x) && renderable(
                font,
                x,
            ))),
    decreases n,
{
    if n == 0 {
        assert(pending.take(0) =~= Seq::<char>::empty());
        chars
    } else {
        let prev = lemma_ascending_exists(chars, pending, font, n - 1);
        let c = pending[n - 1];
        let upto = pending.take(n);
        let before = pending.take(n - 1);
        assert(upto =~= before.push(c));
        assert forall|x: char| upto.contains(x) <==> (before.contains(x) || x == c) by {
            if upto.contains(x) {
                let k = upto.index_of(x);
                if k < n - 1 {
                    assert(before[k] == x);
                }
            }
            if before.contains(x) {
                let k = before.index_of(x);
                assert(upto[k] == x);
            }
            assert(upto[n - 1] == c);
        }
        if renderable(font, c) {
            let k = rank_place(prev, c);
            charset::lemma_inserted(prev, c, k);
            let s = charset::inserted(prev, c);
            assert forall|x: char|
                s.contains(x) <==> (chars.contains(x) || (upto.contains(x) && renderable(
                    font,
                    x,
                ))) by {
                assert(s.contains(x) == s.to_set().contains(x));
                assert(prev.contains(x) == prev.to_set().contains(x));
            }
            s
        } else {
            prev
        }
    }
}

/// The place at which the entries of an ascending sequence stop being
/// below `c`.
proof fn rank_place(s: Seq<char>, c: char) -> (k: int)
    requires
        ascending(s),
    ensures
        0 <= k <= s.len(),
        forall|i: int| 0 <= i < k ==> (s[i] as int) < (c as int),
        forall|i: int| k <= i < s.len() ==> (s[i] as int) >= (c as int),
    decreases s.len(),
{
    if s.len() == 0 {
        0
    } else if (s.last() as int) < (c as int) {
        assert forall|i: int| 0 <= i < s.len() implies (s[i] as int) < (c as int) by {
            if i < s.len() - 1 {
                assert((s[i] as int) < (s[s.len() - 1] as int));
            }
        }
        s.len() as int
    } else {
        let t = s.drop_last();
        let k = rank_place(t, c);
        assert forall|i: int| k <= i < s.len() implies (s[i] as int) >= (c as int) by {
            if i < s.len() - 1 {
                assert(t[i] == s[i]);
            }
        }
        assert forall|i: int| 0 <= i < k implies (s[i] as int) < (c as int) by {
            assert(t[i] == s[i]);
        }
        k
    }
}

/// The size of a layout's texture in bytes.
fn byte_count(layout: &AtlasLayout) -> (n: usize)
    requires
        layout.wf(),
    ensures
        n == layout.byte_len(),
{
    let w: u64 = layout.width_px() as u64;
    let h: u64 = layout.height_px() as u64;
    assert(4 * w * h == layout.byte_len());
    assert(4 * (w * h) == 4 * w * h && w * h <= 0xffff_ffff) by (nonlinear_arith)
        requires
            4 * w * h <= 0xffff_ffff,
            0 <= w,
            0 <= h,
    ;
    (4 * (w * h)) as usize
}

} // verus!
