//! Where the tiles of the atlas texture lie.
//!
//! Tiles stand in a grid of [`ATLAS_COLS`] columns. Each tile owns a slot
//! one stride wide and high; the glyph cell is the top-left part of the
//! slot and the rest is padding, so that what a glyph draws past its cell
//! lands in dead space and never in a neighbour's cell.

use vstd::prelude::*;

verus! {

/// The number of tile columns in the atlas.
pub const ATLAS_COLS: u32 = 16;

/// The least padding between tiles, in pixels.
pub const MIN_PAD: u32 = 4;

/// The largest number of bytes an atlas texture may have.
pub const MAX_TEXTURE_BYTES: u32 = 0xffff_ffff;

/// The geometry of an atlas: the size of a glyph cell in whole pixels and
/// the number of tiles. Everything else follows from these.
#[derive(Clone, Copy, Debug, PartialEq, Eq, Structural)]
pub struct AtlasLayout {
    pub cell_w: u32,
    pub cell_h: u32,
    pub glyph_count: u32,
}

impl AtlasLayout {
    /// The padding after each tile, both ways: half a cell width, at least
    /// [`MIN_PAD`].
    pub open spec fn pad(self) -> int {
        if self.cell_w / 2 > MIN_PAD {
            self.cell_w as int / 2
        } else {
            MIN_PAD as int
        }
    }

    /// The distance from one tile to the next in a row.
    pub open spec fn stride_w(self) -> int {
        self.cell_w + self.pad()
    }

    /// The distance from one tile row to the next.
    pub open spec fn stride_h(self) -> int {
        self.cell_h + self.pad()
    }

    /// The number of tile rows: the tile count over the columns, rounded up.
    pub open spec fn rows(self) -> int {
        (self.glyph_count + ATLAS_COLS - 1) / (ATLAS_COLS as int)
    }

    /// The width of the texture in pixels.
    pub open spec fn width(self) -> int {
        ATLAS_COLS * self.stride_w()
    }

    /// The height of the texture in pixels.
    pub open spec fn height(self) -> int {
        self.rows() * self.stride_h()
    }

    /// The size of the texture in bytes, at four bytes a pixel.
    pub open spec fn byte_len(self) -> int {
        4 * self.width() * self.height()
    }

    /// The strides and the texture's width, height and byte length all fit
    /// in 32 bits.
    pub open spec fn wf(self) -> bool {
        &&& self.stride_h() <= MAX_TEXTURE_BYTES
        &&& self.width() <= MAX_TEXTURE_BYTES
        &&& self.height() <= MAX_TEXTURE_BYTES
        &&& self.byte_len() <= MAX_TEXTURE_BYTES
    }

    /// The left edge of tile `i`'s slot.
    pub open spec fn origin_x(self, i: int) -> int {
        (i % (ATLAS_COLS as int)) * self.stride_w()
    }

    /// The top edge of tile `i`'s slot.
    pub open spec fn origin_y(self, i: int) -> int {
        (i / (ATLAS_COLS as int)) * self.stride_h()
    }

    /// Pixel `(x, y)` lies in the slot of tile `i`.
    pub open spec fn in_slot(self, i: int, x: int, y: int) -> bool {
        &&& self.origin_x(i) <= x < self.origin_x(i) + self.stride_w()
        &&& self.origin_y(i) <= y < self.origin_y(i) + self.stride_h()
    }

    /// Pixel `(x, y)` lies in the glyph cell of tile `i`, the part of the
    /// slot that is shown on screen.
    pub open spec fn in_cell(self, i: int, x: int, y: int) -> bool {
        &&& self.origin_x(i) <= x < self.origin_x(i) + self.cell_w
        &&& self.origin_y(i) <= y < self.origin_y(i) + self.cell_h
    }

    /// The index of the first of the four bytes of pixel `(x, y)`.
    pub open spec fn byte_at(self, x: int, y: int) -> int {
        (y * self.width() + x) * 4
    }

    /// The layout for `glyph_count` tiles of the given cell size, or `None`
    /// when its texture would not fit in 32 bits.
    pub fn plan(cell_w: u32, cell_h: u32, glyph_count: usize) -> (r: Option<AtlasLayout>)
        ensures
            match r {
                Some(l) => l.wf() && l.cell_w == cell_w && l.cell_h == cell_h && l.glyph_count
                    == glyph_count,
                None => glyph_count > u32::MAX || !(AtlasLayout {
                    cell_w,
                    cell_h,
                    glyph_count: glyph_count as u32,
                }).wf(),
            },
    {
        if glyph_count > 0xffff_ffff {
            return None;
        }
        let l = AtlasLayout { cell_w, cell_h, glyph_count: glyph_count as u32 };
        let pad: u64 = if cell_w / 2 > MIN_PAD {
            (cell_w / 2) as u64
        } else {
            MIN_PAD as u64
        };
        let width: u64 = 16 * (cell_w as u64 + pad);
        let rows: u64 = (glyph_count as u64 + 15) / 16;
        let stride_h: u64 = cell_h as u64 + pad;
        assert(rows * stride_h <= 0x1000_0000 * 0x2_0000_0000) by (nonlinear_arith)
            requires
                0 <= rows <= 0x1000_0000,
                0 <= stride_h <= 0x2_0000_0000,
        ;
        let height: u64 = rows * stride_h;
        if stride_h > 0xffff_ffff || width > 0xffff_ffff || height > 0xffff_ffff {
            return None;
        }
        assert(width * height <= 0xffff_ffff * 0xffff_ffff) by (nonlinear_arith)
            requires
                0 <= width <= 0xffff_ffff,
                0 <= height <= 0xffff_ffff,
        ;
        let area: u64 = width * height;
        assert(l.byte_len() == 4 * area) by (nonlinear_arith)
            requires
                l.byte_len() == 4 * l.width() * l.height(),
                l.width() == width,
                l.height() == height,
                area == width * height,
        ;
        if area > 0x3fff_ffff {
            return None;
        }
        Some(l)
    }

    /// The padding after each tile, in pixels.
    pub fn pad_px(&self) -> (p: u32)
        requires
            self.wf(),
        ensures
            p == self.pad(),
    {
        if self.cell_w / 2 > MIN_PAD {
            self.cell_w / 2
        } else {
            MIN_PAD
        }
    }

    /// The distance from one tile to the next in a row, in pixels.
    pub fn stride_w_px(&self) -> (s: u32)
        requires
            self.wf(),
        ensures
            s == self.stride_w(),
    {
        self.cell_w + self.pad_px()
    }

    /// The distance from one tile row to the next, in pixels.
    pub fn stride_h_px(&self) -> (s: u32)
        requires
            self.wf(),
        ensures
            s == self.stride_h(),
    {
        self.cell_h + self.pad_px()
    }

    /// The number of tile rows.
    pub fn row_count(&self) -> (r: u32)
        ensures
            r == self.rows(),
    {
        ((self.glyph_count as u64 + 15) / 16) as u32
    }

    /// The width of the texture in pixels.
    pub fn width_px(&self) -> (w: u32)
        requires
            self.wf(),
        ensures
            w == self.width(),
    {
        ATLAS_COLS * self.stride_w_px()
    }

    /// The height of the texture in pixels.
    pub fn height_px(&self) -> (h: u32)
        requires
            self.wf(),
        ensures
            h == self.height(),
    {
        let h: u64 = self.row_count() as u64 * self.stride_h_px() as u64;
        h as u32
    }

    /// The top-left corner of tile `i`'s slot, which is also the top-left
    /// corner of its glyph cell.
    pub fn tile_origin(&self, i: u32) -> (o: (u32, u32))
        requires
            self.wf(),
            i < self.glyph_count,
        ensures
            o.0 == self.origin_x(i as int),
            o.1 == self.origin_y(i as int),
    {
        proof {
            self.lemma_slot_in_texture(i as int);
        }
        let x: u64 = (i % ATLAS_COLS) as u64 * self.stride_w_px() as u64;
        let y: u64 = (i / ATLAS_COLS) as u64 * self.stride_h_px() as u64;
        (x as u32, y as u32)
    }

    /// The slot of every tile lies inside the texture.
    pub proof fn lemma_slot_in_texture(self, i: int)
        requires
            0 <= i < self.glyph_count,
        ensures
            0 <= self.origin_x(i),
            0 <= self.origin_y(i),
            self.origin_x(i) + self.stride_w() <= self.width(),
            self.origin_y(i) + self.stride_h() <= self.height(),
    {
        let c = i % 16;
        let r = i / 16;
        let sw = self.stride_w();
        let sh = self.stride_h();
        assert(r < self.rows());
        assert(0 <= c * sw && c * sw + sw <= 16 * sw) by (nonlinear_arith)
            requires
                0 <= c < 16,
                0 <= sw,
        ;
        assert(0 <= r * sh && r * sh + sh <= self.rows() * sh) by (nonlinear_arith)
            requires
                0 <= r < self.rows(),
                0 <= sh,
        ;
    }

    /// The glyph cell of a tile lies in the tile's slot.
    pub proof fn lemma_cell_in_slot(self, i: int, x: int, y: int)
        requires
            self.in_cell(i, x, y),
        ensures
            self.in_slot(i, x, y),
    {
    }

    /// The four bytes of a pixel of the texture lie in the texture, and
    /// the bytes of two different pixels do not overlap.
    pub proof fn lemma_pixel_bytes(self, x: int, y: int, x2: int, y2: int)
        requires
            0 <= x < self.width(),
            0 <= y < self.height(),
            0 <= x2 < self.width(),
            0 <= y2 < self.height(),
        ensures
            0 <= self.byte_at(x, y),
            self.byte_at(x, y) + 4 <= self.byte_len(),
            (x != x2 || y != y2) ==> (self.byte_at(x, y) + 4 <= self.byte_at(x2, y2)
                || self.byte_at(x2, y2) + 4 <= self.byte_at(x, y)),
    {
        let w = self.width();
        let h = self.height();
        assert(0 <= y * w && y * w + w <= h * w) by (nonlinear_arith)
            requires
                0 <= y < h,
                0 <= w,
        ;
        assert(4 * w * h == (h * w) * 4) by (nonlinear_arith);
        if y < y2 {
            assert(y * w + w <= y2 * w) by (nonlinear_arith)
                requires
                    y + 1 <= y2,
                    0 <= w,
            ;
        } else if y2 < y {
            assert(y2 * w + w <= y * w) by (nonlinear_arith)
                requires
                    y2 + 1 <= y,
                    0 <= w,
            ;
        }
    }

    /// The slots of two different tiles share no pixel.
    pub proof fn lemma_slots_disjoint(self, i: int, j: int, x: int, y: int)
        requires
            0 <= i,
            0 <= j,
            i != j,
            self.in_slot(i, x, y),
        ensures
            !self.in_slot(j, x, y),
    {
        let sw = self.stride_w();
        let sh = self.stride_h();
        assert(sw > 0 && sh > 0);
        if i % 16 != j % 16 {
            lemma_bands_disjoint(i % 16, j % 16, sw, x);
        } else {
            assert(i / 16 != j / 16);
            lemma_bands_disjoint(i / 16, j / 16, sh, y);
        }
    }
}

/// Bands of equal width laid side by side: a point of band `a` is in no
/// other band.
pub proof fn lemma_bands_disjoint(a: int, b: int, stride: int, x: int)
    requires
        a != b,
        stride > 0,
        a * stride <= x < a * stride + stride,
    ensures
        !(b * stride <= x < b * stride + stride),
{
    if a < b {
        assert(a * stride + stride <= b * stride) by (nonlinear_arith)
            requires
                a + 1 <= b,
                stride > 0,
        ;
    } else {
        assert(b * stride + stride <= a * stride) by (nonlinear_arith)
            requires
                b + 1 <= a,
                stride > 0,
        ;
    }
}

} // verus!
