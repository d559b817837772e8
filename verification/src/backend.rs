//! The in-memory character-cell buffer that a text UI draws into.
//!
//! The buffer keeps a flush generation, so a reader can tell in O(1) that
//! nothing was flushed since it last looked, and one dirty marker per cell,
//! so it can touch only what was written.

use crate::color::TermColor;
use vstd::prelude::*;

verus! {

/// Style bit: bold.
pub const BOLD: u16 = 0x1;

/// Style bit: dim.
pub const DIM: u16 = 0x2;

/// Style bit: italic.
pub const ITALIC: u16 = 0x4;

/// Style bit: underlined.
pub const UNDERLINED: u16 = 0x8;

/// One cell of the buffer: a symbol, two colors and style bits.
#[derive(Clone, Copy, Debug, PartialEq, Eq, Structural)]
pub struct BufferCell {
    pub symbol: char,
    pub fg: TermColor,
    pub bg: TermColor,
    pub modifier: u16,
}

/// The empty cell: a space in the default colors with no style bits.
pub open spec fn blank() -> BufferCell {
    BufferCell { symbol: ' ', fg: TermColor::Reset, bg: TermColor::Reset, modifier: 0 }
}

impl BufferCell {
    /// The empty cell.
    pub fn empty() -> (c: BufferCell)
        ensures
            c == blank(),
    {
        BufferCell { symbol: ' ', fg: TermColor::Reset, bg: TermColor::Reset, modifier: 0 }
    }

    /// Makes the cell empty.
    pub fn reset(&mut self)
        ensures
            *final(self) == blank(),
    {
        *self = BufferCell::empty();
    }
}

/// A cell position on the screen: column `x`, row `y`.
#[derive(Clone, Copy, Debug, PartialEq, Eq, Structural)]
pub struct Position {
    pub x: u16,
    pub y: u16,
}

/// A size in cells or in pixels.
#[derive(Clone, Copy, Debug, PartialEq, Eq, Structural)]
pub struct Size {
    pub width: u16,
    pub height: u16,
}

/// The size of the window in cells and in pixels.
#[derive(Clone, Copy, Debug, PartialEq, Eq, Structural)]
pub struct WindowSize {
    pub columns_rows: Size,
    pub pixels: Size,
}

/// Which part of the screen a clear touches, relative to the cursor.
#[derive(Clone, Copy, Debug, PartialEq, Eq, Structural)]
pub enum ClearType {
    All,
    AfterCursor,
    BeforeCursor,
    CurrentLine,
    UntilNewLine,
}

/// One write request: the cell to put at column `.0`, row `.1`.
pub type Write = (u16, u16, BufferCell);

/// What a backend is, to its callers.
pub struct BackendView {
    pub width: u16,
    pub height: u16,
    /// The cells, row by row.
    pub cells: Seq<BufferCell>,
    /// One marker per cell: written since the markers were last cleared.
    pub dirty: Seq<bool>,
    pub cursor: Position,
    pub cursor_visible: bool,
    pub generation: u64,
}

impl BackendView {
    /// The buffer index of a position.
    pub open spec fn index_of(self, x: int, y: int) -> int {
        y * self.width + x
    }

    /// The position is on the screen.
    pub open spec fn in_bounds(self, x: int, y: int) -> bool {
        0 <= x < self.width && 0 <= y < self.height
    }

    /// The view after one write: the cell replaced and marked dirty when the
    /// position is on the screen, nothing otherwise.
    pub open spec fn put(self, w: Write) -> BackendView {
        if self.in_bounds(w.0 as int, w.1 as int) {
            let i = self.index_of(w.0 as int, w.1 as int);
            BackendView { cells: self.cells.update(i, w.2), dirty: self.dirty.update(i, true), ..self }
        } else {
            self
        }
    }

    /// The view after a run of writes, applied first to last.
    pub open spec fn put_all(self, writes: Seq<Write>) -> BackendView
        decreases writes.len(),
    {
        if writes.len() == 0 {
            self
        } else {
            self.put_all(writes.drop_last()).put(writes.last())
        }
    }

    /// The half-open range of buffer indices that a clear touches. A range
    /// whose start is not below its end is empty.
    pub open spec fn clear_range(self, clear_type: ClearType) -> (int, int) {
        let len = self.cells.len() as int;
        let at = self.index_of(self.cursor.x as int, self.cursor.y as int);
        let line = self.index_of(0, self.cursor.y as int);
        match clear_type {
            ClearType::All => (0, len),
            ClearType::AfterCursor => (at, len),
            ClearType::BeforeCursor => (0, if at < len { at } else { len }),
            ClearType::CurrentLine => (line, if line + self.width < len { line + self.width } else { len }),
            ClearType::UntilNewLine => (at, if line + self.width < len { line + self.width } else { len }),
        }
    }

    /// The view with the cells of `lo .. hi` emptied and marked dirty.
    pub open spec fn cleared(self, lo: int, hi: int) -> BackendView {
        BackendView {
            cells: Seq::new(
                self.cells.len(),
                |i: int| if lo <= i < hi { blank() } else { self.cells[i] },
            ),
            dirty: Seq::new(self.dirty.len(), |i: int| lo <= i < hi || self.dirty[i]),
            ..self
        }
    }
}

/// An in-memory terminal backend: a `width` x `height` buffer of cells, a
/// cursor, a flush generation and per-cell dirty markers.
pub struct BevyBackend {
    width: u16,
    height: u16,
    buffer: Vec<BufferCell>,
    dirty: Vec<bool>,
    cursor: Position,
    cursor_visible: bool,
    flush_generation: u64,
}

impl View for BevyBackend {
    type V = BackendView;

    closed spec fn view(&self) -> BackendView {
        BackendView {
            width: self.width,
            height: self.height,
            cells: self.buffer@,
            dirty: self.dirty@,
            cursor: self.cursor,
            cursor_visible: self.cursor_visible,
            generation: self.flush_generation,
        }
    }
}

impl BevyBackend {
    /// There is one cell and one dirty marker per screen position.
    pub open spec fn wf(&self) -> bool {
        &&& self@.cells.len() == self@.width * self@.height
        &&& self@.dirty.len() == self@.cells.len()
    }

    /// A backend of the given size: every cell empty and marked dirty, the
    /// cursor hidden at the origin, generation 0.
    pub fn new(width: u16, height: u16) -> (b: BevyBackend)
        ensures
            b.wf(),
            b@.width == width,
            b@.height == height,
            b@.cells == Seq::new((width * height) as nat, |i: int| blank()),
            b@.dirty == Seq::new((width * height) as nat, |i: int| true),
            b@.cursor == (Position { x: 0, y: 0 }),
            !b@.cursor_visible,
            b@.generation == 0,
    {
        let size: usize = area(width, height);
        let mut buffer: Vec<BufferCell> = Vec::new();
        let mut dirty: Vec<bool> = Vec::new();
        let mut i: usize = 0;
        while i < size
            invariant
                i <= size,
                buffer@.len() == i,
                dirty@.len() == i,
                forall|j: int| 0 <= j < i ==> buffer@[j] == blank(),
                forall|j: int| 0 <= j < i ==> dirty@[j],
            decreases size - i,
        {
            buffer.push(BufferCell::empty());
            dirty.push(true);
            i += 1;
        }
        let b = BevyBackend {
            width,
            height,
            buffer,
            dirty,
            cursor: Position { x: 0, y: 0 },
            cursor_visible: false,
            flush_generation: 0,
        };
        assert(b@.cells =~= Seq::new((width * height) as nat, |i: int| blank()));
        assert(b@.dirty =~= Seq::new((width * height) as nat, |i: int| true));
        b
    }

    /// The number of flushes so far, modulo 2^64.
    pub fn generation(&self) -> (g: u64)
        ensures
            g == self@.generation,
    {
        self.flush_generation
    }

    /// The cells, row by row.
    pub fn buffer(&self) -> (cells: &[BufferCell])
        ensures
            cells@ == self@.cells,
    {
        self.buffer.as_slice()
    }

    /// The cell at column `col`, row `row`, if it is on the screen.
    pub fn cell(&self, col: u16, row: u16) -> (c: Option<&BufferCell>)
        requires
            self.wf(),
        ensures
            c is Some <==> self@.in_bounds(col as int, row as int),
            c matches Some(cell) ==> *cell == self@.cells[self@.index_of(col as int, row as int)],
    {
        if col < self.width && row < self.height {
            proof {
                lemma_index_in_range(self.width as int, self.height as int, col as int, row as int);
            }
            Some(&self.buffer[flat_index(self.width, col, row)])
        } else {
            None
        }
    }

    /// The dirty markers, one per cell, row by row.
    pub fn dirty_cells(&self) -> (marks: &[bool])
        ensures
            marks@ == self@.dirty,
    {
        self.dirty.as_slice()
    }

    /// Clears every dirty marker and changes nothing else.
    pub fn clear_dirty(&mut self)
        requires
            old(self).wf(),
        ensures
            final(self).wf(),
            final(self)@ == (BackendView {
                dirty: Seq::new(old(self)@.dirty.len(), |i: int| false),
                ..old(self)@
            }),
    {
        self.fill_dirty(false);
    }

    /// Sets every dirty marker and changes nothing else.
    pub fn mark_all_dirty(&mut self)
        requires
            old(self).wf(),
        ensures
            final(self).wf(),
            final(self)@ == (BackendView {
                dirty: Seq::new(old(self)@.dirty.len(), |i: int| true),
                ..old(self)@
            }),
    {
        self.fill_dirty(true);
    }

    fn fill_dirty(&mut self, mark: bool)
        requires
            old(self).wf(),
        ensures
            final(self).wf(),
            final(self)@ == (BackendView {
                dirty: Seq::new(old(self)@.dirty.len(), |i: int| mark),
                ..old(self)@
            }),
    {
        let n: usize = self.dirty.len();
        let mut i: usize = 0;
        while i < n
            invariant
                i <= n,
                n == self.dirty@.len(),
                self.wf(),
                self@ == (BackendView { dirty: self@.dirty, ..old(self)@ }),
                forall|j: int| 0 <= j < i ==> self@.dirty[j] == mark,
            decreases n - i,
        {
            self.dirty.set(i, mark);
            i += 1;
        }
        assert(self@.dirty =~= Seq::new(old(self)@.dirty.len(), |i: int| mark));
    }

    /// Writes cells at positions, first to last; a position off the screen
    /// is skipped. Each written cell is marked dirty.
    pub fn draw(&mut self, content: Vec<Write>)
        requires
            old(self).wf(),
        ensures
            final(self).wf(),
            final(self)@ == old(self)@.put_all(content@),
    {
        let mut k: usize = 0;
        while k < content.len()
            invariant
                k <= content.len(),
                self.wf(),
                self@ == old(self)@.put_all(content@.take(k as int)),
            decreases content.len() - k,
        {
            let (x, y, cell) = content[k];
            if x < self.width && y < self.height {
                proof {
                    lemma_index_in_range(self.width as int, self.height as int, x as int, y as int);
                }
                let idx: usize = flat_index(self.width, x, y);
                self.buffer.set(idx, cell);
                self.dirty.set(idx, true);
            }
            proof {
                let upto = content@.take(k as int + 1);
                assert(upto.drop_last() =~= content@.take(k as int));
                assert(upto.last() == content@[k as int]);
            }
            k += 1;
        }
        assert(content@.take(content.len() as int) =~= content@);
    }

    /// Hides the cursor.
    pub fn hide_cursor(&mut self)
        ensures
            final(self)@ == (BackendView { cursor_visible: false, ..old(self)@ }),
    {
        self.cursor_visible = false;
    }

    /// Shows the cursor.
    pub fn show_cursor(&mut self)
        ensures
            final(self)@ == (BackendView { cursor_visible: true, ..old(self)@ }),
    {
        self.cursor_visible = true;
    }

    /// Where the cursor is.
    pub fn get_cursor_position(&self) -> (p: Position)
        ensures
            p == self@.cursor,
    {
        self.cursor
    }

    /// Moves the cursor; any position is accepted, on the screen or off it.
    pub fn set_cursor_position(&mut self, position: Position)
        ensures
            final(self)@ == (BackendView { cursor: position, ..old(self)@ }),
    {
        self.cursor = position;
    }

    /// Empties every cell and marks it dirty.
    pub fn clear(&mut self)
        requires
            old(self).wf(),
        ensures
            final(self).wf(),
            final(self)@ == old(self)@.cleared(0, old(self)@.cells.len() as int),
    {
        let n: usize = self.buffer.len();
        self.clear_between(0, n);
    }

    /// Empties the cells that `clear_type` names, relative to the cursor,
    /// and marks them dirty. With the cursor off the screen the part of
    /// the named range that lies in the buffer is cleared.
    pub fn clear_region(&mut self, clear_type: ClearType)
        requires
            old(self).wf(),
        ensures
            final(self).wf(),
            final(self)@ == old(self)@.cleared(
                old(self)@.clear_range(clear_type).0,
                old(self)@.clear_range(clear_type).1,
            ),
    {
        let len: usize = self.buffer.len();
        let at: usize = flat_index(self.width, self.cursor.x, self.cursor.y);
        let line: usize = flat_index(self.width, 0, self.cursor.y);
        assert(line + self.width <= 0xffff * 0xffff + 0xffff) by (nonlinear_arith)
            requires
                line == self.cursor.y * self.width,
                0 <= self.width <= 0xffff,
                0 <= self.cursor.y <= 0xffff,
        ;
        let line_end: usize = if line + (self.width as usize) < len {
            line + self.width as usize
        } else {
            len
        };
        match clear_type {
            ClearType::All => self.clear_between(0, len),
            ClearType::AfterCursor => self.clear_between(at, len),
            ClearType::BeforeCursor => self.clear_between(0, if at < len { at } else { len }),
            ClearType::CurrentLine => self.clear_between(line, line_end),
            ClearType::UntilNewLine => self.clear_between(at, line_end),
        }
    }

    fn clear_between(&mut self, lo: usize, hi: usize)
        requires
            old(self).wf(),
            hi <= old(self)@.cells.len(),
        ensures
            final(self).wf(),
            final(self)@ == old(self)@.cleared(lo as int, hi as int),
    {
        let mut i: usize = lo;
        while i < hi
            invariant
                hi <= self@.cells.len(),
                self.wf(),
                lo <= i,
                i <= hi || i == lo,
                self@ == (BackendView { cells: self@.cells, dirty: self@.dirty, ..old(self)@ }),
                self@.cells.len() == old(self)@.cells.len(),
                forall|j: int|
                    0 <= j < self@.cells.len() ==> self@.cells[j] == if lo <= j < i {
                        blank()
                    } else {
                        old(self)@.cells[j]
                    },
                forall|j: int|
                    0 <= j < self@.dirty.len() ==> self@.dirty[j] == (lo <= j < i || old(self)@.dirty[j]),
            decreases hi - i,
        {
            self.buffer.set(i, BufferCell::empty());
            self.dirty.set(i, true);
            i += 1;
        }
        assert(self@.cells =~= old(self)@.cleared(lo as int, hi as int).cells);
        assert(self@.dirty =~= old(self)@.cleared(lo as int, hi as int).dirty);
    }

    /// The size of the screen in cells.
    pub fn size(&self) -> (s: Size)
        ensures
            s == (Size { width: self@.width, height: self@.height }),
    {
        Size { width: self.width, height: self.height }
    }

    /// The size in cells; the size in pixels is not known and reported as 0.
    pub fn window_size(&self) -> (s: WindowSize)
        ensures
            s.columns_rows == (Size { width: self@.width, height: self@.height }),
            s.pixels == (Size { width: 0, height: 0 }),
    {
        WindowSize {
            columns_rows: Size { width: self.width, height: self.height },
            pixels: Size { width: 0, height: 0 },
        }
    }

    /// Ends a draw pass: the generation moves on by one (from the largest
    /// value back to 0), so it differs from its value before the flush.
    pub fn flush(&mut self)
        ensures
            final(self)@ == (BackendView {
                generation: next_generation(old(self)@.generation),
                ..old(self)@
            }),
            final(self)@.generation != old(self)@.generation,
    {
        self.flush_generation = self.flush_generation.wrapping_add(1);
    }
}

/// The generation after one more flush.
pub open spec fn next_generation(g: u64) -> u64 {
    if g == u64::MAX {
        0
    } else {
        (g + 1) as u64
    }
}

/// The number of cells of a `width` x `height` screen.
pub fn area(width: u16, height: u16) -> (n: usize)
    ensures
        n == width * height,
{
    assert(width * height <= 0xffff * 0xffff) by (nonlinear_arith)
        requires
            0 <= width <= 0xffff,
            0 <= height <= 0xffff,
    ;
    width as usize * height as usize
}

/// The buffer index of column `x`, row `y` on a screen `width` cells wide.
pub fn flat_index(width: u16, x: u16, y: u16) -> (i: usize)
    ensures
        i == y * width + x,
{
    assert(y * width <= 0xffff * 0xffff) by (nonlinear_arith)
        requires
            0 <= width <= 0xffff,
            0 <= y <= 0xffff,
    ;
    y as usize * width as usize + x as usize
}

/// A position on a `width` x `height` screen has a buffer index below
/// `width * height`, and distinct positions have distinct indices.
pub proof fn lemma_index_in_range(width: int, height: int, x: int, y: int)
    requires
        0 <= x < width,
        0 <= y < height,
    ensures
        0 <= y * width + x < width * height,
        (y * width + x) % width == x,
        (y * width + x) / width == y,
{
    assert(y * width + x < width * height) by (nonlinear_arith)
        requires
            0 <= x < width,
            0 <= y < height,
    ;
    assert(0 <= y * width) by (nonlinear_arith)
        requires
            0 <= y,
            0 <= width,
    ;
    vstd::arithmetic::div_mod::lemma_fundamental_div_mod_converse(y * width + x, width, y, x);
}

} // verus!
