//! The display writer: exclusive owner of the surface storage, rendering
//! bytes cell by cell while tracking the cursor and scrolling on overflow.

use vstd::prelude::*;
use crate::screen::{
    Cell, ScreenState, GRID_CELLS, HEIGHT, NEWLINE, PLACEHOLDER, SPACE, WIDTH, blank_cell,
    blank_grid, initial_screen, line_feed, put_byte, put_bytes, scrolled_grid,
    lemma_put_bytes_snoc,
};

verus! {

/// The one writer of the display surface. It owns the cell storage outright;
/// on real hardware the same cells live in a fixed memory-mapped region, and
/// the single instance stands for exclusive write access to it.
pub struct Writer {
    cells: Vec<Cell>,
    row: usize,
    col: usize,
    attr: u8,
}

impl View for Writer {
    type V = ScreenState;

    closed spec fn view(&self) -> ScreenState {
        ScreenState {
            grid: self.cells@,
            row: self.row as int,
            col: self.col as int,
            attr: self.attr,
        }
    }
}

impl Writer {
    /// A fresh writer over a blank surface, cursor at the top left, with the
    /// given color attribute.
    pub fn new(attr: u8) -> (w: Writer)
        ensures
            w@.wf(),
            w@ == initial_screen(attr),
    {
        let mut cells: Vec<Cell> = Vec::new();
        let mut i: usize = 0;
        while i < GRID_CELLS
            invariant
                i <= GRID_CELLS,
                cells@.len() == i,
                forall|k: int| 0 <= k < i ==> cells@[k] == blank_cell(attr),
            decreases GRID_CELLS - i,
        {
            cells.push(Cell { ch: SPACE, attr });
            i = i + 1;
        }
        proof {
            assert(cells@ =~= blank_grid(attr));
        }
        Writer { cells, row: 0, col: 0, attr }
    }

    /// Line feed: cursor to column 0 of the next row, scrolling when the
    /// cursor is already on the last row.
    fn new_line(&mut self)
        requires
            old(self)@.wf(),
        ensures
            final(self)@.wf(),
            final(self)@ == line_feed(old(self)@),
    {
        self.col = 0;
        if self.row + 1 < HEIGHT {
            self.row = self.row + 1;
        } else {
            self.scroll();
        }
    }

    /// Shift every row up by one, discard the first row, blank the last row.
    fn scroll(&mut self)
        requires
            old(self)@.wf(),
        ensures
            final(self)@.wf(),
            final(self)@ == (ScreenState {
                grid: scrolled_grid(old(self)@.grid, old(self)@.attr),
                ..old(self)@
            }),
    {
        let mut i: usize = 0;
        while i < GRID_CELLS - WIDTH
            invariant
                old(self)@.wf(),
                self.cells@.len() == GRID_CELLS,
                i <= GRID_CELLS - WIDTH,
                self.row == old(self).row,
                self.col == old(self).col,
                self.attr == old(self).attr,
                forall|k: int| 0 <= k < i ==> self.cells@[k] == old(self)@.grid[k + WIDTH],
                forall|k: int| i <= k < GRID_CELLS ==> self.cells@[k] == old(self)@.grid[k],
            decreases GRID_CELLS - WIDTH - i,
        {
            let c = self.cells[i + WIDTH];
            self.cells.set(i, c);
            i = i + 1;
        }
        let mut j: usize = GRID_CELLS - WIDTH;
        while j < GRID_CELLS
            invariant
                old(self)@.wf(),
                self.cells@.len() == GRID_CELLS,
                GRID_CELLS - WIDTH <= j <= GRID_CELLS,
                self.row == old(self).row,
                self.col == old(self).col,
                self.attr == old(self).attr,
                forall|k: int| 0 <= k < GRID_CELLS - WIDTH ==> self.cells@[k] == old(
                    self,
                )@.grid[k + WIDTH],
                forall|k: int|
                    GRID_CELLS - WIDTH <= k < j ==> self.cells@[k] == blank_cell(old(self)@.attr),
            decreases GRID_CELLS - j,
        {
            self.cells.set(j, Cell { ch: SPACE, attr: self.attr });
            j = j + 1;
        }
        proof {
            assert(self.cells@ =~= scrolled_grid(old(self)@.grid, old(self)@.attr));
        }
    }

    /// Write one byte. The newline code performs a line feed and stores no
    /// cell; any other byte is stored as its glyph (the placeholder for a
    /// byte outside the printable range) under the configured attribute,
    /// wrapping to a fresh row first when the current one is full. No input
    /// byte is rejected.
    pub fn write_byte(&mut self, b: u8)
        requires
            old(self)@.wf(),
        ensures
            final(self)@.wf(),
            final(self)@ == put_byte(old(self)@, b),
    {
        if b == NEWLINE {
            self.new_line();
        } else {
            if self.col == WIDTH {
                self.new_line();
            }
            let ch = if SPACE <= b && b <= 0x7e {
                b
            } else {
                PLACEHOLDER
            };
            let idx = self.row * WIDTH + self.col;
            self.cells.set(idx, Cell { ch, attr: self.attr });
            self.col = self.col + 1;
        }
    }

    /// Write a byte sequence, first byte first, one cell per byte as
    /// `write_byte` does. Each write lands in order; a caller interrupted
    /// mid-sequence leaves a prefix rendered.
    pub fn write_str(&mut self, s: &[u8])
        requires
            old(self)@.wf(),
        ensures
            final(self)@.wf(),
            final(self)@ == put_bytes(old(self)@, s@),
    {
        let n = s.len();
        let mut i: usize = 0;
        proof {
            assert(s@.take(0) =~= Seq::<u8>::empty());
        }
        while i < n
            invariant
                self@.wf(),
                n == s@.len(),
                i <= n,
                self@ == put_bytes(old(self)@, s@.take(i as int)),
            decreases n - i,
        {
            let b = s[i];
            proof {
                assert(s@.take(i + 1) =~= s@.take(i as int).push(s@[i as int]));
                lemma_put_bytes_snoc(old(self)@, s@.take(i as int), s@[i as int]);
            }
            self.write_byte(b);
            i = i + 1;
        }
        proof {
            assert(s@.take(n as int) =~= s@);
        }
    }

    /// The cell currently stored at a row and column of the surface.
    pub fn cell_at(&self, row: usize, col: usize) -> (c: Cell)
        requires
            self@.wf(),
            row < HEIGHT,
            col < WIDTH,
        ensures
            c == self@.cell(row as int, col as int),
    {
        self.cells[row * WIDTH + col]
    }

    /// The cursor's current column.
    pub fn cursor_col(&self) -> (c: usize)
        ensures
            c == self@.col,
    {
        self.col
    }

    /// The cursor's current row.
    pub fn cursor_row(&self) -> (r: usize)
        ensures
            r == self@.row,
    {
        self.row
    }

    /// The configured color attribute.
    pub fn color(&self) -> (a: u8)
        ensures
            a == self@.attr,
    {
        self.attr
    }
}

} // verus!
