//! Mathematical model of the text display: the cell grid, the cursor, and
//! the effect of writing one byte or a sequence of bytes.

use vstd::prelude::*;

verus! {

/// Columns of the display grid.
pub const WIDTH: usize = 80;

/// Rows of the display grid.
pub const HEIGHT: usize = 25;

/// Cells of the whole grid, row-major.
pub const GRID_CELLS: usize = 2000;

/// The line-feed control code: advances the cursor, writes no cell.
pub const NEWLINE: u8 = 0x0a;

/// The character code of a blank cell.
pub const SPACE: u8 = 0x20;

/// The glyph substituted for a byte outside the printable range.
pub const PLACEHOLDER: u8 = 0xfe;

/// The color attribute used when no other is configured.
pub const DEFAULT_ATTR: u8 = 0x0f;

/// One unit of the display surface: a character code and a color attribute.
#[derive(Clone, Copy, PartialEq, Eq, Structural, Debug)]
pub struct Cell {
    pub ch: u8,
    pub attr: u8,
}

/// Whether a byte is directly representable on the display.
pub open spec fn is_printable(b: u8) -> bool {
    SPACE <= b && b <= 0x7e
}

/// The character code actually stored for an input byte: the byte itself when
/// printable, the placeholder glyph otherwise.
pub open spec fn glyph_of(b: u8) -> u8 {
    if is_printable(b) {
        b
    } else {
        PLACEHOLDER
    }
}

/// A blank cell under the given attribute.
pub open spec fn blank_cell(attr: u8) -> Cell {
    Cell { ch: SPACE, attr }
}

/// Position of a cell in the row-major grid.
pub open spec fn cell_index(row: int, col: int) -> int {
    row * (WIDTH as int) + col
}

/// The grid after one scroll: every row shifted up by one, the first row
/// discarded, the last row blank under the given attribute.
pub open spec fn scrolled_grid(g: Seq<Cell>, attr: u8) -> Seq<Cell> {
    Seq::new(g.len(), |i: int| if i + (WIDTH as int) < g.len() {
        g[i + (WIDTH as int)]
    } else {
        blank_cell(attr)
    })
}

/// A grid of blank cells under the given attribute.
pub open spec fn blank_grid(attr: u8) -> Seq<Cell> {
    Seq::new(GRID_CELLS as nat, |i: int| blank_cell(attr))
}

/// The writer's whole abstract state: grid contents, cursor and attribute.
pub ghost struct ScreenState {
    pub grid: Seq<Cell>,
    pub row: int,
    pub col: int,
    pub attr: u8,
}

impl ScreenState {
    /// Well-formedness: the grid has its fixed size, the cursor row is on the
    /// grid, and the cursor column is at most one past the last column (the
    /// wrap is performed just before the next cell is written, never earlier).
    pub open spec fn wf(self) -> bool {
        &&& self.grid.len() == GRID_CELLS
        &&& 0 <= self.row < HEIGHT
        &&& 0 <= self.col <= WIDTH
    }

    /// The cell at a row and column of the grid.
    pub open spec fn cell(self, row: int, col: int) -> Cell {
        self.grid[cell_index(row, col)]
    }
}

/// The state a writer starts from: blank grid, cursor at the top left.
pub open spec fn initial_screen(attr: u8) -> ScreenState {
    ScreenState { grid: blank_grid(attr), row: 0, col: 0, attr }
}

/// Effect of a line feed: cursor to column 0; to the next row when one is
/// left, else the grid scrolls and the cursor stays on the last row.
pub open spec fn line_feed(s: ScreenState) -> ScreenState {
    if s.row + 1 < HEIGHT {
        ScreenState { row: s.row + 1, col: 0, ..s }
    } else {
        ScreenState { grid: scrolled_grid(s.grid, s.attr), col: 0, ..s }
    }
}

/// Effect of writing one byte: the newline code performs a line feed and
/// writes no cell; any other byte is first given a row (wrapping when the
/// column is full), then stored as its glyph under the writer's attribute,
/// and the cursor advances by one column.
pub open spec fn put_byte(s: ScreenState, b: u8) -> ScreenState {
    if b == NEWLINE {
        line_feed(s)
    } else {
        let t = if s.col == WIDTH {
            line_feed(s)
        } else {
            s
        };
        ScreenState {
            grid: t.grid.update(cell_index(t.row, t.col), Cell { ch: glyph_of(b), attr: t.attr }),
            col: t.col + 1,
            ..t
        }
    }
}

/// Effect of writing a sequence of bytes, first byte first.
pub open spec fn put_bytes(s: ScreenState, bs: Seq<u8>) -> ScreenState
    decreases bs.len(),
{
    if bs.len() == 0 {
        s
    } else {
        put_bytes(put_byte(s, bs[0]), bs.drop_first())
    }
}

/// A line feed keeps the state well formed.
pub proof fn lemma_line_feed_wf(s: ScreenState)
    requires
        s.wf(),
    ensures
        line_feed(s).wf(),
        line_feed(s).attr == s.attr,
{
}

/// Writing one byte keeps the state well formed.
pub proof fn lemma_put_byte_wf(s: ScreenState, b: u8)
    requires
        s.wf(),
    ensures
        put_byte(s, b).wf(),
        put_byte(s, b).attr == s.attr,
{
    lemma_line_feed_wf(s);
}

/// Writing a sequence keeps the state well formed.
pub proof fn lemma_put_bytes_wf(s: ScreenState, bs: Seq<u8>)
    requires
        s.wf(),
    ensures
        put_bytes(s, bs).wf(),
        put_bytes(s, bs).attr == s.attr,
    decreases bs.len(),
{
    if bs.len() != 0 {
        lemma_put_byte_wf(s, bs[0]);
        lemma_put_bytes_wf(put_byte(s, bs[0]), bs.drop_first());
    }
}

/// Writing a sequence and then one byte is writing the extended sequence.
pub proof fn lemma_put_bytes_snoc(s: ScreenState, bs: Seq<u8>, b: u8)
    ensures
        put_bytes(s, bs.push(b)) == put_byte(put_bytes(s, bs), b),
    decreases bs.len(),
{
    if bs.len() == 0 {
        assert(bs.push(b)[0] == b);
        assert(bs.push(b).drop_first() =~= Seq::<u8>::empty());
        assert(put_bytes(s, bs.push(b)) == put_bytes(put_byte(s, b), Seq::<u8>::empty()));
        assert(put_bytes(put_byte(s, b), Seq::<u8>::empty()) == put_byte(s, b));
        assert(put_bytes(s, bs) == s);
    } else {
        assert(bs.push(b)[0] == bs[0]);
        assert(bs.push(b).drop_first() =~= bs.drop_first().push(b));
        assert(put_bytes(s, bs.push(b)) == put_bytes(put_byte(s, bs[0]), bs.drop_first().push(b)));
        lemma_put_bytes_snoc(put_byte(s, bs[0]), bs.drop_first(), b);
        assert(put_bytes(s, bs) == put_bytes(put_byte(s, bs[0]), bs.drop_first()));
    }
}

} // verus!
