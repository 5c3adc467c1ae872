//! Laws of the display model: what writing sequences does to the grid and
//! the cursor, stated once over every well-formed screen state.

use vstd::prelude::*;
use crate::screen::{
    Cell, ScreenState, GRID_CELLS, HEIGHT, NEWLINE, PLACEHOLDER, WIDTH, blank_cell, cell_index,
    glyph_of, is_printable, line_feed, lemma_put_byte_wf, lemma_put_bytes_snoc,
    lemma_put_bytes_wf, put_byte, put_bytes, scrolled_grid,
};

verus! {

/// Writing a newline-free sequence that fits in the current row fills the
/// cells from the cursor onward with the bytes' glyphs under the writer's
/// attribute, touches no other cell, and advances the cursor past what was
/// written, staying on the same row.
pub proof fn lemma_write_row_segment(s: ScreenState, bs: Seq<u8>)
    requires
        s.wf(),
        s.col + bs.len() <= WIDTH,
        forall|i: int| 0 <= i < bs.len() ==> bs[i] != NEWLINE,
    ensures
        ({
            let t = put_bytes(s, bs);
            &&& t.row == s.row
            &&& t.col == s.col + bs.len()
            &&& t.attr == s.attr
            &&& t.grid.len() == s.grid.len()
            &&& forall|i: int|
                0 <= i < bs.len() ==> t.grid[cell_index(s.row, s.col + i)] == (Cell {
                    ch: glyph_of(bs[i]),
                    attr: s.attr,
                })
            &&& forall|k: int|
                0 <= k < s.grid.len() && !(cell_index(s.row, s.col) <= k < cell_index(s.row, s.col)
                    + bs.len()) ==> t.grid[k] == s.grid[k]
        }),
    decreases bs.len(),
{
    if bs.len() != 0 {
        let s1 = put_byte(s, bs[0]);
        assert(bs[0] != NEWLINE);
        assert(s.col < WIDTH);
        assert(s1.grid == s.grid.update(
            cell_index(s.row, s.col),
            Cell { ch: glyph_of(bs[0]), attr: s.attr },
        ));
        lemma_put_byte_wf(s, bs[0]);
        lemma_write_row_segment(s1, bs.drop_first());
        assert(put_bytes(s, bs) == put_bytes(s1, bs.drop_first()));
        let t = put_bytes(s, bs);
        assert forall|i: int| 0 <= i < bs.len() implies t.grid[cell_index(s.row, s.col + i)]
            == (Cell { ch: glyph_of(bs[i]), attr: s.attr }) by {
            if i == 0 {
                assert(!(cell_index(s1.row, s1.col) <= cell_index(s.row, s.col) < cell_index(
                    s1.row,
                    s1.col,
                ) + bs.drop_first().len()));
            } else {
                assert(bs.drop_first()[i - 1] == bs[i]);
                assert(cell_index(s1.row, s1.col + (i - 1)) == cell_index(s.row, s.col + i));
            }
        }
    }
}

/// Law: a newline-free sequence shorter than one row, written from column 0,
/// produces exactly its length in cells at columns `0..len` of the cursor's
/// row, each holding the byte's glyph under the writer's attribute, leaves
/// every other cell unchanged, and leaves the cursor at column `len` of the
/// same row.
pub proof fn lemma_write_from_column_zero(s: ScreenState, bs: Seq<u8>)
    requires
        s.wf(),
        s.col == 0,
        bs.len() < WIDTH,
        forall|i: int| 0 <= i < bs.len() ==> bs[i] != NEWLINE,
    ensures
        ({
            let t = put_bytes(s, bs);
            &&& t.row == s.row
            &&& t.col == bs.len()
            &&& t.attr == s.attr
            &&& forall|i: int|
                0 <= i < bs.len() ==> t.cell(s.row, i) == (Cell {
                    ch: glyph_of(bs[i]),
                    attr: s.attr,
                })
            &&& forall|r: int, c: int|
                0 <= r < HEIGHT && 0 <= c < WIDTH && !(r == s.row && 0 <= c < bs.len())
                    ==> t.cell(r, c) == s.cell(r, c)
        }),
{
    lemma_write_row_segment(s, bs);
    let t = put_bytes(s, bs);
    assert forall|r: int, c: int|
        0 <= r < HEIGHT && 0 <= c < WIDTH && !(r == s.row && 0 <= c < bs.len()) implies t.cell(
        r,
        c,
    ) == s.cell(r, c) by {
        assert(0 <= cell_index(r, c) < GRID_CELLS);
        assert(!(cell_index(s.row, 0) <= cell_index(r, c) < cell_index(s.row, 0) + bs.len()));
    }
}

/// Law: the newline code moves the cursor to column 0 of the next row and
/// writes no cell. With a row left below, the grid is untouched; on the last
/// row the grid scrolls (every row up by one, last row blank) and the cursor
/// stays on the last row.
pub proof fn lemma_newline(s: ScreenState)
    requires
        s.wf(),
    ensures
        ({
            let t = put_byte(s, NEWLINE);
            &&& t.col == 0
            &&& t.attr == s.attr
            &&& s.row + 1 < HEIGHT ==> t.row == s.row + 1 && t.grid == s.grid
            &&& s.row + 1 == HEIGHT ==> t.row == s.row && t.grid == scrolled_grid(s.grid, s.attr)
        }),
{
}

/// Law: writing one byte more than fits in the remaining columns of the last
/// row scrolls exactly once. The first row's prior content is gone, every
/// other row's content moves up by one row, the row above the last ends with
/// the bytes that filled the old last row, and the new last row is blank but
/// for the one freshly written cell at column 0.
pub proof fn lemma_overflow_scrolls_once(s: ScreenState, bs: Seq<u8>)
    requires
        s.wf(),
        s.row == HEIGHT - 1,
        bs.len() == WIDTH - s.col + 1,
        forall|i: int| 0 <= i < bs.len() ==> bs[i] != NEWLINE,
    ensures
        ({
            let t = put_bytes(s, bs);
            &&& t.row == HEIGHT - 1
            &&& t.col == 1
            &&& t.attr == s.attr
            &&& forall|r: int, c: int|
                0 <= r < HEIGHT - 2 && 0 <= c < WIDTH ==> t.cell(r, c) == s.cell(r + 1, c)
            &&& forall|c: int|
                0 <= c < s.col ==> #[trigger] t.cell(HEIGHT - 2, c) == s.cell(HEIGHT - 1, c)
            &&& forall|c: int|
                s.col <= c < WIDTH ==> #[trigger] t.cell(HEIGHT - 2, c) == (Cell {
                    ch: glyph_of(bs[c - s.col]),
                    attr: s.attr,
                })
            &&& t.cell(HEIGHT - 1, 0) == (Cell { ch: glyph_of(bs[bs.len() - 1]), attr: s.attr })
            &&& forall|c: int|
                1 <= c < WIDTH ==> #[trigger] t.cell(HEIGHT - 1, c) == blank_cell(s.attr)
        }),
{
    let front = bs.take(bs.len() - 1);
    let last = bs[bs.len() - 1];
    assert(front.push(last) =~= bs);
    lemma_put_bytes_snoc(s, front, last);
    assert(put_bytes(s, bs) == put_byte(put_bytes(s, front), last));
    lemma_write_row_segment(s, front);
    lemma_put_bytes_wf(s, front);
    let s1 = put_bytes(s, front);
    assert(s1.col == WIDTH);
    assert(s1.row == HEIGHT - 1);
    let t0 = line_feed(s1);
    assert(t0.grid == scrolled_grid(s1.grid, s.attr));
    let t = put_bytes(s, bs);
    assert(t.grid == t0.grid.update(
        cell_index(HEIGHT - 1, 0),
        Cell { ch: glyph_of(last), attr: s.attr },
    ));
    assert forall|r: int, c: int| 0 <= r < HEIGHT - 2 && 0 <= c < WIDTH implies t.cell(r, c)
        == s.cell(r + 1, c) by {
        let k = cell_index(r, c);
        assert(k != cell_index(HEIGHT - 1, 0));
        assert(k + WIDTH < GRID_CELLS);
        assert(t.grid[k] == s1.grid[k + WIDTH]);
        assert(k + WIDTH == cell_index(r + 1, c));
        assert(!(cell_index(s.row, s.col) <= k + WIDTH < cell_index(s.row, s.col) + front.len()));
    }
    assert forall|c: int| 0 <= c < s.col implies #[trigger] t.cell(HEIGHT - 2, c) == s.cell(
        HEIGHT - 1,
        c,
    ) by {
        let k = cell_index(HEIGHT - 2, c);
        assert(k != cell_index(HEIGHT - 1, 0));
        assert(k + WIDTH < GRID_CELLS);
        assert(t.grid[k] == s1.grid[k + WIDTH]);
        assert(k + WIDTH == cell_index(HEIGHT - 1, c));
        assert(!(cell_index(s.row, s.col) <= k + WIDTH < cell_index(s.row, s.col) + front.len()));
    }
    assert forall|c: int| s.col <= c < WIDTH implies #[trigger] t.cell(HEIGHT - 2, c) == (Cell {
        ch: glyph_of(bs[c - s.col]),
        attr: s.attr,
    }) by {
        let k = cell_index(HEIGHT - 2, c);
        assert(k != cell_index(HEIGHT - 1, 0));
        assert(k + WIDTH < GRID_CELLS);
        assert(t.grid[k] == s1.grid[k + WIDTH]);
        assert(k + WIDTH == cell_index(s.row, s.col + (c - s.col)));
        assert(s1.grid[cell_index(s.row, s.col + (c - s.col))] == (Cell {
            ch: glyph_of(front[c - s.col]),
            attr: s.attr,
        }));
        assert(front[c - s.col] == bs[c - s.col]);
    }
    assert forall|c: int|
        1 <= c < WIDTH implies #[trigger] t.cell(HEIGHT - 1, c) == blank_cell(s.attr) by {
        let k = cell_index(HEIGHT - 1, c);
        assert(k != cell_index(HEIGHT - 1, 0));
        assert(k + WIDTH >= GRID_CELLS);
        assert(t.grid[k] == blank_cell(s.attr));
    }
}

/// Law: a byte outside the printable range (and other than the newline code)
/// renders exactly as the placeholder glyph byte itself would — it is
/// substituted, never rejected, so malformed input cannot fault the writer.
pub proof fn lemma_placeholder_substitution(s: ScreenState, b: u8)
    requires
        b != NEWLINE,
        !is_printable(b),
    ensures
        glyph_of(b) == PLACEHOLDER,
        put_byte(s, b) == put_byte(s, PLACEHOLDER),
{
}

} // verus!
