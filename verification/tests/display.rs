use garuda::screen::{Cell, DEFAULT_ATTR, HEIGHT, NEWLINE, PLACEHOLDER, SPACE, WIDTH};
use garuda::writer::Writer;

fn blank(attr: u8) -> Cell {
    Cell { ch: SPACE, attr }
}

#[test]
fn fresh_writer_is_blank() {
    let w = Writer::new(DEFAULT_ATTR);
    assert_eq!(w.cursor_row(), 0);
    assert_eq!(w.cursor_col(), 0);
    assert_eq!(w.color(), DEFAULT_ATTR);
    for r in 0..HEIGHT {
        for c in 0..WIDTH {
            assert_eq!(w.cell_at(r, c), blank(DEFAULT_ATTR));
        }
    }
}

#[test]
fn short_row_write_fills_prefix() {
    let mut w = Writer::new(0x1e);
    w.write_str(b"abc");
    assert_eq!(w.cursor_row(), 0);
    assert_eq!(w.cursor_col(), 3);
    assert_eq!(w.cell_at(0, 0), Cell { ch: b'a', attr: 0x1e });
    assert_eq!(w.cell_at(0, 1), Cell { ch: b'b', attr: 0x1e });
    assert_eq!(w.cell_at(0, 2), Cell { ch: b'c', attr: 0x1e });
    for c in 3..WIDTH {
        assert_eq!(w.cell_at(0, c), blank(0x1e));
    }
    for r in 1..HEIGHT {
        for c in 0..WIDTH {
            assert_eq!(w.cell_at(r, c), blank(0x1e));
        }
    }
}

#[test]
fn empty_write_changes_nothing() {
    let mut w = Writer::new(DEFAULT_ATTR);
    w.write_str(b"");
    assert_eq!(w.cursor_row(), 0);
    assert_eq!(w.cursor_col(), 0);
    for c in 0..WIDTH {
        assert_eq!(w.cell_at(0, c), blank(DEFAULT_ATTR));
    }
}

#[test]
fn newline_moves_cursor_writes_no_cell() {
    let mut w = Writer::new(DEFAULT_ATTR);
    w.write_str(b"hi");
    w.write_byte(NEWLINE);
    assert_eq!(w.cursor_row(), 1);
    assert_eq!(w.cursor_col(), 0);
    // the newline stored nothing: row 0 still holds exactly "hi"
    assert_eq!(w.cell_at(0, 0), Cell { ch: b'h', attr: DEFAULT_ATTR });
    assert_eq!(w.cell_at(0, 1), Cell { ch: b'i', attr: DEFAULT_ATTR });
    for c in 2..WIDTH {
        assert_eq!(w.cell_at(0, c), blank(DEFAULT_ATTR));
    }
    for c in 0..WIDTH {
        assert_eq!(w.cell_at(1, c), blank(DEFAULT_ATTR));
    }
}

#[test]
fn newline_then_text_lands_on_next_row() {
    let mut w = Writer::new(DEFAULT_ATTR);
    w.write_str(b"ab\ncd");
    assert_eq!(w.cursor_row(), 1);
    assert_eq!(w.cursor_col(), 2);
    assert_eq!(w.cell_at(0, 0).ch, b'a');
    assert_eq!(w.cell_at(0, 1).ch, b'b');
    assert_eq!(w.cell_at(1, 0).ch, b'c');
    assert_eq!(w.cell_at(1, 1).ch, b'd');
}

#[test]
fn full_row_wraps_before_next_write() {
    let mut w = Writer::new(DEFAULT_ATTR);
    for _ in 0..WIDTH {
        w.write_byte(b'x');
    }
    // the cursor sits one past the last column; no wrap has happened yet
    assert_eq!(w.cursor_row(), 0);
    assert_eq!(w.cursor_col(), WIDTH);
    w.write_byte(b'y');
    assert_eq!(w.cursor_row(), 1);
    assert_eq!(w.cursor_col(), 1);
    assert_eq!(w.cell_at(0, WIDTH - 1).ch, b'x');
    assert_eq!(w.cell_at(1, 0).ch, b'y');
}

#[test]
fn non_ascii_renders_placeholder() {
    let mut w = Writer::new(DEFAULT_ATTR);
    w.write_byte(0xff);
    w.write_byte(0x09);
    w.write_byte(0x7f);
    w.write_byte(0x00);
    assert_eq!(w.cursor_col(), 4);
    for c in 0..4 {
        assert_eq!(w.cell_at(0, c), Cell { ch: PLACEHOLDER, attr: DEFAULT_ATTR });
    }
}

#[test]
fn printable_bounds_are_kept() {
    let mut w = Writer::new(DEFAULT_ATTR);
    w.write_byte(0x20);
    w.write_byte(0x7e);
    w.write_byte(0x1f);
    assert_eq!(w.cell_at(0, 0).ch, 0x20);
    assert_eq!(w.cell_at(0, 1).ch, 0x7e);
    assert_eq!(w.cell_at(0, 2).ch, PLACEHOLDER);
}

#[test]
fn overflow_on_last_row_scrolls_once() {
    let mut w = Writer::new(DEFAULT_ATTR);
    w.write_str(b"TOP\n");
    for _ in 0..23 {
        w.write_byte(NEWLINE);
    }
    assert_eq!(w.cursor_row(), HEIGHT - 1);
    assert_eq!(w.cursor_col(), 0);
    w.write_str(b"XY");
    // one byte more than the 78 columns still free on the last row
    for _ in 0..79 {
        w.write_byte(b'a');
    }
    assert_eq!(w.cursor_row(), HEIGHT - 1);
    assert_eq!(w.cursor_col(), 1);
    // row 0's prior content ("TOP") is gone: everything shifted up by one
    for c in 0..WIDTH {
        assert_eq!(w.cell_at(0, c), blank(DEFAULT_ATTR));
    }
    for r in 1..HEIGHT - 2 {
        for c in 0..WIDTH {
            assert_eq!(w.cell_at(r, c), blank(DEFAULT_ATTR));
        }
    }
    // the old last row, now one row up: "XY" then 78 'a's
    assert_eq!(w.cell_at(HEIGHT - 2, 0).ch, b'X');
    assert_eq!(w.cell_at(HEIGHT - 2, 1).ch, b'Y');
    for c in 2..WIDTH {
        assert_eq!(w.cell_at(HEIGHT - 2, c), Cell { ch: b'a', attr: DEFAULT_ATTR });
    }
    // the new last row: blank except the one freshly written cell
    assert_eq!(w.cell_at(HEIGHT - 1, 0), Cell { ch: b'a', attr: DEFAULT_ATTR });
    for c in 1..WIDTH {
        assert_eq!(w.cell_at(HEIGHT - 1, c), blank(DEFAULT_ATTR));
    }
}

#[test]
fn newline_on_last_row_scrolls() {
    let mut w = Writer::new(DEFAULT_ATTR);
    w.write_str(b"first");
    for _ in 0..24 {
        w.write_byte(NEWLINE);
    }
    assert_eq!(w.cursor_row(), HEIGHT - 1);
    w.write_str(b"last");
    // one more newline on the last row scrolls: "last" moves up one row
    w.write_byte(NEWLINE);
    assert_eq!(w.cursor_row(), HEIGHT - 1);
    assert_eq!(w.cursor_col(), 0);
    assert_eq!(w.cell_at(HEIGHT - 2, 0).ch, b'l');
    assert_eq!(w.cell_at(HEIGHT - 2, 1).ch, b'a');
    assert_eq!(w.cell_at(HEIGHT - 2, 2).ch, b's');
    assert_eq!(w.cell_at(HEIGHT - 2, 3).ch, b't');
    for c in 0..WIDTH {
        assert_eq!(w.cell_at(HEIGHT - 1, c), blank(DEFAULT_ATTR));
    }
    // "first" was on row 0 before the 25 newlines and is long gone
    for c in 0..WIDTH {
        assert_eq!(w.cell_at(0, c), blank(DEFAULT_ATTR));
    }
}
