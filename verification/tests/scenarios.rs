use textview::cursor::{Cursor, MoveCommand, Viewport};
use textview::text::{Row, Text};

fn text_of(lines: &[&str]) -> Text {
    let rows: Vec<Row> = lines.iter().map(|s| Row { chars: s.chars().collect() }).collect();
    Text { rows }
}

// Walk through a small buffer: right to the end of the first row, then down
// the rows with the column clamping to each row's length, until the last row
// absorbs further presses.
#[test]
fn walk_hello_hi_empty() {
    let text = text_of(&["hello", "hi", ""]);
    let vp = Viewport { width: 10, height: 3 };
    let mut c = Cursor::new();

    for _ in 0..5 {
        c.handle_cursor_move(MoveCommand::Right, &text, vp);
    }
    // logical column 5, the end of "hello", no horizontal scroll
    assert_eq!(c.col, 5);
    assert_eq!(c.scroll_col, 0);
    assert_eq!(c.row + c.scroll_row, 0);

    c.handle_cursor_move(MoveCommand::Right, &text, vp);
    // still column 5: the cursor may rest one past the last character, not further
    assert_eq!(c.col, 5);
    assert_eq!(c.scroll_col, 0);

    c.handle_cursor_move(MoveCommand::Down, &text, vp);
    // row 1; the column clamps to 2, the length of "hi"
    assert_eq!(c.row + c.scroll_row, 1);
    assert_eq!(c.col + c.scroll_col, 2);

    c.handle_cursor_move(MoveCommand::Down, &text, vp);
    // row 2; the column clamps to 0, the empty row's length
    assert_eq!(c.row + c.scroll_row, 2);
    assert_eq!(c.col + c.scroll_col, 0);

    let before = c;
    c.handle_cursor_move(MoveCommand::Down, &text, vp);
    // already on the last row: nothing changes
    assert_eq!(c, before);
}

// Move right along a row wider than the viewport: the visible column stops at
// the right edge and the window starts scrolling, until end-of-line absorbs
// further presses.
#[test]
fn scroll_right_through_wide_row() {
    let text = text_of(&["abcdefgh"]);
    let vp = Viewport { width: 5, height: 3 };
    let mut c = Cursor::new();

    for _ in 0..4 {
        c.handle_cursor_move(MoveCommand::Right, &text, vp);
    }
    assert_eq!(c.col, 4);
    assert_eq!(c.scroll_col, 0);

    c.handle_cursor_move(MoveCommand::Right, &text, vp);
    // the window scrolls: col stays at the right edge, logical column is 5
    assert_eq!(c.col, 4);
    assert_eq!(c.scroll_col, 1);
    assert_eq!(c.col + c.scroll_col, 5);

    while c.col + c.scroll_col < 8 {
        c.handle_cursor_move(MoveCommand::Right, &text, vp);
    }
    assert_eq!(c.col, 4);
    assert_eq!(c.scroll_col, 4);

    let before = c;
    c.handle_cursor_move(MoveCommand::Right, &text, vp);
    // logical column 8 is the row's length: a further press is absorbed
    assert_eq!(c, before);
}
