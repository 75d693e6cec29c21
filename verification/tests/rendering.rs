use textview::cursor::{Cursor, MoveCommand, Viewport};
use textview::keys::{key_action, KeyAction};
use textview::render::render;
use textview::text::{Row, Text};

fn text_of(lines: &[&str]) -> Text {
    let rows: Vec<Row> = lines.iter().map(|s| Row { chars: s.chars().collect() }).collect();
    Text { rows }
}

fn lines_of(grid: &[Vec<char>]) -> Vec<String> {
    grid.iter().map(|l| l.iter().collect()).collect()
}

// The grid always has exactly `height` lines of exactly `width` characters,
// whatever the buffer and the scroll offsets.
#[test]
fn grid_dimensions_are_exact() {
    let cases: Vec<(Text, Cursor, Viewport)> = vec![
        (Text::new(), Cursor::new(), Viewport { width: 7, height: 4 }),
        (text_of(&["hello"]), Cursor::new(), Viewport { width: 3, height: 6 }),
        (
            text_of(&["a", "bb", "ccc"]),
            Cursor { col: 0, row: 0, scroll_col: 9, scroll_row: 9 },
            Viewport { width: 1, height: 1 },
        ),
        (text_of(&[""]), Cursor::new(), Viewport { width: 5, height: 2 }),
    ];
    for (text, cursor, vp) in cases {
        let grid = render(&text, &cursor, vp);
        assert_eq!(grid.len(), vp.height);
        for line in &grid {
            assert_eq!(line.len(), vp.width);
        }
    }
}

#[test]
fn empty_buffer_renders_all_blank() {
    let grid = render(&Text::new(), &Cursor::new(), Viewport { width: 4, height: 2 });
    assert_eq!(lines_of(&grid), vec!["    ".to_string(), "    ".to_string()]);
}

#[test]
fn rows_are_padded_and_missing_rows_blank() {
    let text = text_of(&["hello", "hi"]);
    let grid = render(&text, &Cursor::new(), Viewport { width: 7, height: 3 });
    assert_eq!(lines_of(&grid), vec!["hello  ", "hi     ", "       "]);
}

#[test]
fn long_rows_are_cut_at_the_right_edge() {
    let text = text_of(&["abcdefgh", "xy"]);
    let grid = render(&text, &Cursor::new(), Viewport { width: 5, height: 2 });
    assert_eq!(lines_of(&grid), vec!["abcde", "xy   "]);
}

#[test]
fn scroll_offsets_shift_the_window() {
    let text = text_of(&["abcdefgh", "12345678", "qrstuvwx"]);
    let cur = Cursor { col: 0, row: 0, scroll_col: 2, scroll_row: 1 };
    let grid = render(&text, &cur, Viewport { width: 4, height: 3 });
    assert_eq!(lines_of(&grid), vec!["3456", "stuv", "    "]);
}

#[test]
fn scroll_past_row_end_renders_blank_line() {
    let text = text_of(&["ab", "abcdef"]);
    let cur = Cursor { col: 0, row: 0, scroll_col: 3, scroll_row: 0 };
    let grid = render(&text, &cur, Viewport { width: 3, height: 2 });
    assert_eq!(lines_of(&grid), vec!["   ", "def"]);
}

// The grid after a few moves shows the scrolled window the cursor state asks
// for.
#[test]
fn render_follows_cursor_scroll() {
    let text = text_of(&["abcdefgh"]);
    let vp = Viewport { width: 5, height: 2 };
    let mut c = Cursor::new();
    c.handle_cursor_move(MoveCommand::EndOfLine, &text, vp);
    let grid = render(&text, &c, vp);
    assert_eq!(lines_of(&grid), vec!["efgh ", "     "]);
}

#[test]
fn key_actions_decode_vi_style_commands() {
    assert_eq!(key_action('q'), KeyAction::Quit);
    assert_eq!(key_action('h'), KeyAction::Move(MoveCommand::Left));
    assert_eq!(key_action('j'), KeyAction::Move(MoveCommand::Down));
    assert_eq!(key_action('k'), KeyAction::Move(MoveCommand::Up));
    assert_eq!(key_action('l'), KeyAction::Move(MoveCommand::Right));
    assert_eq!(key_action('x'), KeyAction::Ignore);
    assert_eq!(key_action('Q'), KeyAction::Ignore);
    assert_eq!(key_action(' '), KeyAction::Ignore);
}
