//! The renderer: the exact grid of characters a terminal should display.

use vstd::prelude::*;

use crate::cursor::{Cursor, Viewport};
use crate::text::Text;

verus! {

/// The character shown at grid cell (`y`, `x`) for a buffer viewed through a
/// window whose top-left corner sits at (`scroll_row`, `scroll_col`): the
/// buffer character at that logical position if there is one, else a blank.
pub open spec fn cell_at(t: Seq<Seq<char>>, scroll_row: int, scroll_col: int, y: int, x: int) -> char {
    if scroll_row + y < t.len() && scroll_col + x < t[scroll_row + y].len() {
        t[scroll_row + y][scroll_col + x]
    } else {
        ' '
    }
}

/// Produce the full grid for one redraw: exactly `vp.height` lines of exactly
/// `vp.width` characters each.  Line `y` shows the slice of buffer row
/// `scroll_row + y` that starts at column `scroll_col`, padded on the right
/// with blanks; rows past the end of the buffer come out all blank.
pub fn render(text: &Text, cursor: &Cursor, vp: Viewport) -> (grid: Vec<Vec<char>>)
    ensures
        grid@.len() == vp.height,
        forall|y: int| 0 <= y < vp.height ==> (#[trigger] grid@[y])@.len() == vp.width,
        forall|y: int, x: int|
            0 <= y < vp.height && 0 <= x < vp.width ==> #[trigger] grid@[y]@[x] == cell_at(
                text@,
                cursor.scroll_row as int,
                cursor.scroll_col as int,
                y,
                x,
            ),
{
    let n = text.num_rows();
    let mut grid: Vec<Vec<char>> = Vec::new();
    let mut y: usize = 0;
    while y < vp.height
        invariant
            y <= vp.height,
            grid@.len() == y,
            forall|j: int| 0 <= j < y ==> (#[trigger] grid@[j])@.len() == vp.width,
            forall|j: int, x: int|
                0 <= j < y && 0 <= x < vp.width ==> #[trigger] grid@[j]@[x] == cell_at(
                    text@,
                    cursor.scroll_row as int,
                    cursor.scroll_col as int,
                    j,
                    x,
                ),
            n == text@.len(),
        decreases vp.height - y,
    {
        let mut line: Vec<char> = Vec::new();
        let visible_row = cursor.scroll_row < n && y < n - cursor.scroll_row;
        let mut x: usize = 0;
        while x < vp.width
            invariant
                x <= vp.width,
                line@.len() == x,
                forall|i: int|
                    0 <= i < x ==> #[trigger] line@[i] == cell_at(
                        text@,
                        cursor.scroll_row as int,
                        cursor.scroll_col as int,
                        y as int,
                        i,
                    ),
                visible_row == (cursor.scroll_row + y < text@.len()),
                n == text@.len(),
                y < vp.height,
            decreases vp.width - x,
        {
            let c: char = if visible_row {
                let row_len = text.row_len(cursor.scroll_row + y);
                if cursor.scroll_col < row_len && x < row_len - cursor.scroll_col {
                    text.char_at(cursor.scroll_row + y, cursor.scroll_col + x)
                } else {
                    ' '
                }
            } else {
                ' '
            };
            line.push(c);
            x = x + 1;
        }
        grid.push(line);
        y = y + 1;
    }
    grid
}

} // verus!
