//! The cursor/viewport coordinate engine.
//!
//! A cursor is stored as a split coordinate: `(col, row)` is the position
//! inside the currently visible window, and `(scroll_col, scroll_row)` is the
//! offset of the window's top-left corner inside the buffer.  The logical
//! position in the buffer is always the sum of the two parts.  Movement
//! commands rewrite this state against a buffer and a terminal size; every
//! command is total, and out-of-range attempts are absorbed as no-ops.

use vstd::prelude::*;

use crate::text::Text;

verus! {

/// The terminal size in character cells, passed in by the caller on every
/// operation so that behaviour is deterministic and testable.
#[derive(Debug, Clone, Copy, PartialEq, Eq, Structural)]
pub struct Viewport {
    pub width: usize,
    pub height: usize,
}

impl Viewport {
    /// A usable viewport has at least one cell in each direction.
    pub open spec fn wf(self) -> bool {
        self.width >= 1 && self.height >= 1
    }

    /// Runtime check for the same condition, for unverified callers.
    pub fn is_usable(&self) -> (r: bool)
        ensures
            r == self.wf(),
    {
        self.width >= 1 && self.height >= 1
    }
}

/// One cursor movement command.
#[derive(Debug, Clone, Copy, PartialEq, Eq, Structural)]
pub enum MoveCommand {
    Up,
    Down,
    Left,
    Right,
    EndOfLine,
}

/// The cursor: position within the visible window plus the scroll offset of
/// that window within the buffer.
#[derive(Debug, Clone, Copy, PartialEq, Eq, Structural)]
pub struct Cursor {
    pub col: usize,
    pub row: usize,
    pub scroll_col: usize,
    pub scroll_row: usize,
}

impl Cursor {
    /// The logical row: the index into the buffer of the row the cursor is on.
    pub open spec fn spec_row_index(self) -> int {
        self.row + self.scroll_row
    }

    /// The logical column: the character index within the current row.  It may
    /// equal the row's length (the one-past-last-character position), never
    /// exceed it.
    pub open spec fn spec_col_index(self) -> int {
        self.col + self.scroll_col
    }

    /// Well-formedness of a cursor against a buffer and a viewport: the window
    /// position stays inside the viewport, and, when the buffer is non-empty,
    /// the logical position addresses an existing row and a column no further
    /// than one past that row's last character.  An empty buffer constrains
    /// only the window position; every move is then a no-op.
    pub open spec fn wf(self, text: Text, vp: Viewport) -> bool {
        &&& self.row < vp.height
        &&& self.col < vp.width
        &&& text@.len() > 0 ==> {
            &&& self.spec_row_index() < text@.len()
            &&& self.spec_col_index() <= text@[self.spec_row_index()].len()
        }
    }

    /// The cursor after clamping to the end of the current row: the logical
    /// column becomes the row's length, and the split is chosen so that this
    /// position is visible, at the right edge of the viewport when the row is
    /// wider than the window and at its true column with no scroll otherwise.
    pub open spec fn spec_end_of_line(self, text: Text, vp: Viewport) -> Cursor {
        let len = text@[self.spec_row_index()].len() as int;
        let sc: int = if len >= vp.width { len - (vp.width - 1) } else { 0 };
        Cursor { col: (len - sc) as usize, scroll_col: sc as usize, ..self }
    }

    /// Column clamping after a vertical move: only when the logical column
    /// exceeds the new row's length is the cursor pulled back to end-of-line.
    pub open spec fn spec_clamp_col(self, text: Text, vp: Viewport) -> Cursor {
        if self.spec_col_index() > text@[self.spec_row_index()].len() {
            self.spec_end_of_line(text, vp)
        } else {
            self
        }
    }

    /// One step up: the visible row if possible, else the scroll offset, else
    /// nothing; then the column is clamped to the new row.
    pub open spec fn spec_up(self, text: Text, vp: Viewport) -> Cursor {
        let moved = if self.row > 0 {
            Cursor { row: (self.row - 1) as usize, ..self }
        } else if self.scroll_row > 0 {
            Cursor { scroll_row: (self.scroll_row - 1) as usize, ..self }
        } else {
            self
        };
        moved.spec_clamp_col(text, vp)
    }

    /// One step down: a no-op on the last row; otherwise the visible row moves
    /// if it is not on the bottom edge, else the window scrolls; then the
    /// column is clamped to the new row.
    pub open spec fn spec_down(self, text: Text, vp: Viewport) -> Cursor {
        let moved = if self.spec_row_index() >= text@.len() - 1 {
            self
        } else if self.row < vp.height - 1 {
            Cursor { row: (self.row + 1) as usize, ..self }
        } else {
            Cursor { scroll_row: (self.scroll_row + 1) as usize, ..self }
        };
        moved.spec_clamp_col(text, vp)
    }

    /// One step left: the visible column if possible, else the scroll offset,
    /// else nothing.  No clamping: the logical column only decreases.
    pub open spec fn spec_left(self) -> Cursor {
        if self.col > 0 {
            Cursor { col: (self.col - 1) as usize, ..self }
        } else if self.scroll_col > 0 {
            Cursor { scroll_col: (self.scroll_col - 1) as usize, ..self }
        } else {
            self
        }
    }

    /// One step right: a no-op at end-of-line; otherwise the visible column
    /// moves if it is not on the right edge, else the window scrolls.
    pub open spec fn spec_right(self, text: Text, vp: Viewport) -> Cursor {
        if self.spec_col_index() >= text@[self.spec_row_index()].len() {
            self
        } else if self.col < vp.width - 1 {
            Cursor { col: (self.col + 1) as usize, ..self }
        } else {
            Cursor { scroll_col: (self.scroll_col + 1) as usize, ..self }
        }
    }

    /// The full transition relation of the engine: with an empty buffer every
    /// command is a no-op; otherwise the command's own rule applies.
    pub open spec fn spec_move(self, cmd: MoveCommand, text: Text, vp: Viewport) -> Cursor {
        if text@.len() == 0 {
            self
        } else {
            match cmd {
                MoveCommand::Up => self.spec_up(text, vp),
                MoveCommand::Down => self.spec_down(text, vp),
                MoveCommand::Left => self.spec_left(),
                MoveCommand::Right => self.spec_right(text, vp),
                MoveCommand::EndOfLine => self.spec_end_of_line(text, vp),
            }
        }
    }

    /// The state after a whole sequence of commands, first command first.
    pub open spec fn spec_move_seq(self, cmds: Seq<MoveCommand>, text: Text, vp: Viewport) -> Cursor
        decreases cmds.len(),
    {
        if cmds.len() == 0 {
            self
        } else {
            self.spec_move(cmds[0], text, vp).spec_move_seq(cmds.drop_first(), text, vp)
        }
    }

    /// The cursor after it is reconciled with the buffer and a (possibly
    /// changed) viewport: the logical row is clamped into the buffer, the
    /// logical column is clamped to that row's end, and the window position is
    /// pulled inside the viewport bounds, moving into the scroll offsets only
    /// what cannot stay in the window.  An empty buffer resets the cursor to
    /// the top-left corner.
    pub open spec fn spec_reclamp(self, text: Text, vp: Viewport) -> Cursor {
        if text@.len() == 0 {
            Cursor { col: 0, row: 0, scroll_col: 0, scroll_row: 0 }
        } else {
            let lr = if self.spec_row_index() <= text@.len() - 1 {
                self.spec_row_index()
            } else {
                text@.len() - 1
            };
            let sr = if self.scroll_row <= lr {
                self.scroll_row as int
            } else {
                lr
            };
            let sr2 = if lr - sr <= vp.height - 1 {
                sr
            } else {
                lr - (vp.height - 1)
            };
            let rl = text@[lr].len() as int;
            let lc = if self.spec_col_index() <= rl {
                self.spec_col_index()
            } else {
                rl
            };
            let sc = if self.scroll_col <= lc {
                self.scroll_col as int
            } else {
                lc
            };
            let sc2 = if lc - sc <= vp.width - 1 {
                sc
            } else {
                lc - (vp.width - 1)
            };
            Cursor {
                col: (lc - sc2) as usize,
                row: (lr - sr2) as usize,
                scroll_col: sc2 as usize,
                scroll_row: sr2 as usize,
            }
        }
    }

    /// The cursor a fresh session starts with: the top-left corner of an
    /// unscrolled window.
    pub fn new() -> (c: Cursor)
        ensures
            c == (Cursor { col: 0, row: 0, scroll_col: 0, scroll_row: 0 }),
    {
        Cursor { col: 0, row: 0, scroll_col: 0, scroll_row: 0 }
    }

    /// The logical row index, as executable code.
    pub fn row_index(&self) -> (r: usize)
        requires
            self.spec_row_index() <= usize::MAX,
        ensures
            r == self.spec_row_index(),
    {
        self.row + self.scroll_row
    }

    /// The logical column index, as executable code.
    pub fn col_index(&self) -> (r: usize)
        requires
            self.spec_col_index() <= usize::MAX,
        ensures
            r == self.spec_col_index(),
    {
        self.col + self.scroll_col
    }

    /// Whether the cursor sits on the last row of the buffer (or beyond it,
    /// which well-formed states never reach; for an empty buffer this is
    /// always true).
    pub fn is_past_last_row(&self, text: &Text) -> (r: bool)
        requires
            self.spec_row_index() <= usize::MAX,
        ensures
            r == (self.spec_row_index() >= text@.len() - 1),
    {
        let n = text.num_rows();
        n == 0 || self.row_index() >= n - 1
    }

    /// Whether the logical column sits at (or beyond) the end of the current
    /// row, i.e. on no character of it.
    pub fn is_past_row_end(&self, text: &Text) -> (r: bool)
        requires
            self.spec_row_index() < text@.len(),
            self.spec_col_index() <= usize::MAX,
        ensures
            r == (self.spec_col_index() >= text@[self.spec_row_index()].len()),
    {
        proof {
            crate::text::lemma_num_rows_bound(*text);
        }
        let row_len = text.row_len(self.row_index());
        self.col_index() >= row_len
    }

    /// Move the cursor to the end of the current row, choosing the scroll
    /// offset so that this position is visible: at the right edge of the
    /// viewport when the row is wider than the window, else at its true
    /// column with no horizontal scroll.
    pub fn move_cursor_end_of_row(&mut self, text: &Text, vp: Viewport)
        requires
            vp.wf(),
            old(self).spec_row_index() < text@.len(),
        ensures
            *final(self) == old(self).spec_end_of_line(*text, vp),
            final(self).spec_col_index() == text@[old(self).spec_row_index()].len(),
            final(self).col < vp.width,
            final(self).row == old(self).row,
            final(self).scroll_row == old(self).scroll_row,
    {
        proof {
            crate::text::lemma_num_rows_bound(*text);
        }
        let row_len = text.row_len(self.row_index());
        if row_len >= vp.width {
            self.scroll_col = row_len - (vp.width - 1);
            self.col = vp.width - 1;
        } else {
            self.scroll_col = 0;
            self.col = row_len;
        }
    }

    /// Apply one movement command against the buffer and the viewport.  The
    /// result is exactly the transition relation `spec_move`, and
    /// well-formedness is preserved.
    pub fn handle_cursor_move(&mut self, cmd: MoveCommand, text: &Text, vp: Viewport)
        requires
            vp.wf(),
            old(self).wf(*text, vp),
        ensures
            *final(self) == old(self).spec_move(cmd, *text, vp),
            final(self).wf(*text, vp),
    {
        if text.num_rows() == 0 {
            return;
        }
        proof {
            crate::text::lemma_row_len_bound(*text, old(self).spec_row_index());
        }
        match cmd {
            MoveCommand::Up => {
                if self.row > 0 {
                    self.row = self.row - 1;
                } else if self.scroll_row > 0 {
                    self.scroll_row = self.scroll_row - 1;
                }
                self.clamp_col(text, vp);
            },
            MoveCommand::Down => {
                if !self.is_past_last_row(text) {
                    if self.row < vp.height - 1 {
                        self.row = self.row + 1;
                    } else {
                        self.scroll_row = self.scroll_row + 1;
                    }
                }
                self.clamp_col(text, vp);
            },
            MoveCommand::Left => {
                if self.col > 0 {
                    self.col = self.col - 1;
                } else if self.scroll_col > 0 {
                    self.scroll_col = self.scroll_col - 1;
                }
            },
            MoveCommand::Right => {
                if !self.is_past_row_end(text) {
                    if self.col < vp.width - 1 {
                        self.col = self.col + 1;
                    } else {
                        self.scroll_col = self.scroll_col + 1;
                    }
                }
            },
            MoveCommand::EndOfLine => {
                self.move_cursor_end_of_row(text, vp);
            },
        }
    }

    /// Reconcile the cursor with the buffer and the current viewport; the
    /// driving loop runs this on every resize (and may run it on any tick:
    /// on an already well-formed cursor it keeps the logical position).  Any
    /// stored state whatsoever is brought back to a well-formed one: the
    /// logical position is clamped into the buffer and the window position
    /// into the viewport, keeping as much of the scroll offsets as can stay.
    pub fn reclamp(&mut self, text: &Text, vp: Viewport)
        requires
            vp.wf(),
        ensures
            *final(self) == old(self).spec_reclamp(*text, vp),
            final(self).wf(*text, vp),
            text@.len() > 0 ==> final(self).spec_row_index() == vstd::math::min(
                old(self).spec_row_index(),
                text@.len() - 1,
            ),
            text@.len() > 0 ==> final(self).spec_col_index() == vstd::math::min(
                old(self).spec_col_index(),
                text@[final(self).spec_row_index()].len() as int,
            ),
    {
        let n = text.num_rows();
        if n == 0 {
            self.col = 0;
            self.row = 0;
            self.scroll_col = 0;
            self.scroll_row = 0;
            return;
        }
        let last = n - 1;
        let lr = if self.scroll_row > last {
            last
        } else if self.row > last - self.scroll_row {
            last
        } else {
            self.scroll_row + self.row
        };
        if self.scroll_row > lr {
            self.scroll_row = lr;
        }
        if lr - self.scroll_row > vp.height - 1 {
            self.scroll_row = lr - (vp.height - 1);
        }
        self.row = lr - self.scroll_row;
        let rl = text.row_len(lr);
        let lc = if self.scroll_col > rl {
            rl
        } else if self.col > rl - self.scroll_col {
            rl
        } else {
            self.scroll_col + self.col
        };
        if self.scroll_col > lc {
            self.scroll_col = lc;
        }
        if lc - self.scroll_col > vp.width - 1 {
            self.scroll_col = lc - (vp.width - 1);
        }
        self.col = lc - self.scroll_col;
    }

    /// Pull the cursor back to end-of-line when its logical column exceeds
    /// the current row's length; used after every vertical move.
    fn clamp_col(&mut self, text: &Text, vp: Viewport)
        requires
            vp.wf(),
            old(self).spec_row_index() < text@.len(),
            old(self).spec_col_index() <= usize::MAX,
        ensures
            *final(self) == old(self).spec_clamp_col(*text, vp),
    {
        proof {
            crate::text::lemma_num_rows_bound(*text);
        }
        let row_len = text.row_len(self.row_index());
        if self.col_index() > row_len {
            self.move_cursor_end_of_row(text, vp);
        }
    }
}

/// Column clamping keeps a cursor on its row, leaves the logical column no
/// further than the row's end, and keeps the window position in bounds.
proof fn lemma_clamp_col_wf(c: Cursor, text: Text, vp: Viewport)
    requires
        vp.wf(),
        text@.len() > 0,
        c.row < vp.height,
        c.col < vp.width,
        0 <= c.spec_row_index() < text@.len(),
    ensures
        c.spec_clamp_col(text, vp).wf(text, vp),
        c.spec_clamp_col(text, vp).row == c.row,
        c.spec_clamp_col(text, vp).scroll_row == c.scroll_row,
{
    crate::text::lemma_row_len_bound(text, c.spec_row_index());
}

/// Law: one movement command keeps a well-formed cursor well-formed, whatever
/// the command and the buffer.
pub proof fn lemma_move_preserves_wf(c: Cursor, cmd: MoveCommand, text: Text, vp: Viewport)
    requires
        vp.wf(),
        c.wf(text, vp),
    ensures
        c.spec_move(cmd, text, vp).wf(text, vp),
{
    if text@.len() > 0 {
        crate::text::lemma_num_rows_bound(text);
        let ri = c.spec_row_index();
        crate::text::lemma_row_len_bound(text, ri);
        match cmd {
            MoveCommand::Up => {
                let moved = if c.row > 0 {
                    Cursor { row: (c.row - 1) as usize, ..c }
                } else if c.scroll_row > 0 {
                    Cursor { scroll_row: (c.scroll_row - 1) as usize, ..c }
                } else {
                    c
                };
                lemma_clamp_col_wf(moved, text, vp);
            },
            MoveCommand::Down => {
                let moved = if ri >= text@.len() - 1 {
                    c
                } else if c.row < vp.height - 1 {
                    Cursor { row: (c.row + 1) as usize, ..c }
                } else {
                    Cursor { scroll_row: (c.scroll_row + 1) as usize, ..c }
                };
                lemma_clamp_col_wf(moved, text, vp);
            },
            MoveCommand::Left => {
            },
            MoveCommand::Right => {
            },
            MoveCommand::EndOfLine => {
                lemma_clamp_col_wf(c, text, vp);
            },
        }
    }
}

/// Law: after any finite sequence of movement commands from a well-formed
/// state, the cursor is still well-formed; against a non-empty buffer the
/// logical row stays inside the buffer and the logical column stays between
/// 0 and the current row's length, inclusive.
pub proof fn lemma_move_seq_preserves_wf(
    c: Cursor,
    cmds: Seq<MoveCommand>,
    text: Text,
    vp: Viewport,
)
    requires
        vp.wf(),
        c.wf(text, vp),
    ensures
        c.spec_move_seq(cmds, text, vp).wf(text, vp),
        text@.len() > 0 ==> 0 <= c.spec_move_seq(cmds, text, vp).spec_row_index() < text@.len(),
        text@.len() > 0 ==> 0 <= c.spec_move_seq(cmds, text, vp).spec_col_index() <= text@[c.spec_move_seq(
            cmds,
            text,
            vp,
        ).spec_row_index()].len(),
    decreases cmds.len(),
{
    if cmds.len() > 0 {
        lemma_move_preserves_wf(c, cmds[0], text, vp);
        lemma_move_seq_preserves_wf(c.spec_move(cmds[0], text, vp), cmds.drop_first(), text, vp);
    }
}

/// Law: from a well-formed state of a non-empty buffer that is not on the top
/// row, moving up and then down comes back to the same logical row (the
/// column may have been clamped on the way if the row lengths differ).
pub proof fn lemma_up_then_down_same_row(c: Cursor, text: Text, vp: Viewport)
    requires
        vp.wf(),
        c.wf(text, vp),
        text@.len() > 0,
        c.spec_row_index() >= 1,
    ensures
        c.spec_move(MoveCommand::Up, text, vp).spec_move(
            MoveCommand::Down,
            text,
            vp,
        ).spec_row_index() == c.spec_row_index(),
{
    crate::text::lemma_num_rows_bound(text);
    let ri = c.spec_row_index();
    crate::text::lemma_row_len_bound(text, ri);
    crate::text::lemma_row_len_bound(text, ri - 1);
    let u = c.spec_move(MoveCommand::Up, text, vp);
    lemma_move_preserves_wf(c, MoveCommand::Up, text, vp);
    assert(u.spec_row_index() == ri - 1);
}

/// Law: when the column needs no clamping on the way (it also fits the row
/// above), moving up and then down keeps the whole logical position, column
/// included.
pub proof fn lemma_up_then_down_keeps_position(c: Cursor, text: Text, vp: Viewport)
    requires
        vp.wf(),
        c.wf(text, vp),
        text@.len() > 0,
        c.spec_row_index() >= 1,
        c.spec_col_index() <= text@[c.spec_row_index() - 1].len(),
    ensures
        c.spec_move(MoveCommand::Up, text, vp).spec_move(
            MoveCommand::Down,
            text,
            vp,
        ).spec_row_index() == c.spec_row_index(),
        c.spec_move(MoveCommand::Up, text, vp).spec_move(
            MoveCommand::Down,
            text,
            vp,
        ).spec_col_index() == c.spec_col_index(),
{
    crate::text::lemma_num_rows_bound(text);
    let ri = c.spec_row_index();
    crate::text::lemma_row_len_bound(text, ri);
    crate::text::lemma_row_len_bound(text, ri - 1);
    let u = c.spec_move(MoveCommand::Up, text, vp);
    lemma_move_preserves_wf(c, MoveCommand::Up, text, vp);
    assert(u.spec_row_index() == ri - 1);
    assert(u.spec_col_index() == c.spec_col_index());
}

/// Law: with the cursor on the top buffer row, moving up changes nothing, so
/// pressing up over and over is absorbed.
pub proof fn lemma_up_at_top_noop(c: Cursor, text: Text, vp: Viewport)
    requires
        vp.wf(),
        c.wf(text, vp),
        c.spec_row_index() == 0,
    ensures
        c.spec_move(MoveCommand::Up, text, vp) == c,
{
}

/// Law: with the logical column at 0, moving left changes nothing, so
/// pressing left over and over is absorbed.
pub proof fn lemma_left_at_zero_noop(c: Cursor, text: Text, vp: Viewport)
    requires
        vp.wf(),
        c.wf(text, vp),
        c.spec_col_index() == 0,
    ensures
        c.spec_move(MoveCommand::Left, text, vp) == c,
{
}

/// Law: with the cursor at the end of its row, moving right changes nothing,
/// so pressing right over and over is absorbed.
pub proof fn lemma_right_at_eol_noop(c: Cursor, text: Text, vp: Viewport)
    requires
        vp.wf(),
        c.wf(text, vp),
        text@.len() > 0,
        c.spec_col_index() == text@[c.spec_row_index()].len(),
    ensures
        c.spec_move(MoveCommand::Right, text, vp) == c,
{
}

/// Law: with the cursor on the last buffer row, moving down changes nothing,
/// so pressing down over and over is absorbed.
pub proof fn lemma_down_at_last_row_noop(c: Cursor, text: Text, vp: Viewport)
    requires
        vp.wf(),
        c.wf(text, vp),
        text@.len() > 0,
        c.spec_row_index() == text@.len() - 1,
    ensures
        c.spec_move(MoveCommand::Down, text, vp) == c,
{
}

} // verus!
