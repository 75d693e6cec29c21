//! The text buffer: an ordered sequence of rows of characters.

use vstd::prelude::*;

verus! {

/// A line with its terminator stripped: a trailing line feed is removed,
/// together with the carriage return that may precede it, so that lines ended
/// by either convention store the same characters.
pub open spec fn spec_strip_eol(s: Seq<char>) -> Seq<char> {
    if s.len() > 0 && s.last() == '\n' {
        if s.drop_last().len() > 0 && s.drop_last().last() == '\r' {
            s.drop_last().drop_last()
        } else {
            s.drop_last()
        }
    } else {
        s
    }
}

/// One line of text. Characters are stored in visual left-to-right order;
/// a row may hold zero characters.
#[derive(Debug, Clone)]
pub struct Row {
    pub chars: Vec<char>,
}

impl View for Row {
    type V = Seq<char>;

    open spec fn view(&self) -> Seq<char> {
        self.chars@
    }
}

/// The whole buffer. Rows are stored in visual top-to-bottom order.
#[derive(Debug)]
pub struct Text {
    pub rows: Vec<Row>,
}

impl View for Text {
    type V = Seq<Seq<char>>;

    open spec fn view(&self) -> Seq<Seq<char>> {
        Seq::new(self.rows@.len(), |i: int| self.rows@[i]@)
    }
}

impl Text {
    /// A buffer with zero rows.
    pub fn new() -> (t: Text)
        ensures
            t@.len() == 0,
    {
        Text { rows: Vec::new() }
    }

    /// The number of rows in the buffer.
    pub fn num_rows(&self) -> (n: usize)
        ensures
            n == self@.len(),
    {
        self.rows.len()
    }

    /// The number of characters in row `i`.
    pub fn row_len(&self, i: usize) -> (n: usize)
        requires
            i < self@.len(),
        ensures
            n == self@[i as int].len(),
    {
        self.rows[i].chars.len()
    }

    /// The character at logical position (`row`, `col`).
    pub fn char_at(&self, row: usize, col: usize) -> (c: char)
        requires
            row < self@.len(),
            col < self@[row as int].len(),
        ensures
            c == self@[row as int][col as int],
    {
        self.rows[row].chars[col]
    }

    /// Append one line, read from a line-oriented input, as a new bottom row,
    /// stripping its line terminator.
    pub fn push_line(&mut self, line: Vec<char>)
        ensures
            final(self)@ =~= old(self)@.push(spec_strip_eol(line@)),
    {
        let mut chars = line;
        strip_eol(&mut chars);
        self.rows.push(Row { chars });
    }

    /// Build a buffer from a sequence of text lines, preserving their order
    /// and stripping each line's terminator.  This is the pure part of
    /// loading a file: the caller reads the lines (replacing any line that
    /// cannot be decoded by an empty one) and hands them over.
    pub fn from_lines(lines: Vec<Vec<char>>) -> (t: Text)
        ensures
            t@.len() == lines@.len(),
            forall|i: int| 0 <= i < lines@.len() ==> t@[i] == spec_strip_eol(lines@[i]@),
    {
        let mut t = Text::new();
        for line in iter: lines.into_iter()
            invariant
                t@.len() == iter.index(),
                forall|i: int| 0 <= i < t@.len() ==> t@[i] == spec_strip_eol(iter.seq()[i]@),
        {
            t.push_line(line);
        }
        t
    }

    /// Overwrite the single character at logical position (`row`, `col`).
    /// The position must name an existing character: the one-past-end column
    /// a cursor may rest on is not writable.
    pub fn overwrite_char(&mut self, row: usize, col: usize, c: char)
        requires
            row < old(self)@.len(),
            col < old(self)@[row as int].len(),
        ensures
            final(self)@.len() == old(self)@.len(),
            final(self)@[row as int] == old(self)@[row as int].update(col as int, c),
            forall|i: int|
                0 <= i < old(self)@.len() && i != row ==> final(self)@[i] == old(self)@[i],
    {
        self.rows[row].chars.set(col, c);
    }
}

/// A buffer's row count is the length of a vector, so it fits in `usize`.
pub proof fn lemma_num_rows_bound(t: Text)
    ensures
        t@.len() <= usize::MAX,
{
    assert(t.rows.len() == t.rows@.len());
}

/// Every row's character count is the length of a vector, so it fits in
/// `usize`.
pub proof fn lemma_row_len_bound(t: Text, i: int)
    requires
        0 <= i < t@.len(),
    ensures
        t@[i].len() <= usize::MAX,
{
    assert(t.rows@[i].chars.len() == t.rows@[i].chars@.len());
}

/// Remove the line terminator, if any, from the end of `line`: a trailing
/// line feed goes, and then a carriage return left at the end goes with it.
pub fn strip_eol(line: &mut Vec<char>)
    ensures
        final(line)@ == spec_strip_eol(old(line)@),
{
    let len = line.len();
    if len > 0 && line[len - 1] == '\n' {
        line.pop();
        let len2 = line.len();
        if len2 > 0 && line[len2 - 1] == '\r' {
            line.pop();
        }
    }
}

} // verus!
