//! The edit buffer: an always non-empty sequence of text lines plus a
//! cursor, with the movement and editing operations of the editor.
//!
//! Every operation keeps the central invariant: the cursor line indexes an
//! existing line, and the cursor column sits between the start of that line
//! and the position just past its last character.

use vstd::prelude::*;

verus! {

/// The mathematical model of an edit buffer: the lines as sequences of
/// character units, and the cursor as a pair of unbounded integers.
#[verifier::ext_equal]
pub struct BufferModel {
    pub lines: Seq<Seq<char>>,
    pub line: int,
    pub col: int,
}

/// The buffer invariant: at least one line, the cursor on an existing line,
/// and the cursor column at most one past the end of that line.
pub open spec fn inv(m: BufferModel) -> bool {
    &&& m.lines.len() > 0
    &&& 0 <= m.line < m.lines.len()
    &&& 0 <= m.col <= m.lines[m.line].len()
}

/// Moving up: on any line but the first, the cursor goes to the previous
/// line and its column is clamped to that line's length; on the first line
/// nothing changes.
pub open spec fn spec_move_up(m: BufferModel) -> BufferModel {
    if m.line > 0 {
        let l = m.line - 1;
        BufferModel { lines: m.lines, line: l, col: min_int(m.col, m.lines[l].len() as int) }
    } else {
        m
    }
}

/// Moving down: on any line but the last, the cursor goes to the next line
/// and its column is clamped to that line's length; on the last line nothing
/// changes.
pub open spec fn spec_move_down(m: BufferModel) -> BufferModel {
    if m.line < m.lines.len() - 1 {
        let l = m.line + 1;
        BufferModel { lines: m.lines, line: l, col: min_int(m.col, m.lines[l].len() as int) }
    } else {
        m
    }
}

/// Moving left: inside a line the column steps back by one; at column zero
/// of any line but the first, the cursor wraps to the end of the previous
/// line; at the very start of the buffer nothing changes.
pub open spec fn spec_move_left(m: BufferModel) -> BufferModel {
    if m.col > 0 {
        BufferModel { lines: m.lines, line: m.line, col: m.col - 1 }
    } else if m.line > 0 {
        BufferModel { lines: m.lines, line: m.line - 1, col: m.lines[m.line - 1].len() as int }
    } else {
        m
    }
}

/// Moving right: before the end of a line the column steps forward by one;
/// at the end of any line but the last, the cursor wraps to the start of the
/// next line; at the very end of the buffer nothing changes.
pub open spec fn spec_move_right(m: BufferModel) -> BufferModel {
    if m.col < m.lines[m.line].len() {
        BufferModel { lines: m.lines, line: m.line, col: m.col + 1 }
    } else if m.line < m.lines.len() - 1 {
        BufferModel { lines: m.lines, line: m.line + 1, col: 0 }
    } else {
        m
    }
}

/// Inserting a character: it enters the current line at the cursor column,
/// and the cursor advances past it.
pub open spec fn spec_insert_char(m: BufferModel, c: char) -> BufferModel {
    BufferModel {
        lines: m.lines.update(m.line, m.lines[m.line].insert(m.col, c)),
        line: m.line,
        col: m.col + 1,
    }
}

/// Splitting a line: the tail of the current line from the cursor column on
/// becomes a new line right after it, and the cursor moves to the start of
/// that new line. The one operation that grows the number of lines.
pub open spec fn spec_split_line(m: BufferModel) -> BufferModel {
    let cur = m.lines[m.line];
    BufferModel {
        lines: m.lines.update(m.line, cur.take(m.col)).insert(m.line + 1, cur.skip(m.col)),
        line: m.line + 1,
        col: 0,
    }
}

/// Deleting before the cursor: inside a line the character just before the
/// cursor goes and the cursor steps back; at column zero of any line but
/// the first, the current line is removed and its content appended to the
/// previous line, with the cursor landing at the junction point; at the
/// very start of the buffer nothing changes. The one operation that
/// shrinks the number of lines.
pub open spec fn spec_delete_before(m: BufferModel) -> BufferModel {
    if m.col > 0 {
        BufferModel {
            lines: m.lines.update(m.line, m.lines[m.line].remove(m.col - 1)),
            line: m.line,
            col: m.col - 1,
        }
    } else if m.line > 0 {
        let prev = m.lines[m.line - 1];
        let cur = m.lines[m.line];
        BufferModel {
            lines: m.lines.remove(m.line).update(m.line - 1, prev + cur),
            line: m.line - 1,
            col: prev.len() as int,
        }
    } else {
        m
    }
}

/// The smaller of two integers.
pub open spec fn min_int(a: int, b: int) -> int {
    if a <= b {
        a
    } else {
        b
    }
}

/// Splitting a line and then deleting before the cursor from the resulting
/// position restores the original lines and the original cursor, for any
/// valid buffer: the join undoes the split exactly.
pub proof fn lemma_split_then_delete_restores(m: BufferModel)
    requires
        inv(m),
    ensures
        spec_delete_before(spec_split_line(m)) == m,
{
    let cur = m.lines[m.line];
    let s = spec_split_line(m);
    assert(s.lines.remove(m.line + 1) =~= m.lines.update(m.line, cur.take(m.col)));
    assert(cur.take(m.col) + cur.skip(m.col) =~= cur);
    assert(s.lines.remove(m.line + 1).update(m.line, cur.take(m.col) + cur.skip(m.col)) =~= m.lines);
    assert(spec_delete_before(s) =~= m);
}

/// Moving left at the very start of the buffer (first line, column zero)
/// changes nothing.
pub proof fn lemma_move_left_at_start(m: BufferModel)
    requires
        inv(m),
        m.line == 0,
        m.col == 0,
    ensures
        spec_move_left(m) == m,
{
}

/// Moving right at the very end of the buffer (last line, column past the
/// last character) changes nothing.
pub proof fn lemma_move_right_at_end(m: BufferModel)
    requires
        inv(m),
        m.line == m.lines.len() - 1,
        m.col == m.lines[m.line].len(),
    ensures
        spec_move_right(m) == m,
{
}

/// An edit buffer: the open document's lines and the cursor position where
/// the next edit applies.
pub struct Buffer {
    lines: Vec<Vec<char>>,
    cursor_line: usize,
    cursor_col: usize,
}

/// The lines of a sequence of line vectors, each taken to its sequence of
/// characters.
pub open spec fn lines_view(s: Seq<Vec<char>>) -> Seq<Seq<char>> {
    Seq::new(s.len(), |i: int| s[i]@)
}

impl View for Buffer {
    type V = BufferModel;

    closed spec fn view(&self) -> BufferModel {
        BufferModel {
            lines: lines_view(self.lines@),
            line: self.cursor_line as int,
            col: self.cursor_col as int,
        }
    }
}

impl Buffer {
    /// Whether the buffer satisfies the cursor-to-line invariant.
    pub open spec fn wf(&self) -> bool {
        inv(self@)
    }

    /// A buffer holding a single empty line, cursor at the start: the state
    /// of the editor when the named file does not exist yet.
    pub fn empty() -> (b: Buffer)
        ensures
            b.wf(),
            b@.lines =~= seq![Seq::<char>::empty()],
            b@.line == 0,
            b@.col == 0,
    {
        let mut lines: Vec<Vec<char>> = Vec::new();
        lines.push(Vec::new());
        let b = Buffer { lines, cursor_line: 0, cursor_col: 0 };
        proof {
            assert(b@.lines =~= seq![Seq::<char>::empty()]);
        }
        b
    }

    /// A buffer over the given lines, cursor at the start of the first
    /// line. The document must have at least one line.
    pub fn from_lines(lines: Vec<Vec<char>>) -> (b: Buffer)
        requires
            lines@.len() > 0,
        ensures
            b.wf(),
            b@.lines == lines_view(lines@),
            b@.line == 0,
            b@.col == 0,
    {
        Buffer { lines, cursor_line: 0, cursor_col: 0 }
    }

    /// How many lines the buffer holds; always at least one.
    pub fn line_count(&self) -> (n: usize)
        ensures
            n == self@.lines.len(),
    {
        self.lines.len()
    }

    /// The line at index `i`.
    pub fn line(&self, i: usize) -> (l: &Vec<char>)
        requires
            i < self@.lines.len(),
        ensures
            l@ == self@.lines[i as int],
    {
        &self.lines[i]
    }

    /// The index of the line the cursor is on.
    pub fn cursor_line(&self) -> (l: usize)
        ensures
            l == self@.line,
    {
        self.cursor_line
    }

    /// The column the cursor is at within its line.
    pub fn cursor_col(&self) -> (c: usize)
        ensures
            c == self@.col,
    {
        self.cursor_col
    }

    /// Move the cursor one line up, clamping the column; a no-op on the
    /// first line.
    pub fn move_up(&mut self)
        requires
            old(self).wf(),
        ensures
            final(self).wf(),
            final(self)@ == spec_move_up(old(self)@),
    {
        if self.cursor_line > 0 {
            self.cursor_line = self.cursor_line - 1;
            let len = self.lines[self.cursor_line].len();
            if self.cursor_col > len {
                self.cursor_col = len;
            }
        }
    }

    /// Move the cursor one line down, clamping the column; a no-op on the
    /// last line.
    pub fn move_down(&mut self)
        requires
            old(self).wf(),
        ensures
            final(self).wf(),
            final(self)@ == spec_move_down(old(self)@),
    {
        if self.cursor_line < self.lines.len() - 1 {
            self.cursor_line = self.cursor_line + 1;
            let len = self.lines[self.cursor_line].len();
            if self.cursor_col > len {
                self.cursor_col = len;
            }
        }
    }

    /// Move the cursor one position left, wrapping to the end of the
    /// previous line at column zero; a no-op at the start of the buffer.
    pub fn move_left(&mut self)
        requires
            old(self).wf(),
        ensures
            final(self).wf(),
            final(self)@ == spec_move_left(old(self)@),
    {
        if self.cursor_col > 0 {
            self.cursor_col = self.cursor_col - 1;
        } else if self.cursor_line > 0 {
            self.cursor_line = self.cursor_line - 1;
            self.cursor_col = self.lines[self.cursor_line].len();
        }
    }

    /// Move the cursor one position right, wrapping to the start of the
    /// next line at the end of a line; a no-op at the end of the buffer.
    pub fn move_right(&mut self)
        requires
            old(self).wf(),
        ensures
            final(self).wf(),
            final(self)@ == spec_move_right(old(self)@),
    {
        if self.cursor_col < self.lines[self.cursor_line].len() {
            self.cursor_col = self.cursor_col + 1;
        } else if self.cursor_line < self.lines.len() - 1 {
            self.cursor_line = self.cursor_line + 1;
            self.cursor_col = 0;
        }
    }

    /// Insert `c` into the current line at the cursor column and advance
    /// the cursor past it.
    pub fn insert_char(&mut self, c: char)
        requires
            old(self).wf(),
            old(self)@.lines[old(self)@.line].len() < usize::MAX,
        ensures
            final(self).wf(),
            final(self)@ == spec_insert_char(old(self)@, c),
    {
        let line = vstd::std_specs::vec::vec_index_mut(&mut self.lines, self.cursor_line);
        line.insert(self.cursor_col, c);
        self.cursor_col = self.cursor_col + 1;
        proof {
            assert(self@ =~= spec_insert_char(old(self)@, c));
        }
    }

    /// Break the current line at the cursor: its tail becomes a new line
    /// right below, and the cursor moves to that line's start.
    pub fn split_line(&mut self)
        requires
            old(self).wf(),
        ensures
            final(self).wf(),
            final(self)@ == spec_split_line(old(self)@),
    {
        let n = self.lines.len();
        assert(self.cursor_line < n);
        let line = vstd::std_specs::vec::vec_index_mut(&mut self.lines, self.cursor_line);
        let rest = line.split_off(self.cursor_col);
        self.lines.insert(self.cursor_line + 1, rest);
        self.cursor_line = self.cursor_line + 1;
        self.cursor_col = 0;
        proof {
            assert(self@ =~= spec_split_line(old(self)@));
        }
    }

    /// Delete the character before the cursor, or at column zero join the
    /// current line onto the previous one; a no-op at the start of the
    /// buffer.
    pub fn delete_before_cursor(&mut self)
        requires
            old(self).wf(),
        ensures
            final(self).wf(),
            final(self)@ == spec_delete_before(old(self)@),
    {
        if self.cursor_col > 0 {
            let line = vstd::std_specs::vec::vec_index_mut(&mut self.lines, self.cursor_line);
            line.remove(self.cursor_col - 1);
            self.cursor_col = self.cursor_col - 1;
            proof {
                assert(self@ =~= spec_delete_before(old(self)@));
            }
        } else if self.cursor_line > 0 {
            let mut removed = self.lines.remove(self.cursor_line);
            self.cursor_line = self.cursor_line - 1;
            self.cursor_col = self.lines[self.cursor_line].len();
            let prev = vstd::std_specs::vec::vec_index_mut(&mut self.lines, self.cursor_line);
            prev.append(&mut removed);
            proof {
                assert(self@ =~= spec_delete_before(old(self)@));
            }
        }
    }
}

} // verus!
