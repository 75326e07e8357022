//! The render contract: the display rows a full redraw paints, one per
//! buffer line, and where the terminal's visible cursor belongs.
//!
//! The row for the cursor's line starts with a two-character marker; every
//! other row starts with two blanks of the same width, so columns line up
//! across rows. The reported cursor target is the buffer cursor shifted
//! right by the marker width.

use vstd::prelude::*;
use crate::buffer::Buffer;
use crate::buffer::BufferModel;
use crate::buffer::lines_view;

verus! {

/// The display row for one line: a two-character marker in front of the
/// cursor's line, two blanks in front of every other line, then the line
/// itself.
pub open spec fn row_of(line: Seq<char>, marked: bool) -> Seq<char> {
    (if marked {
        seq!['>', ' ']
    } else {
        seq![' ', ' ']
    }) + line
}

/// The full screen: one display row per buffer line, in document order,
/// with the cursor's line marked.
pub open spec fn rows_of(m: BufferModel) -> Seq<Seq<char>> {
    Seq::new(m.lines.len(), |i: int| row_of(m.lines[i], i == m.line))
}

/// Produce the display rows for the buffer: one row per line, the cursor's
/// line prefixed with the marker, all others with matching blanks.
pub fn render_rows(b: &Buffer) -> (rows: Vec<Vec<char>>)
    requires
        b.wf(),
    ensures
        lines_view(rows@) == rows_of(b@),
{
    let mut rows: Vec<Vec<char>> = Vec::new();
    let n = b.line_count();
    let cl = b.cursor_line();
    let mut i: usize = 0;
    while i < n
        invariant
            i <= n,
            n == b@.lines.len(),
            cl == b@.line,
            b.wf(),
            lines_view(rows@) =~= rows_of(b@).take(i as int),
        decreases n - i,
    {
        let mut row: Vec<char> = Vec::new();
        if i == cl {
            row.push('>');
        } else {
            row.push(' ');
        }
        row.push(' ');
        let ghost marker = row@;
        let line = b.line(i);
        let m = line.len();
        let mut j: usize = 0;
        while j < m
            invariant
                j <= m,
                i < n,
                n == b@.lines.len(),
                m == b@.lines[i as int].len(),
                line@ == b@.lines[i as int],
                row@ == marker + line@.take(j as int),
            decreases m - j,
        {
            row.push(line[j]);
            j = j + 1;
            proof {
                assert(line@.take(j as int) =~= line@.take(j - 1).push(line@[j - 1]));
                assert(row@ =~= marker + line@.take(j as int));
            }
        }
        proof {
            assert(line@.take(m as int) =~= line@);
            assert(row@ =~= row_of(b@.lines[i as int], i == b@.line));
        }
        let ghost rows0 = rows@;
        let ghost rowv = row@;
        rows.push(row);
        i = i + 1;
        proof {
            assert(lines_view(rows0).len() == rows0.len());
            assert(rows0.len() == i - 1);
            assert(rows@.len() == i);
            assert(rows@[i - 1]@ == rowv);
            assert forall|idx: int| 0 <= idx < i implies lines_view(rows@)[idx] == rows_of(
                b@,
            ).take(i as int)[idx] by {
                if idx < i - 1 {
                    assert(rows@[idx] == rows0[idx]);
                    assert(lines_view(rows0)[idx] == rows_of(b@).take(i - 1)[idx]);
                } else {
                    assert(lines_view(rows@)[idx] == rowv);
                }
            }
            assert(lines_view(rows@) =~= rows_of(b@).take(i as int));
        }
    }
    proof {
        assert(rows_of(b@).take(n as int) =~= rows_of(b@));
    }
    rows
}

/// Where the terminal's visible cursor belongs after a redraw: the buffer
/// cursor's column shifted right past the marker, and its line.
pub fn cursor_target(b: &Buffer) -> (pos: (usize, usize))
    requires
        b.wf(),
        b@.col + 2 <= usize::MAX,
    ensures
        pos.0 == b@.col + 2,
        pos.1 == b@.line,
{
    (b.cursor_col() + 2, b.cursor_line())
}

} // verus!
