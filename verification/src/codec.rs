//! The file-content codec: how a document's characters are split into the
//! buffer's lines on load, and how the lines are joined back with single
//! line-break characters on save.
//!
//! A trailing line break yields no extra empty line on load, and saving
//! appends no trailing line break: loading and then saving reproduces the
//! content up to that one normalization.

use vstd::prelude::*;
use crate::buffer::Buffer;

verus! {

/// The raw split of a character sequence on the line-break character: one
/// piece per stretch between breaks, always at least one piece, with an
/// empty last piece exactly when the content is empty or ends in a break.
pub open spec fn split_raw(s: Seq<char>) -> Seq<Seq<char>>
    decreases s.len(),
{
    if s.len() == 0 {
        seq![Seq::<char>::empty()]
    } else if s.last() == '\n' {
        split_raw(s.drop_last()).push(Seq::<char>::empty())
    } else {
        let r = split_raw(s.drop_last());
        r.update(r.len() - 1, r.last().push(s.last()))
    }
}

/// The lines a load produces: the raw split, except that the empty piece
/// after a trailing line break is dropped. Always at least one line, so an
/// empty document loads as a single empty line.
pub open spec fn lines_of(s: Seq<char>) -> Seq<Seq<char>> {
    let r = split_raw(s);
    if r.len() > 1 && r.last().len() == 0 {
        r.drop_last()
    } else {
        r
    }
}

/// The content a save produces: the lines joined with a single line-break
/// character between them and nothing after the last.
pub open spec fn join_lines(ls: Seq<Seq<char>>) -> Seq<char>
    decreases ls.len(),
{
    if ls.len() == 0 {
        Seq::<char>::empty()
    } else if ls.len() == 1 {
        ls[0]
    } else {
        join_lines(ls.drop_last()).push('\n') + ls.last()
    }
}

/// A character sequence with one trailing line break, if any, removed.
pub open spec fn strip_trailing_break(s: Seq<char>) -> Seq<char> {
    if s.len() > 0 && s.last() == '\n' {
        s.drop_last()
    } else {
        s
    }
}

/// The raw split never has zero pieces.
proof fn lemma_split_raw_nonempty(s: Seq<char>)
    ensures
        split_raw(s).len() >= 1,
    decreases s.len(),
{
    if s.len() > 0 {
        lemma_split_raw_nonempty(s.drop_last());
    }
}

/// Joining the raw split of any content gives the content back unchanged.
proof fn lemma_join_split_raw(s: Seq<char>)
    ensures
        join_lines(split_raw(s)) == s,
    decreases s.len(),
{
    if s.len() == 0 {
        assert(join_lines(split_raw(s)) =~= s);
    } else {
        let s0 = s.drop_last();
        lemma_split_raw_nonempty(s0);
        lemma_join_split_raw(s0);
        let r = split_raw(s0);
        if s.last() == '\n' {
            assert(split_raw(s) == r.push(Seq::<char>::empty()));
            assert(r.push(Seq::<char>::empty()).drop_last() =~= r);
            assert(join_lines(split_raw(s)) =~= s);
        } else {
            let k = r.len() - 1;
            let r2 = r.update(k, r.last().push(s.last()));
            assert(split_raw(s) == r2);
            if r.len() == 1 {
                assert(join_lines(r2) == r2[0]);
                assert(join_lines(r2) =~= s);
            } else {
                assert(r2.drop_last() =~= r.drop_last());
                assert(r2.last() == r.last().push(s.last()));
                assert(join_lines(r2) == join_lines(r.drop_last()).push('\n') + r.last().push(
                    s.last(),
                ));
                assert(join_lines(r) == join_lines(r.drop_last()).push('\n') + r.last());
                assert(join_lines(r2) =~= join_lines(r).push(s.last()));
                assert(s0.push(s.last()) =~= s);
            }
        }
    }
}

/// The last raw piece is empty exactly when the content is empty or ends
/// in a line break.
proof fn lemma_split_raw_last(s: Seq<char>)
    ensures
        split_raw(s).last().len() == 0 <==> (s.len() == 0 || s.last() == '\n'),
{
    if s.len() > 0 && s.last() != '\n' {
        lemma_split_raw_nonempty(s.drop_last());
    }
}

/// Loading content and saving the resulting lines reproduces the content,
/// up to removal of one trailing line break: the load-save round trip is
/// the identity on normalized content.
pub proof fn lemma_load_save_round_trip(s: Seq<char>)
    ensures
        join_lines(lines_of(s)) == strip_trailing_break(s),
{
    lemma_split_raw_nonempty(s);
    lemma_split_raw_last(s);
    let r = split_raw(s);
    if r.len() > 1 && r.last().len() == 0 {
        let s0 = s.drop_last();
        lemma_split_raw_nonempty(s0);
        lemma_join_split_raw(s0);
        assert(split_raw(s0).push(Seq::<char>::empty()).drop_last() =~= split_raw(s0));
        assert(lines_of(s) == split_raw(s0));
    } else {
        lemma_join_split_raw(s);
        if s.len() > 0 && s.last() == '\n' {
            lemma_split_raw_nonempty(s.drop_last());
            assert(r.len() > 1);
        }
    }
}

/// Build the edit buffer for a document's characters: split them into
/// lines at line breaks, drop the empty piece a trailing break leaves,
/// and place the cursor at the start.
pub fn load(content: &Vec<char>) -> (b: Buffer)
    ensures
        b.wf(),
        b@.lines == lines_of(content@),
        b@.line == 0,
        b@.col == 0,
{
    let mut acc: Vec<Vec<char>> = Vec::new();
    let mut cur: Vec<char> = Vec::new();
    let n = content.len();
    let mut i: usize = 0;
    while i < n
        invariant
            i <= n,
            n == content@.len(),
            split_raw(content@.take(i as int)) == crate::buffer::lines_view(acc@).push(cur@),
        decreases n - i,
    {
        let ghost acc0 = acc@;
        let ghost cur0 = cur@;
        let c = content[i];
        if c == '\n' {
            acc.push(cur);
            cur = Vec::new();
        } else {
            cur.push(c);
        }
        i = i + 1;
        proof {
            let t = content@.take(i as int);
            assert(t.drop_last() =~= content@.take(i - 1));
            assert(t.last() == content@[i - 1]);
            let r = split_raw(t.drop_last());
            if c == '\n' {
                assert(crate::buffer::lines_view(acc@) =~= crate::buffer::lines_view(
                    acc0,
                ).push(cur0));
                assert(split_raw(t) =~= crate::buffer::lines_view(acc@).push(cur@));
            } else {
                assert(r.update(r.len() - 1, r.last().push(c)) =~= crate::buffer::lines_view(
                    acc0,
                ).push(cur0.push(c)));
                assert(split_raw(t) =~= crate::buffer::lines_view(acc@).push(cur@));
            }
        }
    }
    proof {
        assert(content@.take(n as int) =~= content@);
    }
    let ghost r = split_raw(content@);
    if cur.len() == 0 && acc.len() > 0 {
        proof {
            assert(r.len() > 1 && r.last().len() == 0);
            assert(r.drop_last() =~= crate::buffer::lines_view(acc@));
        }
        Buffer::from_lines(acc)
    } else {
        acc.push(cur);
        proof {
            if r.len() > 1 && r.last().len() == 0 {
                assert(false);
            }
            assert(r =~= crate::buffer::lines_view(acc@));
        }
        Buffer::from_lines(acc)
    }
}

/// Serialize the buffer's lines for saving: the lines joined with a single
/// line-break character between them and no trailing break.
pub fn save(b: &Buffer) -> (out: Vec<char>)
    requires
        b.wf(),
    ensures
        out@ == join_lines(b@.lines),
{
    let mut out: Vec<char> = Vec::new();
    let n = b.line_count();
    let mut i: usize = 0;
    while i < n
        invariant
            i <= n,
            n == b@.lines.len(),
            b.wf(),
            out@ == join_lines(b@.lines.take(i as int)),
        decreases n - i,
    {
        if i > 0 {
            out.push('\n');
        }
        let ghost prefix = out@;
        let line = b.line(i);
        let m = line.len();
        let mut j: usize = 0;
        while j < m
            invariant
                j <= m,
                i < n,
                n == b@.lines.len(),
                m == b@.lines[i as int].len(),
                line@ == b@.lines[i as int],
                out@ == prefix + line@.take(j as int),
            decreases m - j,
        {
            out.push(line[j]);
            j = j + 1;
            proof {
                assert(line@.take(j as int) =~= line@.take(j - 1).push(line@[j - 1]));
                assert(out@ =~= prefix + line@.take(j as int));
            }
        }
        i = i + 1;
        proof {
            let t = b@.lines.take(i as int);
            assert(t.drop_last() =~= b@.lines.take(i - 1));
            assert(line@.take(m as int) =~= line@);
            if i == 1 {
                assert(join_lines(t) == t[0]);
                assert(out@ =~= join_lines(t));
            } else {
                assert(join_lines(t) == join_lines(t.drop_last()).push('\n') + t.last());
                assert(out@ =~= join_lines(t));
            }
        }
    }
    proof {
        assert(b@.lines.take(n as int) =~= b@.lines);
    }
    out
}

} // verus!
