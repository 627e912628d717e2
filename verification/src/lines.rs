//! Splitting text into lines and joining lines back into text.

use crate::text::{push_all, rows, slice_of};
use vstd::prelude::*;

verus! {

/// Index of the first occurrence of `c` in `s`, or `s.len()` when there is
/// none.
pub open spec fn index_of(s: Seq<char>, c: char) -> int
    decreases s.len(),
{
    if s.len() == 0 || s[0] == c {
        0
    } else {
        1 + index_of(s.drop_first(), c)
    }
}

/// `i` is the index of the first `c` in `s`.
pub proof fn lemma_index_of(s: Seq<char>, c: char, i: int)
    requires
        0 <= i <= s.len(),
        forall|j: int| 0 <= j < i ==> #[trigger] s[j] != c,
        i < s.len() ==> s[i] == c,
    ensures
        index_of(s, c) == i,
    decreases s.len(),
{
    if i > 0 {
        let t = s.drop_first();
        assert forall|j: int| 0 <= j < i - 1 implies #[trigger] t[j] != c by {
            assert(t[j] == s[j + 1]);
        }
        lemma_index_of(t, c, i - 1);
    }
}

/// [`index_of`] lies inside `s`, no `c` stands before it, and a `c` stands at
/// it unless it is `s.len()`.
pub proof fn lemma_index_of_found(s: Seq<char>, c: char)
    ensures
        0 <= index_of(s, c) <= s.len(),
        forall|j: int| 0 <= j < index_of(s, c) ==> #[trigger] s[j] != c,
        index_of(s, c) < s.len() ==> s[index_of(s, c)] == c,
    decreases s.len(),
{
    if s.len() > 0 && s[0] != c {
        let t = s.drop_first();
        lemma_index_of_found(t, c);
        assert forall|j: int| 0 <= j < index_of(s, c) implies #[trigger] s[j] != c by {
            if j > 0 {
                assert(s[j] == t[j - 1]);
            }
        }
        if index_of(s, c) < s.len() {
            assert(s[index_of(s, c)] == t[index_of(t, c)]);
        }
    }
}

/// `s` without one trailing carriage return, if it has one.
pub open spec fn strip_cr(s: Seq<char>) -> Seq<char> {
    if s.len() > 0 && s.last() == '\r' {
        s.drop_last()
    } else {
        s
    }
}

/// The lines of `s`. A line ends at a line feed; the carriage return before
/// the line feed, if any, belongs to the line ending. The last line needs no
/// line ending, and an empty text has no lines.
pub open spec fn split_lines(s: Seq<char>) -> Seq<Seq<char>>
    decreases s.len(),
{
    let n = index_of(s, '\n');
    if s.len() == 0 {
        Seq::empty()
    } else if 0 <= n < s.len() {
        seq![strip_cr(s.take(n))] + split_lines(s.skip(n + 1))
    } else {
        seq![s]
    }
}

/// Every line followed by the line ending `nl`.
pub open spec fn join_lines(lines: Seq<Seq<char>>, nl: Seq<char>) -> Seq<char>
    decreases lines.len(),
{
    if lines.len() == 0 {
        Seq::empty()
    } else {
        join_lines(lines.drop_last(), nl) + lines.last() + nl
    }
}

/// Executable [`split_lines`].
pub fn lines_of(s: &Vec<char>) -> (out: Vec<Vec<char>>)
    ensures
        rows(out@) == split_lines(s@),
{
    let n = s.len();
    let mut out: Vec<Vec<char>> = Vec::new();
    let mut pos: usize = 0;
    assert(s@.skip(0) == s@);
    assert(rows(out@) + split_lines(s@) == split_lines(s@));
    while pos < n
        invariant
            pos <= n == s.len(),
            split_lines(s@) == rows(out@) + split_lines(s@.skip(pos as int)),
        decreases n - pos,
    {
        let ghost cur = s@.skip(pos as int);
        let mut end: usize = pos;
        while end < n && s[end] != '\n'
            invariant
                pos <= end <= n == s.len(),
                forall|j: int| pos <= j < end ==> #[trigger] s[j] != '\n',
            decreases n - end,
        {
            end += 1;
        }
        proof {
            assert forall|j: int| 0 <= j < end - pos implies #[trigger] cur[j] != '\n' by {
                assert(cur[j] == s[pos + j]);
            }
            lemma_index_of(cur, '\n', end - pos);
        }
        if end < n {
            let stop: usize = if end > pos && s[end - 1] == '\r' {
                end - 1
            } else {
                end
            };
            let line = slice_of(s, pos, stop);
            proof {
                let raw = cur.take(end - pos);
                assert(raw == s@.subrange(pos as int, end as int));
                assert(strip_cr(raw) == line@);
                assert(cur.skip(end - pos + 1) == s@.skip(end + 1));
                assert(rows(out@.push(line)) == rows(out@) + seq![line@]);
            }
            out.push(line);
            pos = end + 1;
        } else {
            let line = slice_of(s, pos, n);
            proof {
                assert(line@ == cur);
                assert(split_lines(cur) == seq![cur]);
                assert(s@.skip(n as int).len() == 0);
                assert(rows(out@.push(line)) == rows(out@) + seq![line@]);
                assert(rows(out@) + seq![line@] + split_lines(s@.skip(n as int)) == rows(out@)
                    + seq![line@]);
            }
            out.push(line);
            pos = n;
        }
    }
    proof {
        assert(s@.skip(pos as int).len() == 0);
        assert(rows(out@) + split_lines(s@.skip(pos as int)) == rows(out@));
    }
    out
}

/// Executable [`join_lines`].
pub fn join_of(lines: &Vec<Vec<char>>, nl: &Vec<char>) -> (out: Vec<char>)
    ensures
        out@ == join_lines(rows(lines@), nl@),
{
    let mut out: Vec<char> = Vec::new();
    let mut i: usize = 0;
    assert(rows(lines@).take(0) == Seq::<Seq<char>>::empty());
    while i < lines.len()
        invariant
            i <= lines.len(),
            out@ == join_lines(rows(lines@).take(i as int), nl@),
        decreases lines.len() - i,
    {
        proof {
            let next = rows(lines@).take(i + 1);
            assert(next.drop_last() == rows(lines@).take(i as int));
            assert(next.last() == lines[i as int]@);
        }
        push_all(&mut out, &lines[i]);
        push_all(&mut out, nl);
        i += 1;
    }
    assert(rows(lines@).take(lines.len() as int) == rows(lines@));
    out
}

/// Joining `front + back` is joining `front`, then joining `back`.
pub proof fn lemma_join_concat(front: Seq<Seq<char>>, back: Seq<Seq<char>>, nl: Seq<char>)
    ensures
        join_lines(front + back, nl) == join_lines(front, nl) + join_lines(back, nl),
    decreases back.len(),
{
    if back.len() == 0 {
        assert(front + back == front);
        assert(join_lines(front, nl) + Seq::<char>::empty() == join_lines(front, nl));
    } else {
        let all = front + back;
        assert(all.drop_last() == front + back.drop_last());
        assert(all.last() == back.last());
        lemma_join_concat(front, back.drop_last(), nl);
        assert(join_lines(all, nl) == join_lines(front, nl) + (join_lines(back.drop_last(), nl)
            + back.last() + nl));
    }
}

/// Whether `nl` is one of the two line endings, `"\n"` or `"\r\n"`.
pub open spec fn is_line_ending(nl: Seq<char>) -> bool {
    nl == seq!['\n'] || nl == seq!['\r', '\n']
}

/// Whether splitting gives `line` back after it was written with the line
/// ending `nl`: it holds no line feed, and where `nl` is a bare line feed it
/// does not end in a carriage return.
pub open spec fn line_survives(line: Seq<char>, nl: Seq<char>) -> bool {
    &&& forall|j: int| 0 <= j < line.len() ==> #[trigger] line[j] != '\n'
    &&& nl == seq!['\n'] ==> !(line.len() > 0 && line.last() == '\r')
}

/// Splitting `line + nl + rest` yields `line`, then the lines of `rest`.
pub proof fn lemma_split_first_line(line: Seq<char>, nl: Seq<char>, rest: Seq<char>)
    requires
        is_line_ending(nl),
        line_survives(line, nl),
    ensures
        split_lines(line + nl + rest) == seq![line] + split_lines(rest),
{
    let s = line + nl + rest;
    let cut = line.len() + nl.len() - 1;
    assert forall|j: int| 0 <= j < cut implies #[trigger] s[j] != '\n' by {
        if j < line.len() {
            assert(s[j] == line[j]);
        } else {
            assert(s[j] == nl[j - line.len()]);
        }
    }
    assert(s[cut] == nl[nl.len() - 1]);
    lemma_index_of(s, '\n', cut as int);
    assert(s.skip(cut + 1) == rest);
    if nl == seq!['\n'] {
        assert(s.take(cut as int) == line);
    } else {
        assert(s.take(cut as int) == line.push('\r'));
        assert(line.push('\r').drop_last() == line);
    }
}

/// Splitting what [`join_lines`] wrote gives the lines back.
pub proof fn lemma_split_join(lines: Seq<Seq<char>>, nl: Seq<char>)
    requires
        is_line_ending(nl),
        forall|i: int| 0 <= i < lines.len() ==> line_survives(#[trigger] lines[i], nl),
    ensures
        split_lines(join_lines(lines, nl)) == lines,
    decreases lines.len(),
{
    if lines.len() > 0 {
        let first = lines[0];
        let rest = lines.drop_first();
        assert(lines == seq![first] + rest);
        lemma_join_concat(seq![first], rest, nl);
        assert(seq![first].drop_last() == Seq::<Seq<char>>::empty());
        assert(join_lines(seq![first], nl) == first + nl) by {
            assert(join_lines(Seq::<Seq<char>>::empty(), nl) == Seq::<char>::empty());
            assert(Seq::<char>::empty() + first + nl == first + nl);
        }
        assert forall|i: int| 0 <= i < rest.len() implies line_survives(#[trigger] rest[i], nl) by {
            assert(rest[i] == lines[i + 1]);
        }
        lemma_split_join(rest, nl);
        lemma_split_first_line(first, nl, join_lines(rest, nl));
    }
}

/// No line that [`split_lines`] yields holds a line feed.
pub proof fn lemma_lines_hold_no_line_feed(s: Seq<char>)
    ensures
        forall|i: int, j: int|
            0 <= i < split_lines(s).len() && 0 <= j < split_lines(s)[i].len()
                ==> #[trigger] split_lines(s)[i][j] != '\n',
    decreases s.len(),
{
    let n = index_of(s, '\n');
    lemma_index_of_found(s, '\n');
    if s.len() == 0 {
    } else if n < s.len() {
        let rest = s.skip(n + 1);
        lemma_lines_hold_no_line_feed(rest);
        let first = strip_cr(s.take(n));
        assert forall|i: int, j: int|
            0 <= i < split_lines(s).len() && 0 <= j < split_lines(s)[i].len()
            implies #[trigger] split_lines(s)[i][j] != '\n' by {
            if i == 0 {
                assert(first[j] == s[j]);
            } else {
                assert(split_lines(s)[i] == split_lines(rest)[i - 1]);
            }
        }
    } else {
    }
}

} // verus!
