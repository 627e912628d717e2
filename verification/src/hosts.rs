//! The managed block of the hosts file: finding it, removing it, and
//! rendering a fresh one behind the foreign content.

use crate::error::{ErrorKind, SyncError};
use crate::lines::{join_lines, lemma_join_concat, lines_of, split_lines};
use crate::platform::{newline, newline_char, Platform};
use crate::text::{
    chars_of, matches_at, push_all, push_text, rows, starts_with, string_of, trim, trim_bounds,
};
use vstd::prelude::*;

verus! {

/// Column width of the address field of a host line.
pub const IP_COLUMN_WIDTH: usize = 28;

/// The line that opens the managed block.
pub open spec fn begin_marker() -> Seq<char> {
    "# fetch-github-hosts begin"@
}

/// The text with which the line that closes the managed block starts.
pub open spec fn end_marker() -> Seq<char> {
    "# fetch-github-hosts end"@
}

/// The prefix of the line that records when the block was written.
pub open spec fn fetch_time_prefix() -> Seq<char> {
    "# last fetch time: "@
}

/// The line that names the default source of the mapping.
pub open spec fn update_url_line() -> Seq<char> {
    "# update url: https://hosts.gitcdn.top/hosts.txt"@
}

/// Whether `line`, surrounding whitespace aside, is the begin marker.
pub open spec fn is_begin_line(line: Seq<char>) -> bool {
    trim(line) == begin_marker()
}

/// Whether `line`, leading whitespace aside, starts with the end marker.
pub open spec fn is_end_line(line: Seq<char>) -> bool {
    starts_with(trim(line), end_marker())
}

/// Index of the first begin-marker line, or `lines.len()` when there is
/// none.
pub open spec fn first_begin(lines: Seq<Seq<char>>) -> int
    decreases lines.len(),
{
    if lines.len() == 0 || is_begin_line(lines[0]) {
        0
    } else {
        1 + first_begin(lines.drop_first())
    }
}

/// Index of the first end-marker line, or `lines.len()` when there is none.
pub open spec fn first_end(lines: Seq<Seq<char>>) -> int
    decreases lines.len(),
{
    if lines.len() == 0 || is_end_line(lines[0]) {
        0
    } else {
        1 + first_end(lines.drop_first())
    }
}

/// The lines outside the managed block: everything before the first begin
/// marker, and everything behind the first end marker that follows it. A
/// block that is never closed reaches to the end.
pub open spec fn foreign_lines(lines: Seq<Seq<char>>) -> Seq<Seq<char>> {
    let b = first_begin(lines);
    if 0 <= b < lines.len() {
        let inside = lines.skip(b + 1);
        let e = first_end(inside);
        if 0 <= e < inside.len() {
            lines.take(b) + inside.skip(e + 1)
        } else {
            lines.take(b)
        }
    } else {
        lines
    }
}

/// The hosts-file content without its managed block, every remaining line
/// written with the line ending `nl`.
pub open spec fn foreign_content(content: Seq<char>, nl: Seq<char>) -> Seq<char> {
    join_lines(foreign_lines(split_lines(content)), nl)
}

/// `i` is the index of the first begin-marker line of `lines`.
pub proof fn lemma_first_begin(lines: Seq<Seq<char>>, i: int)
    requires
        0 <= i <= lines.len(),
        forall|j: int| 0 <= j < i ==> !is_begin_line(#[trigger] lines[j]),
        i < lines.len() ==> is_begin_line(lines[i]),
    ensures
        first_begin(lines) == i,
    decreases lines.len(),
{
    if i > 0 {
        let t = lines.drop_first();
        assert forall|j: int| 0 <= j < i - 1 implies !is_begin_line(#[trigger] t[j]) by {
            assert(t[j] == lines[j + 1]);
        }
        lemma_first_begin(t, i - 1);
    }
}

/// `i` is the index of the first end-marker line of `lines`.
pub proof fn lemma_first_end(lines: Seq<Seq<char>>, i: int)
    requires
        0 <= i <= lines.len(),
        forall|j: int| 0 <= j < i ==> !is_end_line(#[trigger] lines[j]),
        i < lines.len() ==> is_end_line(lines[i]),
    ensures
        first_end(lines) == i,
    decreases lines.len(),
{
    if i > 0 {
        let t = lines.drop_first();
        assert forall|j: int| 0 <= j < i - 1 implies !is_end_line(#[trigger] t[j]) by {
            assert(t[j] == lines[j + 1]);
        }
        lemma_first_end(t, i - 1);
    }
}

/// Whether `line` is a begin-marker line.
fn is_begin(line: &Vec<char>, marker: &Vec<char>) -> (r: bool)
    requires
        marker@ == begin_marker(),
    ensures
        r == is_begin_line(line@),
{
    let (a, b) = trim_bounds(line);
    b - a == marker.len() && matches_at(line, marker, a)
}

/// Whether `line` is an end-marker line.
fn is_end(line: &Vec<char>, marker: &Vec<char>) -> (r: bool)
    requires
        marker@ == end_marker(),
    ensures
        r == is_end_line(line@),
{
    let (a, b) = trim_bounds(line);
    let r = b - a >= marker.len() && matches_at(line, marker, a);
    proof {
        let t = line@.subrange(a as int, b as int);
        if marker.len() <= b - a {
            assert(t.subrange(0, marker.len() as int) == line@.subrange(
                a as int,
                a + marker.len(),
            ));
        }
    }
    r
}

/// Appends `lines[from..to]`, each followed by `nl`, to `out`.
pub fn push_lines(
    out: &mut Vec<char>,
    lines: &Vec<Vec<char>>,
    from: usize,
    to: usize,
    nl: &Vec<char>,
)
    requires
        from <= to <= lines.len(),
    ensures
        final(out)@ == old(out)@ + join_lines(rows(lines@).subrange(from as int, to as int), nl@),
{
    let mut i: usize = from;
    let ghost all = rows(lines@);
    assert(all.subrange(from as int, from as int) == Seq::<Seq<char>>::empty());
    assert(out@ + Seq::<char>::empty() == out@);
    while i < to
        invariant
            from <= i <= to <= lines.len(),
            all == rows(lines@),
            out@ == old(out)@ + join_lines(all.subrange(from as int, i as int), nl@),
        decreases to - i,
    {
        proof {
            let next = all.subrange(from as int, i + 1);
            assert(next.drop_last() == all.subrange(from as int, i as int));
            assert(next.last() == lines[i as int]@);
            assert(old(out)@ + (join_lines(next.drop_last(), nl@) + next.last() + nl@) == old(
                out,
            )@ + join_lines(next.drop_last(), nl@) + next.last() + nl@);
        }
        push_all(out, &lines[i]);
        push_all(out, nl);
        i += 1;
    }
}

/// The content of the hosts file without its managed block; the remaining
/// lines are kept as they are and written with the platform's line ending.
pub fn strip_managed_block(content: &str, platform: Platform) -> (out: String)
    ensures
        out@ == foreign_content(content@, newline(platform)),
{
    let text = chars_of(content);
    let lines = lines_of(&text);
    let nl = chars_of(newline_char(platform));
    let begin = chars_of("# fetch-github-hosts begin");
    let end = chars_of("# fetch-github-hosts end");
    let n = lines.len();
    let ghost all = rows(lines@);
    let mut b: usize = 0;
    while b < n && !is_begin(&lines[b], &begin)
        invariant
            b <= n == lines.len(),
            all == rows(lines@),
            begin@ == begin_marker(),
            forall|j: int| 0 <= j < b ==> !is_begin_line(#[trigger] all[j]),
        decreases n - b,
    {
        b += 1;
    }
    proof {
        lemma_first_begin(all, b as int);
    }
    let mut out: Vec<char> = Vec::new();
    push_lines(&mut out, &lines, 0, b, &nl);
    assert(all.subrange(0, b as int) == all.take(b as int));
    if b < n {
        let ghost inside = all.skip(b + 1);
        let mut e: usize = b + 1;
        while e < n && !is_end(&lines[e], &end)
            invariant
                b < e <= n == lines.len(),
                all == rows(lines@),
                inside == all.skip(b + 1),
                end@ == end_marker(),
                forall|j: int| 0 <= j < e - b - 1 ==> !is_end_line(#[trigger] inside[j]),
            decreases n - e,
        {
            e += 1;
        }
        proof {
            lemma_first_end(inside, e - b - 1);
        }
        if e < n {
            push_lines(&mut out, &lines, e + 1, n, &nl);
            proof {
                assert(all.subrange(e + 1, n as int) == inside.skip(e - b));
                lemma_join_concat(all.take(b as int), inside.skip(e - b), nl@);
            }
        }
    } else {
        assert(all.take(n as int) == all);
    }
    string_of(&out)
}

/// What reading the hosts file gave: its foreign content, or an
/// [`ErrorKind::IOFailure`] that carries the reader's message.
pub fn get_clean_hosts(read: Result<String, String>, platform: Platform) -> (r: Result<
    String,
    SyncError,
>)
    ensures
        match read {
            Ok(content) => r is Ok && r->Ok_0@ == foreign_content(content@, newline(platform)),
            Err(message) => r is Err && r->Err_0.kind == ErrorKind::IOFailure
                && r->Err_0.detail@ == message@,
        },
{
    match read {
        Ok(content) => Ok(strip_managed_block(content.as_str(), platform)),
        Err(message) => Err(SyncError { kind: ErrorKind::IOFailure, detail: message }),
    }
}

/// `s` followed by as many spaces as it lacks to `width` characters.
pub open spec fn pad_right(s: Seq<char>, width: nat) -> Seq<char> {
    if s.len() >= width {
        s
    } else {
        s + Seq::new((width - s.len()) as nat, |i: int| ' ')
    }
}

/// The (address, domain) pairs as character sequences.
pub open spec fn pairs(hosts: Seq<(String, String)>) -> Seq<(Seq<char>, Seq<char>)> {
    Seq::new(hosts.len(), |i: int| (hosts[i].0@, hosts[i].1@))
}

/// One host line: the address padded to the column width, then the domain.
pub open spec fn host_line(host: (Seq<char>, Seq<char>)) -> Seq<char> {
    pad_right(host.0, IP_COLUMN_WIDTH as nat) + host.1
}

/// The host lines of `hosts`, in order.
pub open spec fn host_lines(hosts: Seq<(Seq<char>, Seq<char>)>) -> Seq<Seq<char>> {
    Seq::new(hosts.len(), |i: int| host_line(hosts[i]))
}

/// The lines of a managed block: begin marker, one line per host, the time
/// of the fetch, the source of the mapping, end marker.
pub open spec fn block_lines(hosts: Seq<(Seq<char>, Seq<char>)>, timestamp: Seq<char>) -> Seq<
    Seq<char>,
> {
    seq![begin_marker()] + host_lines(hosts) + seq![
        fetch_time_prefix() + timestamp,
        update_url_line(),
        end_marker(),
    ]
}

/// A managed block written with the line ending `nl`.
pub open spec fn managed_block(
    hosts: Seq<(Seq<char>, Seq<char>)>,
    timestamp: Seq<char>,
    nl: Seq<char>,
) -> Seq<char> {
    join_lines(block_lines(hosts, timestamp), nl)
}

/// `foreign` with a final line ending where its last line lacks one.
pub open spec fn closed_text(foreign: Seq<char>, nl: Seq<char>) -> Seq<char> {
    if foreign.len() > 0 && foreign.last() != '\n' {
        foreign + nl
    } else {
        foreign
    }
}

/// The hosts-file content after an install: the foreign content, then the
/// managed block.
pub open spec fn installed_content(
    foreign: Seq<char>,
    hosts: Seq<(Seq<char>, Seq<char>)>,
    timestamp: Seq<char>,
    nl: Seq<char>,
) -> Seq<char> {
    closed_text(foreign, nl) + managed_block(hosts, timestamp, nl)
}

/// Joining `lines` and one more line.
pub proof fn lemma_join_push(lines: Seq<Seq<char>>, line: Seq<char>, nl: Seq<char>)
    ensures
        join_lines(lines.push(line), nl) == join_lines(lines, nl) + line + nl,
{
    assert(lines.push(line).drop_last() == lines);
}

/// Appends one host line, without its line ending, to `out`.
pub fn push_host_line(out: &mut Vec<char>, ip: &str, domain: &str)
    ensures
        final(out)@ == old(out)@ + host_line((ip@, domain@)),
{
    let start: usize = out.len();
    push_text(out, ip);
    let ghost padded = out@;
    let mut used: usize = out.len() - start;
    assert(used == ip@.len());
    while used < IP_COLUMN_WIDTH
        invariant
            used <= IP_COLUMN_WIDTH || used == ip@.len(),
            ip@.len() <= used,
            out@ == old(out)@ + ip@ + Seq::new((used - ip@.len()) as nat, |i: int| ' '),
        decreases IP_COLUMN_WIDTH - used,
    {
        out.push(' ');
        used += 1;
    }
    proof {
        if ip@.len() >= IP_COLUMN_WIDTH {
            assert(ip@ + Seq::new(0, |i: int| ' ') == ip@);
        }
        assert(out@ == old(out)@ + pad_right(ip@, IP_COLUMN_WIDTH as nat));
    }
    push_text(out, domain);
}

/// Appends a managed block, written with the line ending `nl`, to `out`.
pub fn push_block(out: &mut Vec<char>, hosts: &[(String, String)], timestamp: &str, nl: &Vec<char>)
    ensures
        final(out)@ == old(out)@ + managed_block(pairs(hosts@), timestamp@, nl@),
{
    let ghost hs = pairs(hosts@);
    let ghost mut done: Seq<Seq<char>> = seq![begin_marker()];
    push_text(out, "# fetch-github-hosts begin");
    push_all(out, nl);
    proof {
        lemma_join_push(Seq::empty(), begin_marker(), nl@);
        assert(Seq::<Seq<char>>::empty().push(begin_marker()) == done);
        assert(out@ == old(out)@ + join_lines(done, nl@));
    }
    let mut i: usize = 0;
    assert(host_lines(hs).take(0) == Seq::<Seq<char>>::empty());
    while i < hosts.len()
        invariant
            i <= hosts.len(),
            hs == pairs(hosts@),
            done == seq![begin_marker()] + host_lines(hs).take(i as int),
            out@ == old(out)@ + join_lines(done, nl@),
        decreases hosts.len() - i,
    {
        proof {
            lemma_join_push(done, host_line(hs[i as int]), nl@);
            assert(host_lines(hs).take(i + 1) == host_lines(hs).take(i as int).push(
                host_line(hs[i as int]),
            ));
            done = done.push(host_line(hs[i as int]));
        }
        push_host_line(out, hosts[i].0.as_str(), hosts[i].1.as_str());
        push_all(out, nl);
        i += 1;
    }
    assert(host_lines(hs).take(hosts.len() as int) == host_lines(hs));
    proof {
        lemma_join_push(done, fetch_time_prefix() + timestamp@, nl@);
        let d1 = done.push(fetch_time_prefix() + timestamp@);
        lemma_join_push(d1, update_url_line(), nl@);
        let d2 = d1.push(update_url_line());
        lemma_join_push(d2, end_marker(), nl@);
        assert(d2.push(end_marker()) == block_lines(hs, timestamp@));
    }
    push_text(out, "# last fetch time: ");
    push_text(out, timestamp);
    push_all(out, nl);
    push_text(out, "# update url: https://hosts.gitcdn.top/hosts.txt");
    push_all(out, nl);
    push_text(out, "# fetch-github-hosts end");
    push_all(out, nl);
}

/// The content to write to the hosts file: `foreign`, closed by a line
/// ending where it lacks one, then a freshly rendered managed block.
pub fn install_block(
    foreign: &str,
    hosts: &[(String, String)],
    timestamp: &str,
    platform: Platform,
) -> (out: String)
    ensures
        out@ == installed_content(foreign@, pairs(hosts@), timestamp@, newline(platform)),
{
    let nl = chars_of(newline_char(platform));
    let mut out = chars_of(foreign);
    let n = out.len();
    if n > 0 && out[n - 1] != '\n' {
        push_all(&mut out, &nl);
    }
    push_block(&mut out, hosts, timestamp, &nl);
    string_of(&out)
}

} // verus!
