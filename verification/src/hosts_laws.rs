//! What holds of reading and installing the managed block, over all
//! hosts-file contents.

use crate::hosts::{
    begin_marker, block_lines, closed_text, end_marker, fetch_time_prefix, first_begin, first_end,
    foreign_content, foreign_lines, host_line, installed_content, is_begin_line, is_end_line,
    lemma_first_begin, lemma_first_end, pad_right, update_url_line, IP_COLUMN_WIDTH,
};
use crate::lines::{
    is_line_ending, join_lines, lemma_join_concat, lemma_lines_hold_no_line_feed,
    lemma_split_join, line_survives, split_lines,
};
use crate::text::{
    is_space, lemma_leading_spaces, lemma_runs, lemma_trailing_spaces, trailing_spaces, trim,
};
use vstd::prelude::*;

verus! {

/// A non-empty text without whitespace.
pub open spec fn is_word(t: Seq<char>) -> bool {
    t.len() > 0 && forall|j: int| 0 <= j < t.len() ==> !is_space(#[trigger] t[j])
}

/// A host whose address and domain are both words.
pub open spec fn valid_host(host: (Seq<char>, Seq<char>)) -> bool {
    is_word(host.0) && is_word(host.1)
}

/// Every host of `hosts` is valid.
pub open spec fn valid_hosts(hosts: Seq<(Seq<char>, Seq<char>)>) -> bool {
    forall|i: int| 0 <= i < hosts.len() ==> valid_host(#[trigger] hosts[i])
}

/// No two lines of `lines` are begin markers.
pub open spec fn at_most_one_block(lines: Seq<Seq<char>>) -> bool {
    forall|i: int, j: int|
        #![trigger lines[i], lines[j]]
        0 <= i < lines.len() && 0 <= j < lines.len() && is_begin_line(lines[i]) && is_begin_line(
            lines[j],
        ) ==> i == j
}

/// Exactly one line of `lines` is a begin marker.
pub open spec fn exactly_one_block(lines: Seq<Seq<char>>) -> bool {
    at_most_one_block(lines) && exists|i: int| 0 <= i < lines.len() && is_begin_line(
        #[trigger] lines[i],
    )
}

/// Whether every foreign line of `content` comes back from a file written
/// with the line ending `nl`.
pub open spec fn foreign_survives(content: Seq<char>, nl: Seq<char>) -> bool {
    forall|i: int|
        0 <= i < foreign_lines(split_lines(content)).len() ==> line_survives(
            #[trigger] foreign_lines(split_lines(content))[i],
            nl,
        )
}

/// The characters of the two markers.
pub proof fn lemma_marker_chars()
    ensures
        begin_marker() == seq![
            '#', ' ', 'f', 'e', 't', 'c', 'h', '-', 'g', 'i', 't', 'h', 'u', 'b', '-', 'h', 'o',
            's', 't', 's', ' ', 'b', 'e', 'g', 'i', 'n',
        ],
        end_marker() == seq![
            '#', ' ', 'f', 'e', 't', 'c', 'h', '-', 'g', 'i', 't', 'h', 'u', 'b', '-', 'h', 'o',
            's', 't', 's', ' ', 'e', 'n', 'd',
        ],
{
    reveal_strlit("# fetch-github-hosts begin");
    reveal_strlit("# fetch-github-hosts end");
    assert(begin_marker() =~= seq![
        '#', ' ', 'f', 'e', 't', 'c', 'h', '-', 'g', 'i', 't', 'h', 'u', 'b', '-', 'h', 'o', 's',
        't', 's', ' ', 'b', 'e', 'g', 'i', 'n',
    ]);
    assert(end_marker() =~= seq![
        '#', ' ', 'f', 'e', 't', 'c', 'h', '-', 'g', 'i', 't', 'h', 'u', 'b', '-', 'h', 'o', 's',
        't', 's', ' ', 'e', 'n', 'd',
    ]);
}

/// The characters of the two comment lines of a block.
pub proof fn lemma_comment_chars()
    ensures
        fetch_time_prefix() == seq![
            '#', ' ', 'l', 'a', 's', 't', ' ', 'f', 'e', 't', 'c', 'h', ' ', 't', 'i', 'm', 'e',
            ':', ' ',
        ],
        update_url_line() == seq![
            '#', ' ', 'u', 'p', 'd', 'a', 't', 'e', ' ', 'u', 'r', 'l', ':', ' ', 'h', 't', 't',
            'p', 's', ':', '/', '/', 'h', 'o', 's', 't', 's', '.', 'g', 'i', 't', 'c', 'd', 'n',
            '.', 't', 'o', 'p', '/', 'h', 'o', 's', 't', 's', '.', 't', 'x', 't',
        ],
{
    reveal_strlit("# last fetch time: ");
    reveal_strlit("# update url: https://hosts.gitcdn.top/hosts.txt");
    assert(fetch_time_prefix() =~= seq![
        '#', ' ', 'l', 'a', 's', 't', ' ', 'f', 'e', 't', 'c', 'h', ' ', 't', 'i', 'm', 'e', ':',
        ' ',
    ]);
    assert(update_url_line() =~= seq![
        '#', ' ', 'u', 'p', 'd', 'a', 't', 'e', ' ', 'u', 'r', 'l', ':', ' ', 'h', 't', 't', 'p',
        's', ':', '/', '/', 'h', 'o', 's', 't', 's', '.', 'g', 'i', 't', 'c', 'd', 'n', '.', 't',
        'o', 'p', '/', 'h', 'o', 's', 't', 's', '.', 't', 'x', 't',
    ]);
}

/// Trimming leaves a text alone that neither starts nor ends with
/// whitespace.
pub proof fn lemma_trim_identity(s: Seq<char>)
    requires
        s.len() > 0,
        !is_space(s[0]),
        !is_space(s.last()),
    ensures
        trim(s) == s,
{
    lemma_leading_spaces(s, 0);
    lemma_trailing_spaces(s, 0);
    assert(s.subrange(0, s.len() as int) == s);
}

/// A line whose first character is no whitespace and whose second and third
/// are not a space and an `f` is neither marker.
proof fn lemma_not_a_marker(line: Seq<char>)
    requires
        line.len() >= 3,
        !is_space(line[0]),
        line[1] != ' ' || line[2] != 'f',
    ensures
        !is_begin_line(line),
        !is_end_line(line),
{
    lemma_marker_chars();
    lemma_leading_spaces(line, 0);
    lemma_runs(line);
    let t = trim(line);
    let kept = line.len() - trailing_spaces(line);
    assert(t == line.subrange(0, kept));
    assert(begin_marker().len() == 26 && end_marker().len() == 24);
    assert(begin_marker()[1] == ' ' && begin_marker()[2] == 'f');
    assert(end_marker()[1] == ' ' && end_marker()[2] == 'f');
    if is_begin_line(line) {
        assert(kept == 26);
        assert(t[1] == line[1] && t[2] == line[2]);
    }
    if is_end_line(line) {
        assert(kept >= 24);
        let p = t.subrange(0, 24);
        assert(p == end_marker());
        assert(p[1] == t[1] && p[2] == t[2]);
        assert(t[1] == line[1] && t[2] == line[2]);
    }
}

/// The shape of a host line of a valid host.
proof fn lemma_host_line_shape(host: (Seq<char>, Seq<char>), nl: Seq<char>)
    requires
        valid_host(host),
    ensures
        line_survives(host_line(host), nl),
        !is_begin_line(host_line(host)),
        !is_end_line(host_line(host)),
{
    let ip = host.0;
    let padded = pad_right(ip, IP_COLUMN_WIDTH as nat);
    let line = host_line(host);
    assert(padded.len() >= 28 && padded.len() >= ip.len());
    assert forall|j: int| 0 <= j < padded.len() implies #[trigger] padded[j] != '\n' by {
        if j < ip.len() {
            assert(padded[j] == ip[j]);
            assert(!is_space(ip[j]));
        } else {
            assert(padded[j] == ' ');
        }
    }
    assert forall|j: int| 0 <= j < line.len() implies #[trigger] line[j] != '\n' by {
        if j < padded.len() {
            assert(line[j] == padded[j]);
        } else {
            assert(line[j] == host.1[j - padded.len()]);
            assert(!is_space(host.1[j - padded.len()]));
        }
    }
    assert(line.last() == host.1.last());
    assert(!is_space(host.1[host.1.len() - 1]));
    assert(line[0] == ip[0]);
    assert(line[1] == padded[1] && line[2] == padded[2]);
    if ip.len() >= 2 {
        assert(padded[1] == ip[1]);
        assert(!is_space(ip[1]));
    } else {
        assert(padded[2] == ' ');
    }
    lemma_not_a_marker(line);
}

/// The shape of a managed block: every line comes back from a split, the
/// first line alone is a begin marker, the last line alone an end marker.
pub proof fn lemma_block_shape(
    hosts: Seq<(Seq<char>, Seq<char>)>,
    timestamp: Seq<char>,
    nl: Seq<char>,
)
    requires
        valid_hosts(hosts),
        line_survives(timestamp, nl),
    ensures
        block_lines(hosts, timestamp).len() == hosts.len() + 4,
        forall|i: int|
            0 <= i < hosts.len() + 4 ==> line_survives(
                #[trigger] block_lines(hosts, timestamp)[i],
                nl,
            ),
        is_begin_line(block_lines(hosts, timestamp)[0]),
        forall|i: int|
            1 <= i < hosts.len() + 4 ==> !is_begin_line(
                #[trigger] block_lines(hosts, timestamp)[i],
            ),
        forall|i: int|
            0 <= i < hosts.len() + 3 ==> !is_end_line(#[trigger] block_lines(hosts, timestamp)[i]),
        is_end_line(block_lines(hosts, timestamp)[hosts.len() as int + 3]),
{
    lemma_marker_chars();
    lemma_comment_chars();
    let b = block_lines(hosts, timestamp);
    let n = hosts.len() as int;
    let stamp = fetch_time_prefix() + timestamp;
    assert(b[0] == begin_marker());
    assert(b[n + 1] == stamp);
    assert(b[n + 2] == update_url_line());
    assert(b[n + 3] == end_marker());
    lemma_trim_identity(begin_marker());
    lemma_trim_identity(end_marker());
    assert(end_marker().subrange(0, end_marker().len() as int) == end_marker());
    assert(!is_end_line(begin_marker())) by {
        let p = begin_marker().subrange(0, end_marker().len() as int);
        assert(p[21] == 'b');
        assert(end_marker()[21] == 'e');
    }
    assert(!is_begin_line(end_marker()));
    assert(stamp[0] == '#' && stamp[2] == 'l' && stamp.len() >= 3);
    lemma_not_a_marker(stamp);
    lemma_not_a_marker(update_url_line());
    assert forall|j: int| 0 <= j < stamp.len() implies #[trigger] stamp[j] != '\n' by {
        if j >= fetch_time_prefix().len() {
            assert(stamp[j] == timestamp[j - fetch_time_prefix().len()]);
        }
    }
    assert(line_survives(stamp, nl)) by {
        if timestamp.len() > 0 {
            assert(stamp.last() == timestamp.last());
        } else {
            assert(stamp.last() == ' ');
        }
    }
    assert(line_survives(begin_marker(), nl));
    assert(line_survives(end_marker(), nl));
    assert(line_survives(update_url_line(), nl));
    assert forall|i: int| 1 <= i <= n implies line_survives(#[trigger] b[i], nl) && !is_begin_line(
        b[i],
    ) && !is_end_line(b[i]) by {
        assert(b[i] == host_line(hosts[i - 1]));
        assert(valid_host(hosts[i - 1]));
        lemma_host_line_shape(hosts[i - 1], nl);
    }
}

/// What [`join_lines`] writes is empty or ends with a line feed.
proof fn lemma_join_is_closed(lines: Seq<Seq<char>>, nl: Seq<char>)
    requires
        is_line_ending(nl),
    ensures
        closed_text(join_lines(lines, nl), nl) == join_lines(lines, nl),
{
    if lines.len() > 0 {
        let t = join_lines(lines, nl);
        assert(t.last() == nl.last());
    }
}

/// Where at most one line of `lines` is a begin marker, none of the foreign
/// lines is.
proof fn lemma_foreign_holds_no_begin(lines: Seq<Seq<char>>)
    requires
        at_most_one_block(lines),
    ensures
        forall|k: int|
            0 <= k < foreign_lines(lines).len() ==> !is_begin_line(
                #[trigger] foreign_lines(lines)[k],
            ),
{
    let b = first_begin(lines);
    lemma_first_begin_found(lines);
    let f = foreign_lines(lines);
    if b < lines.len() {
        let inside = lines.skip(b + 1);
        let e = first_end(inside);
        assert forall|k: int| 0 <= k < f.len() implies !is_begin_line(#[trigger] f[k]) by {
            if k < b {
                assert(f[k] == lines[k]);
            } else {
                assert(0 <= e < inside.len());
                let at = b + 1 + e + 1 + (k - b);
                assert(f[k] == inside.skip(e + 1)[k - b]);
                assert(f[k] == lines[at]);
                if is_begin_line(lines[at]) {
                    assert(is_begin_line(lines[b]));
                    assert(at == b);
                }
            }
        }
    }
}

/// [`first_begin`] lies inside `lines`, no begin marker stands before it,
/// and one stands at it unless it is `lines.len()`.
pub proof fn lemma_first_begin_found(lines: Seq<Seq<char>>)
    ensures
        0 <= first_begin(lines) <= lines.len(),
        forall|j: int| 0 <= j < first_begin(lines) ==> !is_begin_line(#[trigger] lines[j]),
        first_begin(lines) < lines.len() ==> is_begin_line(lines[first_begin(lines)]),
    decreases lines.len(),
{
    if lines.len() > 0 && !is_begin_line(lines[0]) {
        let t = lines.drop_first();
        lemma_first_begin_found(t);
        assert forall|j: int| 0 <= j < first_begin(lines) implies !is_begin_line(
            #[trigger] lines[j],
        ) by {
            if j > 0 {
                assert(lines[j] == t[j - 1]);
            }
        }
        if first_begin(lines) < lines.len() {
            assert(lines[first_begin(lines)] == t[first_begin(t)]);
        }
    }
}

/// The lines of the file that an install writes behind foreign lines
/// without a begin marker, and what reading that file gives back.
proof fn lemma_installed_lines(
    foreign: Seq<Seq<char>>,
    hosts: Seq<(Seq<char>, Seq<char>)>,
    timestamp: Seq<char>,
    nl: Seq<char>,
)
    requires
        is_line_ending(nl),
        valid_hosts(hosts),
        line_survives(timestamp, nl),
        forall|i: int| 0 <= i < foreign.len() ==> line_survives(#[trigger] foreign[i], nl),
        forall|i: int| 0 <= i < foreign.len() ==> !is_begin_line(#[trigger] foreign[i]),
    ensures
        split_lines(installed_content(join_lines(foreign, nl), hosts, timestamp, nl)) == foreign
            + block_lines(hosts, timestamp),
        foreign_lines(foreign + block_lines(hosts, timestamp)) == foreign,
        exactly_one_block(foreign + block_lines(hosts, timestamp)),
{
    let block = block_lines(hosts, timestamp);
    let all = foreign + block;
    let n = hosts.len() as int;
    let f = foreign.len() as int;
    lemma_block_shape(hosts, timestamp, nl);
    lemma_join_is_closed(foreign, nl);
    lemma_join_concat(foreign, block, nl);
    assert forall|i: int| 0 <= i < all.len() implies line_survives(#[trigger] all[i], nl) by {
        if i < f {
            assert(all[i] == foreign[i]);
        } else {
            assert(all[i] == block[i - f]);
        }
    }
    lemma_split_join(all, nl);
    assert forall|j: int| 0 <= j < f implies !is_begin_line(#[trigger] all[j]) by {
        assert(all[j] == foreign[j]);
    }
    assert(all[f] == block[0]);
    lemma_first_begin(all, f);
    let inside = all.skip(f + 1);
    assert(inside.len() == n + 3);
    assert forall|j: int| 0 <= j < n + 2 implies !is_end_line(#[trigger] inside[j]) by {
        assert(inside[j] == block[j + 1]);
    }
    assert(inside[n + 2] == block[n + 3]);
    lemma_first_end(inside, n + 2);
    assert(inside.skip(n + 3) == Seq::<Seq<char>>::empty());
    assert(all.take(f) == foreign);
    assert(foreign + Seq::<Seq<char>>::empty() == foreign);
    assert forall|i: int, j: int|
        #![trigger all[i], all[j]]
        0 <= i < all.len() && 0 <= j < all.len() && is_begin_line(all[i]) && is_begin_line(
            all[j],
        ) implies i == j by {
        if i > f {
            assert(all[i] == block[i - f]);
        }
        if j > f {
            assert(all[j] == block[j - f]);
        }
    }
}

/// Reading a hosts file with at most one managed block and installing an
/// empty host list reproduces the foreign content: a second read returns
/// what the first returned.
pub proof fn lemma_empty_install_round_trip(
    content: Seq<char>,
    timestamp: Seq<char>,
    nl: Seq<char>,
)
    requires
        is_line_ending(nl),
        at_most_one_block(split_lines(content)),
        foreign_survives(content, nl),
        line_survives(timestamp, nl),
    ensures
        foreign_content(
            installed_content(foreign_content(content, nl), Seq::empty(), timestamp, nl),
            nl,
        ) == foreign_content(content, nl),
{
    lemma_install_keeps_foreign(content, Seq::empty(), timestamp, nl);
}

/// Reading a hosts file with at most one managed block and installing any
/// list of valid hosts leaves the foreign content as it was: a second read
/// returns what the first returned.
pub proof fn lemma_install_keeps_foreign(
    content: Seq<char>,
    hosts: Seq<(Seq<char>, Seq<char>)>,
    timestamp: Seq<char>,
    nl: Seq<char>,
)
    requires
        is_line_ending(nl),
        at_most_one_block(split_lines(content)),
        foreign_survives(content, nl),
        valid_hosts(hosts),
        line_survives(timestamp, nl),
    ensures
        foreign_content(
            installed_content(foreign_content(content, nl), hosts, timestamp, nl),
            nl,
        ) == foreign_content(content, nl),
{
    let foreign = foreign_lines(split_lines(content));
    lemma_foreign_holds_no_begin(split_lines(content));
    lemma_installed_lines(foreign, hosts, timestamp, nl);
}

/// A managed block that is never closed reaches to the end of the file:
/// only the lines before its begin marker are foreign.
pub proof fn lemma_unclosed_block_is_cut(content: Seq<char>, nl: Seq<char>)
    requires
        0 <= first_begin(split_lines(content)) < split_lines(content).len(),
        forall|j: int|
            first_begin(split_lines(content)) < j < split_lines(content).len() ==> !is_end_line(
                #[trigger] split_lines(content)[j],
            ),
    ensures
        foreign_lines(split_lines(content)) == split_lines(content).take(
            first_begin(split_lines(content)),
        ),
        foreign_content(content, nl) == join_lines(
            split_lines(content).take(first_begin(split_lines(content))),
            nl,
        ),
{
    let lines = split_lines(content);
    let b = first_begin(lines);
    let inside = lines.skip(b + 1);
    assert forall|j: int| 0 <= j < inside.len() implies !is_end_line(#[trigger] inside[j]) by {
        assert(inside[j] == lines[b + 1 + j]);
    }
    lemma_first_end(inside, inside.len() as int);
}

/// Installing is idempotent. Starting from a hosts file with at most one
/// managed block, a cycle of read and install writes a file with exactly
/// one managed block, and a second cycle with the same hosts and time
/// writes that same file again.
pub proof fn lemma_install_is_idempotent(
    content: Seq<char>,
    hosts: Seq<(Seq<char>, Seq<char>)>,
    timestamp: Seq<char>,
    nl: Seq<char>,
)
    requires
        is_line_ending(nl),
        at_most_one_block(split_lines(content)),
        foreign_survives(content, nl),
        valid_hosts(hosts),
        line_survives(timestamp, nl),
    ensures
        ({
            let once = installed_content(foreign_content(content, nl), hosts, timestamp, nl);
            let twice = installed_content(foreign_content(once, nl), hosts, timestamp, nl);
            &&& exactly_one_block(split_lines(once))
            &&& twice == once
        }),
{
    let foreign = foreign_lines(split_lines(content));
    lemma_foreign_holds_no_begin(split_lines(content));
    lemma_installed_lines(foreign, hosts, timestamp, nl);
}

/// With the line ending `"\r\n"` every line that a split yields comes back,
/// so every content meets [`foreign_survives`].
pub proof fn lemma_foreign_survives_crlf(content: Seq<char>)
    ensures
        foreign_survives(content, seq!['\r', '\n']),
{
    let lines = split_lines(content);
    let nl = seq!['\r', '\n'];
    lemma_lines_hold_no_line_feed(content);
    lemma_first_begin_found(lines);
    let b = first_begin(lines);
    let f = foreign_lines(lines);
    assert(nl != seq!['\n']) by {
        assert(nl.len() == 2);
        assert(seq!['\n'].len() == 1);
    }
    assert forall|i: int| 0 <= i < f.len() implies line_survives(#[trigger] f[i], nl) by {
        if b < lines.len() {
            let inside = lines.skip(b + 1);
            let e = first_end(inside);
            if i < b {
                assert(f[i] == lines[i]);
            } else {
                assert(f[i] == inside.skip(e + 1)[i - b]);
                assert(f[i] == lines[b + 1 + e + 1 + (i - b)]);
            }
        } else {
            assert(f[i] == lines[i]);
        }
    }
}

} // verus!
