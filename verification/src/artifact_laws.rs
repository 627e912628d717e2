//! What holds of the two artifacts of one server cycle.

use crate::dns::text_artifact;
use crate::hosts::{
    begin_marker, block_lines, end_marker, fetch_time_prefix, host_line, host_lines, pad_right,
    update_url_line, IP_COLUMN_WIDTH,
};
use crate::hosts_laws::{
    lemma_block_shape, lemma_comment_chars, lemma_marker_chars, valid_host, valid_hosts,
};
use crate::http::{body_of, route_of, Published};
use crate::json::json_of_pairs;
use crate::lines::{join_lines, lemma_split_join, line_survives};
use crate::remote::{is_payload_line, parse_line, parsed_hosts, remote_hosts};
use crate::text::{
    is_space, lemma_leading_spaces, lemma_leading_word, lemma_runs, split_tokens, trim,
};
use vstd::prelude::*;

verus! {

/// A host that a host line shows so that it reads back: a valid host
/// whose address is shorter than the address column and does not start a
/// comment.
pub open spec fn servable_host(host: (Seq<char>, Seq<char>)) -> bool {
    valid_host(host) && host.0.len() < IP_COLUMN_WIDTH && host.0[0] != '#'
}

/// Every host of `hosts` is servable.
pub open spec fn servable_hosts(hosts: Seq<(Seq<char>, Seq<char>)>) -> bool {
    forall|i: int| 0 <= i < hosts.len() ==> servable_host(#[trigger] hosts[i])
}

/// A line that starts with `#` carries no host.
proof fn lemma_comment_line(line: Seq<char>)
    requires
        line.len() > 0,
        line[0] == '#',
    ensures
        !is_payload_line(line),
{
    lemma_leading_spaces(line, 0);
    lemma_runs(line);
    let t = trim(line);
    assert(t.len() > 0);
    assert(t[0] == line[0]);
}

/// The host line of a servable host carries that host.
proof fn lemma_host_line_reads_back(host: (Seq<char>, Seq<char>))
    requires
        servable_host(host),
    ensures
        is_payload_line(host_line(host)),
        parse_line(host_line(host)) == Some(host),
{
    let ip = host.0;
    let domain = host.1;
    let line = host_line(host);
    let width = IP_COLUMN_WIDTH as int;
    let padded = pad_right(ip, IP_COLUMN_WIDTH as nat);
    assert(padded.len() == width);
    assert(line.len() == width + domain.len());
    assert forall|j: int| 0 <= j < ip.len() implies !is_space(#[trigger] line[j]) by {
        assert(line[j] == padded[j] && padded[j] == ip[j]);
    }
    assert(line[ip.len() as int] == padded[ip.len() as int]);
    assert(padded[ip.len() as int] == ' ');
    assert(is_space(' '));
    lemma_leading_spaces(line, 0);
    lemma_runs(line);
    assert(trim(line).len() > 0);
    assert(trim(line)[0] == line[0]);
    assert(line[0] == ip[0]);
    assert(line.skip(0) == line);
    lemma_leading_word(line, ip.len() as int);
    assert(line.take(ip.len() as int) == ip);
    let rest = line.skip(ip.len() as int);
    let gap = width - ip.len();
    assert forall|j: int| 0 <= j < gap implies is_space(#[trigger] rest[j]) by {
        assert(rest[j] == padded[ip.len() + j]);
    }
    assert(rest[gap] == domain[0]);
    lemma_leading_spaces(rest, gap);
    let word = rest.skip(gap);
    assert(word == domain);
    lemma_leading_word(word, domain.len() as int);
    assert(word.take(domain.len() as int) == domain);
    let tail = word.skip(domain.len() as int);
    assert(tail.len() == 0);
    assert(split_tokens(tail) == Seq::<Seq<char>>::empty());
    assert(split_tokens(rest) == seq![domain] + split_tokens(tail));
    assert(split_tokens(line) == seq![ip] + split_tokens(rest));
    assert(split_tokens(line) == seq![ip, domain]);
}

/// Reading one more line that carries no host changes nothing.
proof fn lemma_parse_skips(lines: Seq<Seq<char>>, line: Seq<char>)
    requires
        !is_payload_line(line),
    ensures
        parsed_hosts(lines.push(line)) == parsed_hosts(lines),
{
    assert(lines.push(line).drop_last() == lines);
}

/// The text artifact reads back: the remote payload parser finds in it the
/// hosts it was rendered from, in their order.
pub proof fn lemma_text_artifact_reads_back(hosts: Seq<(Seq<char>, Seq<char>)>, now: Seq<char>)
    requires
        servable_hosts(hosts),
        line_survives(now, seq!['\n']),
    ensures
        remote_hosts(text_artifact(hosts, now)) == Ok::<Seq<(Seq<char>, Seq<char>)>, Seq<char>>(
            hosts,
        ),
{
    let nl = seq!['\n'];
    let block = block_lines(hosts, now);
    let n = hosts.len() as int;
    let blank = Seq::<char>::empty();
    let all = block.push(blank);
    assert(valid_hosts(hosts)) by {
        assert forall|i: int| 0 <= i < hosts.len() implies valid_host(#[trigger] hosts[i]) by {
            assert(servable_host(hosts[i]));
        }
    }
    lemma_block_shape(hosts, now, nl);
    lemma_marker_chars();
    lemma_comment_chars();
    assert(all.drop_last() == block);
    assert(join_lines(all, nl) == join_lines(block, nl) + blank + nl);
    assert(join_lines(block, nl) + blank + nl == text_artifact(hosts, now));
    assert forall|i: int| 0 <= i < all.len() implies line_survives(#[trigger] all[i], nl) by {
        if i < block.len() {
            assert(all[i] == block[i]);
        }
    }
    lemma_split_join(all, nl);
    let head = seq![begin_marker()];
    lemma_comment_line(begin_marker());
    assert(parsed_hosts(Seq::<Seq<char>>::empty()) == Ok::<Seq<(Seq<char>, Seq<char>)>, Seq<char>>(
        Seq::empty(),
    ));
    lemma_parse_skips(Seq::empty(), begin_marker());
    assert(Seq::<Seq<char>>::empty().push(begin_marker()) == head);
    lemma_hosts_read_back(hosts, n);
    let rows = head + host_lines(hosts);
    assert(host_lines(hosts).take(n) == host_lines(hosts));
    assert(hosts.take(n) == hosts);
    let stamp = fetch_time_prefix() + now;
    assert(stamp[0] == '#');
    lemma_comment_line(stamp);
    lemma_parse_skips(rows, stamp);
    lemma_comment_line(update_url_line());
    lemma_parse_skips(rows.push(stamp), update_url_line());
    lemma_comment_line(end_marker());
    lemma_parse_skips(rows.push(stamp).push(update_url_line()), end_marker());
    assert(rows.push(stamp).push(update_url_line()).push(end_marker()) == block);
    assert(!is_payload_line(blank)) by {
        lemma_runs(blank);
    }
    lemma_parse_skips(block, blank);
}

/// The first `k` host lines behind the begin marker read back as the first
/// `k` hosts.
proof fn lemma_hosts_read_back(hosts: Seq<(Seq<char>, Seq<char>)>, k: int)
    requires
        servable_hosts(hosts),
        0 <= k <= hosts.len(),
        parsed_hosts(seq![begin_marker()]) == Ok::<Seq<(Seq<char>, Seq<char>)>, Seq<char>>(
            Seq::empty(),
        ),
    ensures
        parsed_hosts(seq![begin_marker()] + host_lines(hosts).take(k)) == Ok::<
            Seq<(Seq<char>, Seq<char>)>,
            Seq<char>,
        >(hosts.take(k)),
    decreases k,
{
    let head = seq![begin_marker()];
    if k == 0 {
        assert(head + host_lines(hosts).take(0) == head);
        assert(hosts.take(0) == Seq::<(Seq<char>, Seq<char>)>::empty());
    } else {
        lemma_hosts_read_back(hosts, k - 1);
        let before = head + host_lines(hosts).take(k - 1);
        let now = head + host_lines(hosts).take(k);
        assert(now.drop_last() == before);
        assert(now.last() == host_line(hosts[k - 1]));
        assert(servable_host(hosts[k - 1]));
        lemma_host_line_reads_back(hosts[k - 1]);
        assert(hosts.take(k - 1).push(hosts[k - 1]) == hosts.take(k));
    }
}

/// The two artifacts of one server cycle agree. Where the endpoint
/// publishes the text and the JSON that one cycle rendered from `hosts`,
/// the answer to `/hosts.txt` is that text, which reads back as `hosts`,
/// and the answer to `/hosts.json` is the JSON of those same hosts: both
/// show the same domains in the same order.
pub proof fn lemma_artifacts_agree(
    hosts: Seq<(Seq<char>, Seq<char>)>,
    now: Seq<char>,
    published: Published,
    version: Seq<char>,
    asked: Seq<char>,
)
    requires
        servable_hosts(hosts),
        line_survives(now, seq!['\n']),
        published.text is Some,
        published.text->Some_0@ == text_artifact(hosts, now),
        published.json is Some,
        json_of_pairs(hosts) == Ok::<Seq<char>, Seq<char>>(published.json->Some_0@),
    ensures
        remote_hosts(body_of(route_of("/hosts.txt"@), published, version, asked)) == Ok::<
            Seq<(Seq<char>, Seq<char>)>,
            Seq<char>,
        >(hosts),
        json_of_pairs(hosts) == Ok::<Seq<char>, Seq<char>>(
            body_of(route_of("/hosts.json"@), published, version, asked),
        ),
{
    lemma_text_artifact_reads_back(hosts, now);
    reveal_strlit("/hosts.txt");
    reveal_strlit("/hosts.json");
    assert("/hosts.txt"@.len() != "/hosts.json"@.len());
}

} // verus!
