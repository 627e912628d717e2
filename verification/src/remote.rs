//! The client role's cycle: from the remote payload to the content that is
//! written to the hosts file.

use crate::clock::{is_one_line, local_timestamp};
use crate::error::{ErrorKind, SyncError};
use crate::hosts::{install_block, installed_content, pairs};
use crate::lines::{lines_of, split_lines};
use crate::platform::{newline, Platform};
use crate::text::{
    chars_of, decimal, push_decimal, rows, split_tokens, string_of, tokens_of, trim, trim_bounds,
};
use vstd::prelude::*;

verus! {

/// The answer to the HTTP GET: the status code and the body, or the
/// message with which reading the body failed.
#[derive(Debug, PartialEq, Eq)]
pub struct HttpReply {
    pub status: u16,
    pub body: Result<String, String>,
}

/// Whether `status` is a success status, 200 to 299.
pub open spec fn is_success(status: u16) -> bool {
    200 <= status <= 299
}

/// The class and detail of a failure, or the value of a success.
pub open spec fn outcome<T>(r: Result<T, SyncError>) -> Result<T, (ErrorKind, Seq<char>)> {
    match r {
        Ok(v) => Ok(v),
        Err(e) => Err((e.kind, e.detail@)),
    }
}

/// What a fetch yields: the body of a successful answer, or the failure.
/// A transport error and a body that cannot be read are network failures
/// that carry the transport's message; a status outside 200..=299 is a
/// status failure that carries the status code in decimal.
pub open spec fn fetched_body(fetched: Result<HttpReply, String>) -> Result<
    Seq<char>,
    (ErrorKind, Seq<char>),
> {
    match fetched {
        Err(message) => Err((ErrorKind::NetworkFailure, message@)),
        Ok(reply) => if !is_success(reply.status) {
            Err((ErrorKind::HttpStatusFailure, decimal(reply.status as nat)))
        } else {
            match reply.body {
                Ok(text) => Ok(text@),
                Err(message) => Err((ErrorKind::NetworkFailure, message@)),
            }
        },
    }
}

/// Whether `line` carries a host: it is neither blank nor a comment.
pub open spec fn is_payload_line(line: Seq<char>) -> bool {
    trim(line).len() > 0 && trim(line)[0] != '#'
}

/// The host that a payload line names: its two words.
pub open spec fn parse_line(line: Seq<char>) -> Option<(Seq<char>, Seq<char>)> {
    let words = split_tokens(line);
    if words.len() == 2 {
        Some((words[0], words[1]))
    } else {
        None
    }
}

/// The hosts of the payload lines among `lines`, in order, or the first
/// payload line that does not consist of two words.
pub open spec fn parsed_hosts(lines: Seq<Seq<char>>) -> Result<
    Seq<(Seq<char>, Seq<char>)>,
    Seq<char>,
>
    decreases lines.len(),
{
    if lines.len() == 0 {
        Ok(Seq::empty())
    } else {
        match parsed_hosts(lines.drop_last()) {
            Err(line) => Err(line),
            Ok(before) => if !is_payload_line(lines.last()) {
                Ok(before)
            } else {
                match parse_line(lines.last()) {
                    Some(host) => Ok(before.push(host)),
                    None => Err(lines.last()),
                }
            },
        }
    }
}

/// The hosts that a remote payload names, or its first malformed line.
pub open spec fn remote_hosts(body: Seq<char>) -> Result<Seq<(Seq<char>, Seq<char>)>, Seq<char>> {
    parsed_hosts(split_lines(body))
}

/// A failure among the lines read so far is the failure of the whole.
pub proof fn lemma_parse_failure_stays(lines: Seq<Seq<char>>, k: int)
    requires
        0 <= k <= lines.len(),
        parsed_hosts(lines.take(k)) is Err,
    ensures
        parsed_hosts(lines) == parsed_hosts(lines.take(k)),
    decreases lines.len() - k,
{
    if k < lines.len() {
        let next = lines.take(k + 1);
        assert(next.drop_last() == lines.take(k));
        lemma_parse_failure_stays(lines, k + 1);
    } else {
        assert(lines.take(k) == lines);
    }
}

/// The body of a successful fetch, or its failure.
pub fn check_fetch(fetched: Result<HttpReply, String>) -> (r: Result<String, SyncError>)
    ensures
        match r {
            Ok(body) => fetched_body(fetched) == Ok::<Seq<char>, (ErrorKind, Seq<char>)>(body@),
            Err(e) => fetched_body(fetched) == Err::<Seq<char>, (ErrorKind, Seq<char>)>(
                (e.kind, e.detail@),
            ),
        },
{
    match fetched {
        Err(message) => Err(SyncError { kind: ErrorKind::NetworkFailure, detail: message }),
        Ok(reply) => {
            if reply.status < 200 || reply.status > 299 {
                let mut code: Vec<char> = Vec::new();
                push_decimal(&mut code, reply.status as u64);
                Err(SyncError { kind: ErrorKind::HttpStatusFailure, detail: string_of(&code) })
            } else {
                match reply.body {
                    Ok(text) => Ok(text),
                    Err(message) => Err(
                        SyncError { kind: ErrorKind::NetworkFailure, detail: message },
                    ),
                }
            }
        },
    }
}

/// The hosts that a remote payload names, one `address domain` pair per
/// line that is neither blank nor a comment, in the payload's order. A
/// payload line that does not consist of two words is a parse failure that
/// carries that line.
pub fn parse_remote_hosts(body: &str) -> (r: Result<Vec<(String, String)>, SyncError>)
    ensures
        match r {
            Ok(hosts) => remote_hosts(body@) == Ok::<Seq<(Seq<char>, Seq<char>)>, Seq<char>>(
                pairs(hosts@),
            ),
            Err(e) => e.kind == ErrorKind::ParseFailure && remote_hosts(body@) == Err::<
                Seq<(Seq<char>, Seq<char>)>,
                Seq<char>,
            >(e.detail@),
        },
{
    let text = chars_of(body);
    let lines = lines_of(&text);
    let ghost all = rows(lines@);
    let mut hosts: Vec<(String, String)> = Vec::new();
    let mut i: usize = 0;
    assert(all.take(0) == Seq::<Seq<char>>::empty());
    assert(pairs(hosts@) == Seq::<(Seq<char>, Seq<char>)>::empty());
    while i < lines.len()
        invariant
            i <= lines.len(),
            all == rows(lines@),
            all == split_lines(body@),
            parsed_hosts(all.take(i as int)) == Ok::<Seq<(Seq<char>, Seq<char>)>, Seq<char>>(
                pairs(hosts@),
            ),
        decreases lines.len() - i,
    {
        let ghost next = all.take(i + 1);
        assert(next.drop_last() == all.take(i as int));
        assert(next.last() == lines[i as int]@);
        let line = &lines[i];
        let (a, b) = trim_bounds(line);
        if a < b && line[a] != '#' {
            assert(trim(line@)[0] == line@[a as int]);
            let words = tokens_of(line);
            if words.len() != 2 {
                proof {
                    lemma_parse_failure_stays(all, i + 1);
                }
                return Err(SyncError { kind: ErrorKind::ParseFailure, detail: string_of(line) });
            }
            assert(rows(words@)[0] == words[0]@ && rows(words@)[1] == words[1]@);
            let ip = string_of(&words[0]);
            let domain = string_of(&words[1]);
            assert(pairs(hosts@.push((ip, domain))) == pairs(hosts@).push((ip@, domain@)));
            hosts.push((ip, domain));
        } else {
            proof {
                if a < b {
                    assert(trim(line@)[0] == line@[a as int]);
                }
            }
        }
        i += 1;
    }
    assert(all.take(lines.len() as int) == all);
    Ok(hosts)
}

/// What a client cycle writes, given the time: the foreign content
/// followed by a managed block with the hosts of the payload.
pub open spec fn merged_content(
    foreign: Seq<char>,
    body: Seq<char>,
    now: Seq<char>,
    nl: Seq<char>,
) -> Result<Seq<char>, (ErrorKind, Seq<char>)> {
    match remote_hosts(body) {
        Ok(hosts) => Ok(installed_content(foreign, hosts, now, nl)),
        Err(line) => Err((ErrorKind::ParseFailure, line)),
    }
}

/// The content to write to the hosts file for a remote payload fetched at
/// the time `now`, or the parse failure of the payload.
pub fn merge_remote_hosts(foreign: &str, body: &str, now: &str, platform: Platform) -> (r: Result<
    String,
    SyncError,
>)
    ensures
        match r {
            Ok(content) => merged_content(foreign@, body@, now@, newline(platform)) == Ok::<
                Seq<char>,
                (ErrorKind, Seq<char>),
            >(content@),
            Err(e) => merged_content(foreign@, body@, now@, newline(platform)) == Err::<
                Seq<char>,
                (ErrorKind, Seq<char>),
            >((e.kind, e.detail@)),
        },
{
    match parse_remote_hosts(body) {
        Ok(hosts) => Ok(install_block(foreign, hosts.as_slice(), now, platform)),
        Err(e) => Err(e),
    }
}

/// One client cycle between the fetch and the write: checks the answer,
/// reads the payload and renders the content to write, stamped with the
/// local time. A failure of the fetch or of the parse comes back as it is;
/// otherwise the content is the merge for some one-line time stamp.
pub fn client_fetch_hosts(
    foreign: &str,
    fetched: Result<HttpReply, String>,
    platform: Platform,
) -> (r: Result<String, SyncError>)
    ensures
        match fetched_body(fetched) {
            Err(failure) => r is Err && (r->Err_0.kind, r->Err_0.detail@) == failure,
            Ok(body) => match remote_hosts(body) {
                Err(line) => r is Err && r->Err_0.kind == ErrorKind::ParseFailure
                    && r->Err_0.detail@ == line,
                Ok(hosts) => r is Ok && exists|now: Seq<char>|
                    is_one_line(now) && r->Ok_0@ == #[trigger] installed_content(
                        foreign@,
                        hosts,
                        now,
                        newline(platform),
                    ),
            },
        },
{
    match check_fetch(fetched) {
        Err(e) => Err(e),
        Ok(body) => {
            let now = local_timestamp();
            merge_remote_hosts(foreign, body.as_str(), now.as_str(), platform)
        },
    }
}

} // verus!
