//! From what the resolver returned to the resolved hosts, and from the
//! resolved hosts to the two artifacts that the server role publishes.

use crate::hosts::{managed_block, pairs, push_block};
use crate::json::{json_string_list, parse_string_list, strings};
use crate::text::string_of;
use vstd::prelude::*;

verus! {

/// One socket address that the resolver returned for a name.
#[derive(Debug, Clone, PartialEq, Eq)]
pub struct Address {
    /// The address in text form.
    pub ip: String,
    /// Whether it is an IPv4 address.
    pub is_ipv4: bool,
}

/// What the resolver returned for one domain, in the resolver's order;
/// empty where the lookup failed.
#[derive(Debug, Clone, PartialEq, Eq)]
pub struct Lookup {
    pub domain: String,
    pub addresses: Vec<Address>,
}

/// The text of the first IPv4 address among `addresses`.
pub open spec fn first_ipv4(addresses: Seq<Address>) -> Option<Seq<char>>
    decreases addresses.len(),
{
    if addresses.len() == 0 {
        None
    } else if addresses[0].is_ipv4 {
        Some(addresses[0].ip@)
    } else {
        first_ipv4(addresses.drop_first())
    }
}

/// The resolved hosts of `lookups`: for each domain with an IPv4 address,
/// in the order of `lookups`, that address and the domain.
pub open spec fn resolved_hosts(lookups: Seq<Lookup>) -> Seq<(Seq<char>, Seq<char>)>
    decreases lookups.len(),
{
    if lookups.len() == 0 {
        Seq::empty()
    } else {
        let before = resolved_hosts(lookups.drop_last());
        match first_ipv4(lookups.last().addresses@) {
            Some(ip) => before.push((ip, lookups.last().domain@)),
            None => before,
        }
    }
}

/// The text artifact: a managed block written with line feeds, followed by
/// an empty line.
pub open spec fn text_artifact(hosts: Seq<(Seq<char>, Seq<char>)>, now: Seq<char>) -> Seq<char> {
    managed_block(hosts, now, seq!['\n']) + seq!['\n']
}

/// What the resolver is asked for a domain: the domain's service on port
/// 80.
pub fn resolver_query(domain: &str) -> (query: String)
    ensures
        query@ == domain@ + ":80"@,
{
    let mut query: String = domain.to_owned();
    query.append(":80");
    query
}

/// The first IPv4 address among the addresses that the resolver returned
/// for a name; `None` where there is none, which is no failure.
pub fn resolve_ipv4(addresses: &[Address]) -> (r: Option<String>)
    ensures
        match r {
            Some(ip) => first_ipv4(addresses@) == Some(ip@),
            None => first_ipv4(addresses@) is None,
        },
{
    let mut i: usize = 0;
    assert(addresses@.skip(0) == addresses@);
    while i < addresses.len()
        invariant
            i <= addresses.len(),
            first_ipv4(addresses@) == first_ipv4(addresses@.skip(i as int)),
        decreases addresses.len() - i,
    {
        let ghost rest = addresses@.skip(i as int);
        assert(rest[0] == addresses[i as int]);
        if addresses[i].is_ipv4 {
            return Some(addresses[i].ip.clone());
        }
        assert(rest.drop_first() == addresses@.skip(i + 1));
        i += 1;
    }
    None
}

/// The resolved hosts of a batch of lookups. Each domain is taken by
/// itself: one without an IPv4 address is left out and the batch goes on.
pub fn fetch_hosts(lookups: &[Lookup]) -> (hosts: Vec<(String, String)>)
    ensures
        pairs(hosts@) == resolved_hosts(lookups@),
{
    let mut hosts: Vec<(String, String)> = Vec::new();
    let mut i: usize = 0;
    assert(lookups@.take(0) == Seq::<Lookup>::empty());
    assert(pairs(hosts@) == Seq::<(Seq<char>, Seq<char>)>::empty());
    while i < lookups.len()
        invariant
            i <= lookups.len(),
            pairs(hosts@) == resolved_hosts(lookups@.take(i as int)),
        decreases lookups.len() - i,
    {
        let ghost next = lookups@.take(i + 1);
        assert(next.drop_last() == lookups@.take(i as int));
        assert(next.last() == lookups[i as int]);
        match resolve_ipv4(lookups[i].addresses.as_slice()) {
            Some(ip) => {
                let domain = lookups[i].domain.clone();
                assert(pairs(hosts@.push((ip, domain))) == pairs(hosts@).push((ip@, domain@)));
                hosts.push((ip, domain));
            },
            None => {},
        }
        i += 1;
    }
    assert(lookups@.take(lookups.len() as int) == lookups@);
    hosts
}

/// A domain without an IPv4 address adds no entry and takes none away:
/// the batch resolves as it would without that lookup.
pub proof fn lemma_unresolved_domain_is_omitted(lookups: Seq<Lookup>, i: int)
    requires
        0 <= i < lookups.len(),
        first_ipv4(lookups[i].addresses@) is None,
    ensures
        resolved_hosts(lookups) == resolved_hosts(lookups.remove(i)),
    decreases lookups.len(),
{
    if i == lookups.len() - 1 {
        assert(lookups.remove(i) == lookups.drop_last());
    } else {
        let shorter = lookups.drop_last();
        lemma_unresolved_domain_is_omitted(shorter, i);
        assert(lookups.remove(i).drop_last() == shorter.remove(i));
        assert(lookups.remove(i).last() == lookups.last());
    }
}

/// The text artifact of the server role: the resolved hosts as a managed
/// block with line feeds, followed by an empty line.
pub fn format_hosts_text(hosts: &[(String, String)], now: &str) -> (out: String)
    ensures
        out@ == text_artifact(pairs(hosts@), now@),
{
    let mut nl: Vec<char> = Vec::new();
    nl.push('\n');
    assert(nl@ == seq!['\n']);
    let mut out: Vec<char> = Vec::new();
    push_block(&mut out, hosts, now, &nl);
    out.push('\n');
    assert(out@ == managed_block(pairs(hosts@), now@, seq!['\n']).push('\n'));
    string_of(&out)
}

/// The domain list that a parse gave, or the empty list where it gave none.
pub open spec fn domain_list(parsed: Option<Seq<Seq<char>>>) -> Seq<Seq<char>> {
    match parsed {
        Some(list) => list,
        None => Seq::empty(),
    }
}

/// The domains of a parsed list; no domains where the parse failed.
pub fn domains_or_empty(parsed: Option<Vec<String>>) -> (domains: Vec<String>)
    ensures
        strings(domains@) == domain_list(
            match parsed {
                Some(list) => Some(strings(list@)),
                None => None,
            },
        ),
{
    match parsed {
        Some(list) => list,
        None => {
            let empty: Vec<String> = Vec::new();
            assert(strings(empty@) == Seq::<Seq<char>>::empty());
            empty
        },
    }
}

/// The fixed domain set, read from the bundled JSON array of strings; empty
/// where the bundle is no such array.
pub fn get_github_domains(bundle: &str) -> (domains: Vec<String>)
    ensures
        strings(domains@) == domain_list(json_string_list(bundle@)),
{
    domains_or_empty(parse_string_list(bundle))
}

} // verus!
