use fetch_github_hosts::dns::{
    domains_or_empty, fetch_hosts, format_hosts_text, get_github_domains, resolve_ipv4,
    resolver_query, Address, Lookup,
};
use fetch_github_hosts::error::ErrorKind;
use fetch_github_hosts::remote::parse_remote_hosts;
use fetch_github_hosts::server::{
    build_artifacts, server_fetch_hosts, JSON_ARTIFACT_NAME, TEXT_ARTIFACT_NAME,
};

fn v4(ip: &str) -> Address {
    Address { ip: ip.to_string(), is_ipv4: true }
}

fn v6(ip: &str) -> Address {
    Address { ip: ip.to_string(), is_ipv4: false }
}

fn lookup(domain: &str, addresses: Vec<Address>) -> Lookup {
    Lookup { domain: domain.to_string(), addresses }
}

fn pair(ip: &str, domain: &str) -> (String, String) {
    (ip.to_string(), domain.to_string())
}

#[test]
fn resolve_takes_the_first_ipv4_address() {
    let addresses = vec![v6("2606:50c0::153"), v4("140.82.112.3"), v4("140.82.112.4")];
    assert_eq!(resolve_ipv4(&addresses), Some("140.82.112.3".to_string()));
}

#[test]
fn resolve_without_ipv4_address_is_none() {
    assert_eq!(resolve_ipv4(&[]), None);
    assert_eq!(resolve_ipv4(&[v6("::1"), v6("fe80::1")]), None);
}

#[test]
fn fetch_hosts_keeps_the_order_of_the_domains() {
    let lookups = vec![
        lookup("github.com", vec![v4("140.82.112.3")]),
        lookup("raw.githubusercontent.com", vec![v6("::2"), v4("185.199.108.133")]),
    ];
    assert_eq!(
        fetch_hosts(&lookups),
        vec![
            pair("140.82.112.3", "github.com"),
            pair("185.199.108.133", "raw.githubusercontent.com")
        ]
    );
}

#[test]
fn fetch_hosts_leaves_out_what_did_not_resolve() {
    let lookups = vec![
        lookup("a.example", vec![v4("1.1.1.1")]),
        lookup("gone.example", vec![]),
        lookup("six.example", vec![v6("::3")]),
        lookup("b.example", vec![v4("2.2.2.2")]),
    ];
    assert_eq!(
        fetch_hosts(&lookups),
        vec![pair("1.1.1.1", "a.example"), pair("2.2.2.2", "b.example")]
    );
    let without: Vec<Lookup> = vec![lookups[0].clone(), lookups[3].clone()];
    assert_eq!(fetch_hosts(&lookups), fetch_hosts(&without));
}

#[test]
fn fetch_hosts_of_nothing_is_nothing() {
    assert_eq!(fetch_hosts(&[]), Vec::<(String, String)>::new());
    assert_eq!(
        fetch_hosts(&[lookup("gone.example", vec![])]),
        Vec::<(String, String)>::new()
    );
}

#[test]
fn text_artifact_of_two_hosts() {
    let hosts = vec![
        pair("140.82.112.3", "github.com"),
        pair("185.199.108.133", "raw.githubusercontent.com"),
    ];
    let text = format_hosts_text(&hosts, "2024-01-01 00:00:00");
    assert_eq!(
        text,
        "# fetch-github-hosts begin\n\
         140.82.112.3                github.com\n\
         185.199.108.133             raw.githubusercontent.com\n\
         # last fetch time: 2024-01-01 00:00:00\n\
         # update url: https://hosts.gitcdn.top/hosts.txt\n\
         # fetch-github-hosts end\n\n"
    );
    let lines: Vec<&str> = text.lines().collect();
    assert_eq!(lines.len(), 7);
    assert_eq!(lines[0], "# fetch-github-hosts begin");
    assert_eq!(lines[5], "# fetch-github-hosts end");
    let host_lines: Vec<&str> = lines
        .iter()
        .copied()
        .filter(|l| !l.is_empty() && !l.starts_with('#'))
        .collect();
    assert_eq!(
        host_lines,
        vec![
            "140.82.112.3                github.com",
            "185.199.108.133             raw.githubusercontent.com"
        ]
    );
}

#[test]
fn text_artifact_without_hosts() {
    assert_eq!(
        format_hosts_text(&[], "t"),
        "# fetch-github-hosts begin\n# last fetch time: t\n# update url: https://hosts.gitcdn.top/hosts.txt\n# fetch-github-hosts end\n\n"
    );
}

#[test]
fn text_artifact_pads_the_address_to_28_columns() {
    let text = format_hosts_text(&[pair("1.2.3.4", "a")], "t");
    let line = text.lines().nth(1).unwrap();
    assert_eq!(line.len(), 29);
    assert_eq!(&line[..7], "1.2.3.4");
    assert_eq!(&line[7..28], " ".repeat(21));
    assert_eq!(&line[28..], "a");
}

#[test]
fn text_artifact_reads_back_as_remote_payload() {
    let hosts = vec![
        pair("140.82.112.3", "github.com"),
        pair("185.199.108.133", "raw.githubusercontent.com"),
        pair("1.1.1.1", "x"),
    ];
    let text = format_hosts_text(&hosts, "2024-01-01 00:00:00");
    assert_eq!(parse_remote_hosts(&text).unwrap(), hosts);
}

#[test]
fn domains_are_read_from_the_bundled_json() {
    assert_eq!(
        get_github_domains("[\"github.com\", \"api.github.com\"]"),
        vec!["github.com".to_string(), "api.github.com".to_string()]
    );
    assert_eq!(get_github_domains("[]"), Vec::<String>::new());
}

#[test]
fn domains_are_empty_where_the_bundle_is_no_list() {
    assert_eq!(get_github_domains("not json"), Vec::<String>::new());
    assert_eq!(get_github_domains("{\"a\": 1}"), Vec::<String>::new());
    assert_eq!(get_github_domains("[1, 2]"), Vec::<String>::new());
    assert_eq!(get_github_domains(""), Vec::<String>::new());
}

#[test]
fn domains_or_empty_unwraps() {
    assert_eq!(domains_or_empty(None), Vec::<String>::new());
    assert_eq!(
        domains_or_empty(Some(vec!["a".to_string()])),
        vec!["a".to_string()]
    );
}

#[test]
fn artifacts_hold_what_one_pass_gave() {
    let hosts = vec![pair("1.2.3.4", "a.com")];
    let a = build_artifacts(&hosts, "2024-01-01 00:00:00", Ok("[[\"1.2.3.4\",\"a.com\"]]".to_string()))
        .unwrap();
    assert_eq!(a.text, format_hosts_text(&hosts, "2024-01-01 00:00:00"));
    assert_eq!(a.json, "[[\"1.2.3.4\",\"a.com\"]]");
    assert_eq!(a.updated, "2024-01-01 00:00:00");
}

#[test]
fn artifacts_fail_where_json_failed() {
    let e = build_artifacts(&[], "t", Err("key must be a string".to_string())).unwrap_err();
    assert_eq!(e.kind, ErrorKind::WriteFailure);
    assert_eq!(e.detail, "key must be a string");
}

#[test]
fn server_cycle_renders_both_artifacts_from_one_pass() {
    let lookups = vec![
        lookup("github.com", vec![v4("140.82.112.3")]),
        lookup("gone.example", vec![]),
        lookup("raw.githubusercontent.com", vec![v4("185.199.108.133")]),
    ];
    let a = server_fetch_hosts(&lookups).unwrap();
    assert_eq!(
        a.json,
        "[[\"140.82.112.3\",\"github.com\"],[\"185.199.108.133\",\"raw.githubusercontent.com\"]]"
    );
    let hosts = fetch_hosts(&lookups);
    assert_eq!(a.text, format_hosts_text(&hosts, &a.updated));
    let from_json: Vec<(String, String)> = serde_json::from_str(&a.json).unwrap();
    let from_text = parse_remote_hosts(&a.text).unwrap();
    assert_eq!(from_json, from_text);
    let domains: Vec<&str> = from_text.iter().map(|h| h.1.as_str()).collect();
    assert_eq!(domains, vec!["github.com", "raw.githubusercontent.com"]);
}

#[test]
fn server_cycle_stamps_the_local_time() {
    let a = server_fetch_hosts(&[]).unwrap();
    assert_eq!(a.json, "[]");
    let stamp: Vec<char> = a.updated.chars().collect();
    assert_eq!(stamp.len(), 19);
    for (i, c) in stamp.iter().enumerate() {
        match i {
            4 | 7 => assert_eq!(*c, '-'),
            10 => assert_eq!(*c, ' '),
            13 | 16 => assert_eq!(*c, ':'),
            _ => assert!(c.is_ascii_digit()),
        }
    }
    assert!(a.text.contains(&format!("# last fetch time: {}\n", a.updated)));
}

#[test]
fn json_artifact_escapes_what_json_escapes() {
    let lookups = vec![lookup("a\"b", vec![v4("1.1.1.1")])];
    let a = server_fetch_hosts(&lookups).unwrap();
    assert_eq!(a.json, "[[\"1.1.1.1\",\"a\\\"b\"]]");
}

#[test]
fn artifact_file_names() {
    assert_eq!(TEXT_ARTIFACT_NAME, "hosts.txt");
    assert_eq!(JSON_ARTIFACT_NAME, "hosts.json");
}

#[test]
fn resolver_is_asked_for_port_80() {
    assert_eq!(resolver_query("github.com"), "github.com:80");
    assert_eq!(resolver_query(""), ":80");
}
