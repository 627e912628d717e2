//! Where the configuration and the logs live, and which source the client
//! fetches from.

use crate::lines::{lines_of, split_lines};
use crate::platform::{text_eq, Platform};
use crate::text::{chars_of, push_text, rows, string_of};
use vstd::prelude::*;

verus! {

/// The home directory of the user, from `dirs::home_dir`, as text. Nothing
/// is claimed of the result: it is read from the environment.
#[verifier::external_body]
pub(crate) fn home_directory() -> (home: Option<String>) {
    match dirs::home_dir() {
        Some(path) => Some(path.to_string_lossy().into_owned()),
        None => None,
    }
}

/// The character that separates the parts of a path.
pub open spec fn separator(platform: Platform) -> char {
    if platform == Platform::Windows {
        '\\'
    } else {
        '/'
    }
}

/// The path of `name` under `base`.
pub open spec fn joined(base: Seq<char>, name: Seq<char>, sep: char) -> Seq<char> {
    if base.len() == 0 || base.last() == sep {
        base + name
    } else {
        base.push(sep) + name
    }
}

/// The directory of the configuration: `.fetch-github-hosts` under the
/// home directory, or under `.` where there is no home directory.
pub open spec fn config_dir_of(home: Option<Seq<char>>, platform: Platform) -> Seq<char> {
    joined(
        match home {
            Some(h) => h,
            None => "."@,
        },
        ".fetch-github-hosts"@,
        separator(platform),
    )
}

/// The configuration file.
pub open spec fn config_path_of(home: Option<Seq<char>>, platform: Platform) -> Seq<char> {
    joined(config_dir_of(home, platform), "config.yml"@, separator(platform))
}

/// The directory of the logs.
pub open spec fn logs_dir_of(home: Option<Seq<char>>, platform: Platform) -> Seq<char> {
    joined(config_dir_of(home, platform), "logs"@, separator(platform))
}

/// The log file of `source`.
pub open spec fn log_path_of(home: Option<Seq<char>>, platform: Platform, source: Seq<char>) -> Seq<
    char,
> {
    joined(logs_dir_of(home, platform), source + ".log"@, separator(platform))
}

/// The text of an optional string.
pub open spec fn text_of(value: Option<String>) -> Option<Seq<char>> {
    match value {
        Some(s) => Some(s@),
        None => None,
    }
}

/// The path of `name` under `base`.
pub fn join_path(base: &str, name: &str, platform: Platform) -> (path: String)
    ensures
        path@ == joined(base@, name@, separator(platform)),
{
    let sep: char = match platform {
        Platform::Windows => '\\',
        _ => '/',
    };
    let mut out = chars_of(base);
    let n = out.len();
    if n > 0 && out[n - 1] != sep {
        out.push(sep);
    }
    push_text(&mut out, name);
    string_of(&out)
}

/// The directory of the configuration for a given home directory.
pub fn config_dir_in(home: &Option<String>, platform: Platform) -> (path: String)
    ensures
        path@ == config_dir_of(text_of(*home), platform),
{
    match home {
        Some(h) => join_path(h.as_str(), ".fetch-github-hosts", platform),
        None => join_path(".", ".fetch-github-hosts", platform),
    }
}

/// The configuration file for a given home directory.
pub fn config_path_in(home: &Option<String>, platform: Platform) -> (path: String)
    ensures
        path@ == config_path_of(text_of(*home), platform),
{
    let dir = config_dir_in(home, platform);
    join_path(dir.as_str(), "config.yml", platform)
}

/// The directory of the logs for a given home directory.
pub fn logs_dir_in(home: &Option<String>, platform: Platform) -> (path: String)
    ensures
        path@ == logs_dir_of(text_of(*home), platform),
{
    let dir = config_dir_in(home, platform);
    join_path(dir.as_str(), "logs", platform)
}

/// The log file of `source` (`client` or `server`) for a given home
/// directory.
pub fn log_path_in(home: &Option<String>, platform: Platform, source: &str) -> (path: String)
    ensures
        path@ == log_path_of(text_of(*home), platform, source@),
{
    let dir = logs_dir_in(home, platform);
    let mut name: String = source.to_owned();
    name.append(".log");
    join_path(dir.as_str(), name.as_str(), platform)
}

/// The directory of the configuration of the user who runs the process.
pub fn config_dir(platform: Platform) -> (path: String)
    ensures
        exists|home: Option<Seq<char>>| path@ == #[trigger] config_dir_of(home, platform),
{
    let home = home_directory();
    let path = config_dir_in(&home, platform);
    assert(path@ == config_dir_of(text_of(home), platform));
    path
}

/// The configuration file of the user who runs the process.
pub fn config_path(platform: Platform) -> (path: String)
    ensures
        exists|home: Option<Seq<char>>| path@ == #[trigger] config_path_of(home, platform),
{
    let home = home_directory();
    let path = config_path_in(&home, platform);
    assert(path@ == config_path_of(text_of(home), platform));
    path
}

/// The directory of the logs of the user who runs the process.
pub fn logs_dir(platform: Platform) -> (path: String)
    ensures
        exists|home: Option<Seq<char>>| path@ == #[trigger] logs_dir_of(home, platform),
{
    let home = home_directory();
    let path = logs_dir_in(&home, platform);
    assert(path@ == logs_dir_of(text_of(home), platform));
    path
}

/// The lines among `lines` that are not empty, in order.
pub open spec fn filled(lines: Seq<Seq<char>>) -> Seq<Seq<char>>
    decreases lines.len(),
{
    if lines.len() == 0 {
        Seq::empty()
    } else if lines.last().len() == 0 {
        filled(lines.drop_last())
    } else {
        filled(lines.drop_last()).push(lines.last())
    }
}

/// The entries of a log: the lines of the log file that are not empty. A
/// log file that cannot be read has no entries.
pub fn load_logs(read: Result<String, String>) -> (entries: Vec<String>)
    ensures
        crate::json::strings(entries@) == match read {
            Ok(content) => filled(split_lines(content@)),
            Err(_) => Seq::empty(),
        },
{
    let mut entries: Vec<String> = Vec::new();
    assert(crate::json::strings(entries@) == Seq::<Seq<char>>::empty());
    match read {
        Err(_) => entries,
        Ok(content) => {
            let text = chars_of(content.as_str());
            let lines = lines_of(&text);
            let ghost all = rows(lines@);
            let mut i: usize = 0;
            assert(all.take(0) == Seq::<Seq<char>>::empty());
            while i < lines.len()
                invariant
                    i <= lines.len(),
                    all == rows(lines@),
                    crate::json::strings(entries@) == filled(all.take(i as int)),
                decreases lines.len() - i,
            {
                let ghost next = all.take(i + 1);
                assert(next.drop_last() == all.take(i as int));
                assert(next.last() == lines[i as int]@);
                if lines[i].len() > 0 {
                    let entry = string_of(&lines[i]);
                    assert(crate::json::strings(entries@.push(entry)) == crate::json::strings(
                        entries@,
                    ).push(entry@));
                    entries.push(entry);
                }
                i += 1;
            }
            assert(all.take(lines.len() as int) == all);
            entries
        },
    }
}

/// The address that the client fetches from: the custom address where the
/// method is `custom` and an address is given, else that of the named
/// origin, else the default.
pub open spec fn hosts_url_of(select_origin: Seq<char>, custom_url: Seq<char>, method: Seq<char>)
    -> Seq<char> {
    if method == "custom"@ && custom_url.len() > 0 {
        custom_url
    } else if select_origin == "Github520"@ {
        "https://raw.hellogithub.com/hosts"@
    } else {
        "https://hosts.gitcdn.top/hosts.txt"@
    }
}

/// The address that the client fetches from.
pub fn get_hosts_url(select_origin: &str, custom_url: &str, method: &str) -> (url: String)
    ensures
        url@ == hosts_url_of(select_origin@, custom_url@, method@),
{
    if text_eq(method, "custom") && !custom_url.is_empty() {
        return custom_url.to_owned();
    }
    if text_eq(select_origin, "Github520") {
        "https://raw.hellogithub.com/hosts".to_owned()
    } else {
        "https://hosts.gitcdn.top/hosts.txt".to_owned()
    }
}

} // verus!
