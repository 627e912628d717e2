//! The operating systems the engine runs on, chosen at run time.

use crate::text::{chars_of, same_text};
use vstd::prelude::*;

verus! {

/// The operating system family that decides paths, line endings and the
/// elevation mechanism.
#[derive(Debug, Clone, Copy, PartialEq, Eq, Structural)]
pub enum Platform {
    MacOs,
    Linux,
    Windows,
}

/// Whether the strings `a` and `b` hold the same characters.
pub fn text_eq(a: &str, b: &str) -> (r: bool)
    ensures
        r == (a@ == b@),
{
    let x = chars_of(a);
    let y = chars_of(b);
    same_text(&x, &y)
}

/// The platform's line ending.
pub open spec fn newline(platform: Platform) -> Seq<char> {
    if platform == Platform::Windows {
        seq!['\r', '\n']
    } else {
        seq!['\n']
    }
}

/// The platform's hosts file, given the value of the `SystemRoot` variable
/// where there is one.
pub open spec fn hosts_path_of(platform: Platform, system_root: Option<Seq<char>>) -> Seq<char> {
    if platform == Platform::Windows {
        let root = match system_root {
            Some(r) => r,
            None => "C:\\Windows"@,
        };
        root + "\\System32\\drivers\\etc\\hosts"@
    } else {
        "/etc/hosts"@
    }
}

impl Platform {
    /// The platform named by `name`, as the operating system reports itself
    /// (`"macos"`, `"linux"`, `"windows"`).
    pub fn from_os_name(name: &str) -> (r: Option<Platform>)
        ensures
            r == if name@ == "macos"@ {
                Some(Platform::MacOs)
            } else if name@ == "linux"@ {
                Some(Platform::Linux)
            } else if name@ == "windows"@ {
                Some(Platform::Windows)
            } else {
                None
            },
    {
        if text_eq(name, "macos") {
            Some(Platform::MacOs)
        } else if text_eq(name, "linux") {
            Some(Platform::Linux)
        } else if text_eq(name, "windows") {
            Some(Platform::Windows)
        } else {
            None
        }
    }
}

/// The line ending of `platform`: `"\r\n"` on Windows, `"\n"` elsewhere.
pub fn newline_char(platform: Platform) -> (s: &'static str)
    ensures
        s@ == newline(platform),
{
    match platform {
        Platform::Windows => {
            proof {
                reveal_strlit("\r\n");
            }
            assert("\r\n"@ =~= seq!['\r', '\n']);
            "\r\n"
        },
        _ => {
            proof {
                reveal_strlit("\n");
            }
            assert("\n"@ =~= seq!['\n']);
            "\n"
        },
    }
}

/// The path of the system hosts file.
pub fn hosts_path(platform: Platform, system_root: Option<&str>) -> (path: String)
    ensures
        path@ == hosts_path_of(
            platform,
            match system_root {
                Some(r) => Some(r@),
                None => None,
            },
        ),
{
    match platform {
        Platform::Windows => {
            let mut path: String = match system_root {
                Some(r) => r.to_owned(),
                None => "C:\\Windows".to_owned(),
            };
            path.append("\\System32\\drivers\\etc\\hosts");
            path
        },
        _ => "/etc/hosts".to_owned(),
    }
}

} // verus!
