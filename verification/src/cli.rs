//! What the command line asks for.

use crate::lifecycle::{coerced_minutes, coerce_interval, Role};
use crate::platform::text_eq;
use vstd::prelude::*;

verus! {

/// The arguments of the command line.
#[derive(Debug, Clone, PartialEq, Eq)]
pub struct CliArgs {
    /// `client` or `server`; left out for the graphical shell.
    pub mode: Option<String>,
    /// Minutes between two cycles.
    pub interval: u32,
    /// The port of the HTTP endpoint, for the server role.
    pub port: u16,
    /// The address of the remote mapping, for the client role.
    pub url: String,
    /// The language of the interface (`zh-CN`, `en-US`, `ja-JP`).
    pub lang: Option<String>,
}

/// What to run for a command line, and what was set right on the way.
#[derive(Debug, Clone, PartialEq, Eq)]
pub struct CliPlan {
    pub role: Role,
    /// Minutes between two cycles, at least one.
    pub interval: u32,
    pub port: u16,
    pub url: String,
    /// The mode that was given and is none of the two roles.
    pub invalid_mode: Option<String>,
    /// Whether the interval given was below one minute.
    pub interval_coerced: bool,
}

/// The role that a mode names; the client role for a mode that names none
/// and where no mode is given.
pub open spec fn role_of(mode: Option<String>) -> Role {
    match mode {
        Some(m) => if m@ == "server"@ {
            Role::Server
        } else {
            Role::Client
        },
        None => Role::Client,
    }
}

/// Whether a mode is given that names none of the two roles.
pub open spec fn is_invalid_mode(mode: Option<String>) -> bool {
    match mode {
        Some(m) => m@ != "server"@ && m@ != "client"@,
        None => false,
    }
}

/// What to run for the arguments `args`. A mode that names no role is not
/// refused: the client role takes its place, and the plan keeps the mode
/// for the warning. An interval below one minute is not refused either.
pub fn run_cli(args: &CliArgs) -> (plan: CliPlan)
    ensures
        plan.role == role_of(args.mode),
        plan.interval == coerced_minutes(args.interval),
        plan.interval >= 1,
        plan.interval_coerced == (args.interval < 1),
        plan.port == args.port,
        plan.url@ == args.url@,
        match plan.invalid_mode {
            Some(m) => is_invalid_mode(args.mode) && args.mode is Some && m@
                == args.mode->Some_0@,
            None => !is_invalid_mode(args.mode),
        },
{
    let (role, invalid_mode) = match &args.mode {
        None => (Role::Client, None),
        Some(m) => {
            if text_eq(m.as_str(), "server") {
                (Role::Server, None)
            } else if text_eq(m.as_str(), "client") {
                (Role::Client, None)
            } else {
                (Role::Client, Some(m.clone()))
            }
        },
    };
    CliPlan {
        role,
        interval: coerce_interval(args.interval),
        port: args.port,
        url: args.url.clone(),
        invalid_mode,
        interval_coerced: args.interval < 1,
    }
}

} // verus!
