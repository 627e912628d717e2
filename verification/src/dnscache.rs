//! Flushing the operating system's DNS cache, one command at a time.
//!
//! The library names the command to run; the caller runs it and reports
//! how it ended.

use crate::elevate::{
    classify_elevation, elevation_failure, ensure_elevated, grant_command, is_safe_user,
    safe_user, Command, CommandView, ProcessOutput,
};
use crate::error::{ErrorKind, SyncError};
use crate::json::strings;
use crate::platform::Platform;
use vstd::prelude::*;

verus! {

/// How a flush that did not fail ended.
#[derive(Debug, Clone, Copy, PartialEq, Eq, Structural)]
pub enum FlushReport {
    /// The platform's flush command succeeded.
    Flushed,
    /// `systemd-resolve` flushed its caches.
    FlushedBySystemdResolve,
    /// `resolvectl` flushed its caches.
    FlushedByResolvectl,
    /// No resolver confirmed the flush; a restart of `nscd` was tried.
    Attempted,
}

/// How far a flush has come: the command under way.
#[derive(Debug, Clone, Copy, PartialEq, Eq, Structural)]
pub enum FlushPhase {
    Granting,
    MacCache,
    MacResponder,
    SystemdResolve,
    Resolvectl,
    Nscd,
    Ipconfig,
    Done,
}

/// A flush in progress.
#[derive(Debug, Clone, Copy, PartialEq, Eq, Structural)]
pub struct FlushState {
    pub phase: FlushPhase,
    /// Whether the session's privilege rule is in place.
    pub granted: bool,
}

/// What the caller does next.
#[derive(Debug, PartialEq, Eq)]
pub enum FlushAction {
    /// Run the command and report how it ended.
    Run(Command),
    /// The flush is over, with this result.
    Finish(Result<FlushReport, SyncError>),
}

/// An action, with texts as character sequences.
pub enum FlushView {
    Run(CommandView),
    Finish(Result<FlushReport, (ErrorKind, Seq<char>)>),
}

impl FlushAction {
    pub open spec fn view(&self) -> FlushView {
        match self {
            FlushAction::Run(command) => FlushView::Run(command@),
            FlushAction::Finish(Ok(report)) => FlushView::Finish(Ok(*report)),
            FlushAction::Finish(Err(e)) => FlushView::Finish(Err((e.kind, e.detail@))),
        }
    }
}

impl FlushReport {
    /// A short description of the report.
    pub fn message(&self) -> (s: &'static str)
        ensures
            s@ == match *self {
                FlushReport::Flushed => "DNS cache flushed successfully"@,
                FlushReport::FlushedBySystemdResolve => "DNS cache flushed (systemd-resolved)"@,
                FlushReport::FlushedByResolvectl => "DNS cache flushed (resolvectl)"@,
                FlushReport::Attempted => "DNS cache flush attempted"@,
            },
    {
        match self {
            FlushReport::Flushed => "DNS cache flushed successfully",
            FlushReport::FlushedBySystemdResolve => "DNS cache flushed (systemd-resolved)",
            FlushReport::FlushedByResolvectl => "DNS cache flushed (resolvectl)",
            FlushReport::Attempted => "DNS cache flush attempted",
        }
    }
}

/// The command that is run in `phase`, apart from the privilege request.
pub open spec fn flush_command(phase: FlushPhase) -> CommandView {
    match phase {
        FlushPhase::MacCache => ("sudo"@, seq!["dscacheutil"@, "-flushcache"@]),
        FlushPhase::MacResponder => ("sudo"@, seq!["killall"@, "-HUP"@, "mDNSResponder"@]),
        FlushPhase::SystemdResolve => ("systemd-resolve"@, seq!["--flush-caches"@]),
        FlushPhase::Resolvectl => ("resolvectl"@, seq!["flush-caches"@]),
        FlushPhase::Nscd => ("pkexec"@, seq!["service"@, "nscd"@, "restart"@]),
        _ => ("ipconfig"@, seq!["/flushdns"@]),
    }
}

/// Whether a command ran and exited with success.
pub open spec fn succeeded(outcome: Result<ProcessOutput, String>) -> bool {
    outcome is Ok && outcome->Ok_0.success
}

/// The result of the command that decides a flush: success, or a write
/// failure with the message of the start or the text on standard error.
pub open spec fn decisive(outcome: Result<ProcessOutput, String>) -> Result<
    FlushReport,
    (ErrorKind, Seq<char>),
> {
    match outcome {
        Err(message) => Err((ErrorKind::WriteFailure, message@)),
        Ok(output) => if output.success {
            Ok(FlushReport::Flushed)
        } else {
            Err((ErrorKind::WriteFailure, output.stderr@))
        },
    }
}

/// How a flush starts. On macOS the session's privileges come first, and
/// are asked for where they are not in place and the user name is safe; on
/// Linux `systemd-resolve` is tried first; on Windows `ipconfig` decides.
pub open spec fn flush_start(platform: Platform, granted: bool, user: Seq<char>) -> (
    FlushState,
    FlushView,
) {
    match platform {
        Platform::MacOs => if granted {
            run(FlushPhase::MacCache, true)
        } else if is_safe_user(user) {
            (
                FlushState { phase: FlushPhase::Granting, granted: false },
                FlushView::Run(grant_command(user)),
            )
        } else {
            end(false, Err((ErrorKind::WriteFailure, "unsafe user name"@)))
        },
        Platform::Linux => run(FlushPhase::SystemdResolve, granted),
        Platform::Windows => run(FlushPhase::Ipconfig, granted),
    }
}

/// Running the command of `phase`.
pub open spec fn run(phase: FlushPhase, granted: bool) -> (FlushState, FlushView) {
    (FlushState { phase, granted }, FlushView::Run(flush_command(phase)))
}

/// The end of a flush.
pub open spec fn end(granted: bool, result: Result<FlushReport, (ErrorKind, Seq<char>)>) -> (
    FlushState,
    FlushView,
) {
    (FlushState { phase: FlushPhase::Done, granted }, FlushView::Finish(result))
}

/// How a flush goes on after a command ended. On macOS the cache is
/// flushed, whatever comes of it, and then the responder is signalled,
/// which decides. On Linux the first resolver that confirms ends the
/// flush; where none does, `nscd` is restarted and the flush counts as
/// attempted.
pub open spec fn flush_transition(state: FlushState, outcome: Result<ProcessOutput, String>) -> (
    FlushState,
    FlushView,
) {
    match state.phase {
        FlushPhase::Granting => match elevation_failure(outcome) {
            None => run(FlushPhase::MacCache, true),
            Some(failure) => end(state.granted, Err(failure)),
        },
        FlushPhase::MacCache => run(FlushPhase::MacResponder, state.granted),
        FlushPhase::MacResponder => end(state.granted, decisive(outcome)),
        FlushPhase::Ipconfig => end(state.granted, decisive(outcome)),
        FlushPhase::SystemdResolve => if succeeded(outcome) {
            end(state.granted, Ok(FlushReport::FlushedBySystemdResolve))
        } else {
            run(FlushPhase::Resolvectl, state.granted)
        },
        FlushPhase::Resolvectl => if succeeded(outcome) {
            end(state.granted, Ok(FlushReport::FlushedByResolvectl))
        } else {
            run(FlushPhase::Nscd, state.granted)
        },
        FlushPhase::Nscd => end(state.granted, Ok(FlushReport::Attempted)),
        FlushPhase::Done => end(
            state.granted,
            Err((ErrorKind::WriteFailure, "unexpected event"@)),
        ),
    }
}

/// The most commands that a flush in `phase` still runs.
pub open spec fn commands_left(phase: FlushPhase) -> nat {
    match phase {
        FlushPhase::Granting => 3,
        FlushPhase::MacCache => 2,
        FlushPhase::MacResponder => 1,
        FlushPhase::SystemdResolve => 3,
        FlushPhase::Resolvectl => 2,
        FlushPhase::Nscd => 1,
        FlushPhase::Ipconfig => 1,
        FlushPhase::Done => 0,
    }
}

/// Every flush comes to an end: each report brings a flush that is not
/// over closer to its end, and the action that ends it comes exactly when
/// the flush is over.
pub proof fn lemma_flush_ends(state: FlushState, outcome: Result<ProcessOutput, String>)
    requires
        state.phase != FlushPhase::Done,
    ensures
        commands_left(flush_transition(state, outcome).0.phase) < commands_left(state.phase),
        flush_transition(state, outcome).1 is Finish <==> flush_transition(state, outcome).0.phase
            == FlushPhase::Done,
{
}

/// On Linux a flush never fails: whatever the three commands report, it
/// ends with a report and not with a failure.
pub proof fn lemma_linux_flush_never_fails(state: FlushState, outcome: Result<ProcessOutput, String>)
    requires
        state.phase == FlushPhase::SystemdResolve || state.phase == FlushPhase::Resolvectl
            || state.phase == FlushPhase::Nscd,
    ensures
        flush_transition(state, outcome).1 matches FlushView::Finish(result) ==> result is Ok,
{
}

/// The command of `phase`.
fn command_of(phase: FlushPhase) -> (c: Command)
    ensures
        c@ == flush_command(phase),
{
    let mut args: Vec<String> = Vec::new();
    let program: &'static str = match phase {
        FlushPhase::MacCache => {
            args.push("dscacheutil".to_owned());
            args.push("-flushcache".to_owned());
            "sudo"
        },
        FlushPhase::MacResponder => {
            args.push("killall".to_owned());
            args.push("-HUP".to_owned());
            args.push("mDNSResponder".to_owned());
            "sudo"
        },
        FlushPhase::SystemdResolve => {
            args.push("--flush-caches".to_owned());
            "systemd-resolve"
        },
        FlushPhase::Resolvectl => {
            args.push("flush-caches".to_owned());
            "resolvectl"
        },
        FlushPhase::Nscd => {
            args.push("service".to_owned());
            args.push("nscd".to_owned());
            args.push("restart".to_owned());
            "pkexec"
        },
        _ => {
            args.push("/flushdns".to_owned());
            "ipconfig"
        },
    };
    assert(strings(args@) == flush_command(phase).1);
    Command { program: program.to_owned(), args }
}

/// Goes on to `phase`.
fn go(phase: FlushPhase, granted: bool) -> (r: (FlushState, FlushAction))
    ensures
        (r.0, r.1@) == run(phase, granted),
{
    (FlushState { phase, granted }, FlushAction::Run(command_of(phase)))
}

/// Ends the flush.
fn stop(granted: bool, result: Result<FlushReport, SyncError>) -> (r: (FlushState, FlushAction))
    ensures
        r.0 == (FlushState { phase: FlushPhase::Done, granted }),
        r.1@ == FlushAction::Finish(result)@,
{
    (FlushState { phase: FlushPhase::Done, granted }, FlushAction::Finish(result))
}

/// The result of the command that decides a flush.
fn decide(outcome: Result<ProcessOutput, String>) -> (r: Result<FlushReport, SyncError>)
    ensures
        FlushAction::Finish(r)@ == FlushView::Finish(decisive(outcome)),
{
    match outcome {
        Err(message) => Err(SyncError { kind: ErrorKind::WriteFailure, detail: message }),
        Ok(output) => {
            if output.success {
                Ok(FlushReport::Flushed)
            } else {
                Err(SyncError { kind: ErrorKind::WriteFailure, detail: output.stderr })
            }
        },
    }
}

/// Whether a command ran and exited with success.
fn ran_well(outcome: &Result<ProcessOutput, String>) -> (r: bool)
    ensures
        r == succeeded(*outcome),
{
    match outcome {
        Ok(output) => output.success,
        Err(_) => false,
    }
}

/// Starts a flush of the DNS cache, as [`flush_start`] lays down.
pub fn flush_dns_cache(platform: Platform, granted: bool, user: &str) -> (r: (
    FlushState,
    FlushAction,
))
    ensures
        (r.0, r.1@) == flush_start(platform, granted, user@),
{
    match platform {
        Platform::MacOs => match ensure_elevated(granted, user) {
            None => go(FlushPhase::MacCache, true),
            Some(ask) => {
                if safe_user(user) {
                    (FlushState { phase: FlushPhase::Granting, granted: false }, FlushAction::Run(ask))
                } else {
                    stop(false, Err(SyncError::new(ErrorKind::WriteFailure, "unsafe user name")))
                }
            },
        },
        Platform::Linux => go(FlushPhase::SystemdResolve, granted),
        Platform::Windows => go(FlushPhase::Ipconfig, granted),
    }
}

/// Takes the report of the command under way and gives the next action, as
/// [`flush_transition`] lays down.
pub fn flush_step(state: FlushState, outcome: Result<ProcessOutput, String>) -> (r: (
    FlushState,
    FlushAction,
))
    ensures
        (r.0, r.1@) == flush_transition(state, outcome),
{
    match state.phase {
        FlushPhase::Granting => match classify_elevation(outcome) {
            None => go(FlushPhase::MacCache, true),
            Some(failure) => stop(state.granted, Err(failure)),
        },
        FlushPhase::MacCache => go(FlushPhase::MacResponder, state.granted),
        FlushPhase::MacResponder => stop(state.granted, decide(outcome)),
        FlushPhase::Ipconfig => stop(state.granted, decide(outcome)),
        FlushPhase::SystemdResolve => {
            if ran_well(&outcome) {
                stop(state.granted, Ok(FlushReport::FlushedBySystemdResolve))
            } else {
                go(FlushPhase::Resolvectl, state.granted)
            }
        },
        FlushPhase::Resolvectl => {
            if ran_well(&outcome) {
                stop(state.granted, Ok(FlushReport::FlushedByResolvectl))
            } else {
                go(FlushPhase::Nscd, state.granted)
            }
        },
        FlushPhase::Nscd => stop(state.granted, Ok(FlushReport::Attempted)),
        FlushPhase::Done => stop(
            state.granted,
            Err(SyncError::new(ErrorKind::WriteFailure, "unexpected event")),
        ),
    }
}

} // verus!
