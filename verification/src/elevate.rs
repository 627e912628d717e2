//! Writing the hosts file: a direct write first, and where that fails a
//! staged copy with elevated privileges.
//!
//! The library decides; the caller performs each action and reports back
//! what happened. The elevated path may wait for the user's consent.

use crate::error::{ErrorKind, SyncError};
use crate::hosts::{foreign_content, get_clean_hosts};
use crate::json::strings;
use crate::platform::{newline, Platform};
use crate::text::{chars_of, contains, contains_text};
use vstd::prelude::*;

verus! {

/// The file that holds the privilege rule of a session on macOS.
pub const SUDOERS_TEMP: &'static str = "/etc/sudoers.d/fgh-temp";

/// A command to run: the program and its arguments.
#[derive(Debug, PartialEq, Eq)]
pub struct Command {
    pub program: String,
    pub args: Vec<String>,
}

/// What a command that ran left behind: whether it exited with success, and
/// what it wrote to standard error.
#[derive(Debug, PartialEq, Eq)]
pub struct ProcessOutput {
    pub success: bool,
    pub stderr: String,
}

/// Where and for whom the hosts file is written.
#[derive(Debug, PartialEq, Eq)]
pub struct WriteTarget {
    pub platform: Platform,
    /// The hosts file.
    pub hosts_path: String,
    /// The file in which the content is staged for the privileged copy.
    pub staged_path: String,
    /// The name of the user who runs the process.
    pub user: String,
}

/// How far a write has come.
#[derive(Debug, Clone, Copy, PartialEq, Eq, Structural)]
pub enum WritePhase {
    /// The direct write is under way.
    Direct,
    /// The content is being staged.
    Staging,
    /// The privilege request is under way.
    Granting,
    /// The privileged copy is under way.
    Copying,
    /// The staged file is being removed.
    Cleaning,
    /// The write has finished.
    Done,
}

/// A write in progress.
#[derive(Debug, PartialEq, Eq)]
pub struct WriteState {
    pub target: WriteTarget,
    /// The content that the hosts file is to hold.
    pub content: String,
    pub phase: WritePhase,
    /// Whether the session's privilege rule is in place.
    pub granted: bool,
    /// The failure that the write ends with once the staged file is gone.
    pub failure: Option<SyncError>,
}

/// What the caller does next.
#[derive(Debug, PartialEq, Eq)]
pub enum WriteAction {
    /// Write the content to the hosts file, without privileges.
    WriteDirect,
    /// Write the content to the staging file.
    WriteStaged,
    /// Run the command and report how it ended.
    Run(Command),
    /// Remove the staging file; whether that works does not matter.
    RemoveStaged,
    /// The write is over, with this result.
    Finish(Result<(), SyncError>),
}

/// What the caller reports.
#[derive(Debug, PartialEq, Eq)]
pub enum WriteEvent {
    /// The file write ended, with the writer's message where it failed.
    Written(Result<(), String>),
    /// The command ended, or could not be started.
    Ran(Result<ProcessOutput, String>),
    /// The staging file was dealt with.
    Removed,
}

/// A command as program and arguments.
pub type CommandView = (Seq<char>, Seq<Seq<char>>);

/// An action, with texts as character sequences.
pub enum ActionView {
    WriteDirect,
    WriteStaged,
    Run(CommandView),
    RemoveStaged,
    Finish(Result<(), (ErrorKind, Seq<char>)>),
}

impl Command {
    pub open spec fn view(&self) -> CommandView {
        (self.program@, strings(self.args@))
    }
}

impl WriteAction {
    pub open spec fn view(&self) -> ActionView {
        match self {
            WriteAction::WriteDirect => ActionView::WriteDirect,
            WriteAction::WriteStaged => ActionView::WriteStaged,
            WriteAction::Run(command) => ActionView::Run(command@),
            WriteAction::RemoveStaged => ActionView::RemoveStaged,
            WriteAction::Finish(Ok(())) => ActionView::Finish(Ok(())),
            WriteAction::Finish(Err(e)) => ActionView::Finish(Err((e.kind, e.detail@))),
        }
    }
}

/// The class and detail of an optional failure.
pub open spec fn failure_view(failure: Option<SyncError>) -> Option<(ErrorKind, Seq<char>)> {
    match failure {
        Some(e) => Some((e.kind, e.detail@)),
        None => None,
    }
}

/// Whether what an elevation mechanism wrote to standard error tells of a
/// refusal: the user declined the prompt or lacks the right. The match is
/// on known phrases and errs on the side of calling a failure a refusal.
pub open spec fn is_refusal(stderr: Seq<char>) -> bool {
    ||| contains(stderr, "User canceled"@)
    ||| contains(stderr, "cancelled"@)
    ||| contains(stderr, "canceled by the user"@)
    ||| contains(stderr, "Request dismissed"@)
    ||| contains(stderr, "Not authorized"@)
}

/// The failure with which an elevated step ends, if it does not succeed. A
/// command that could not be started, or that failed without telling of a
/// refusal, is a write failure; one that tells of a refusal is a denial.
pub open spec fn elevation_failure(outcome: Result<ProcessOutput, String>) -> Option<
    (ErrorKind, Seq<char>),
> {
    match outcome {
        Err(message) => Some((ErrorKind::WriteFailure, message@)),
        Ok(output) => if output.success {
            None
        } else if is_refusal(output.stderr@) {
            Some((ErrorKind::PermissionDenied, output.stderr@))
        } else {
            Some((ErrorKind::WriteFailure, output.stderr@))
        },
    }
}

/// The rule that lets `user` run the session's commands without a
/// password.
pub open spec fn sudoers_rule(user: Seq<char>) -> Seq<char> {
    user
        + " ALL=(ALL) NOPASSWD: /usr/bin/tee /etc/hosts, /bin/cp * /etc/hosts, /usr/bin/killall -HUP mDNSResponder, /usr/bin/dscacheutil -flushcache"@
}

/// The command that asks the user, through an administrator prompt, to put
/// the session's privilege rule in place.
pub open spec fn grant_command(user: Seq<char>) -> CommandView {
    (
        "osascript"@,
        seq![
            "-e"@,
            "do shell script \"echo '"@ + sudoers_rule(user) + "' > "@ + SUDOERS_TEMP@
                + " && chmod 440 "@ + SUDOERS_TEMP@ + "\" with administrator privileges"@,
        ],
    )
}

/// The command that removes the session's privilege rule.
pub open spec fn revoke_command() -> CommandView {
    ("sudo"@, seq!["rm"@, "-f"@, SUDOERS_TEMP@])
}

/// The command that copies the staged file over the hosts file with
/// elevated privileges.
pub open spec fn copy_command(platform: Platform, staged: Seq<char>, hosts: Seq<char>)
    -> CommandView {
    match platform {
        Platform::MacOs => ("sudo"@, seq!["cp"@, staged, hosts]),
        Platform::Linux => ("pkexec"@, seq!["cp"@, staged, hosts]),
        Platform::Windows => (
            "powershell"@,
            seq![
                "-Command"@,
                "Start-Process powershell -Verb RunAs -ArgumentList '-Command','Copy-Item -Path \""@
                    + staged + "\" -Destination \""@ + hosts + "\" -Force' -Wait"@,
            ],
        ),
    }
}

/// Whether `c` may stand in a user name that goes into the privilege rule.
pub open spec fn is_name_char(c: char) -> bool {
    ('a' <= c <= 'z') || ('A' <= c <= 'Z') || ('0' <= c <= '9') || c == '.' || c == '_' || c == '-'
}

/// Whether `user` is a name that can go into the privilege rule as it is:
/// not empty, and made of letters, digits, dots, hyphens and underscores.
pub open spec fn is_safe_user(user: Seq<char>) -> bool {
    user.len() > 0 && forall|j: int| 0 <= j < user.len() ==> is_name_char(#[trigger] user[j])
}

/// A command of two arguments.
fn command2(program: &str, a: String, b: String) -> (c: Command)
    ensures
        c@ == (program@, seq![a@, b@]),
{
    let mut args: Vec<String> = Vec::new();
    args.push(a);
    args.push(b);
    assert(strings(args@) == seq![a@, b@]);
    Command { program: program.to_owned(), args }
}

/// A command of three arguments.
fn command3(program: &str, a: String, b: String, c: String) -> (r: Command)
    ensures
        r@ == (program@, seq![a@, b@, c@]),
{
    let mut args: Vec<String> = Vec::new();
    args.push(a);
    args.push(b);
    args.push(c);
    assert(strings(args@) == seq![a@, b@, c@]);
    Command { program: program.to_owned(), args }
}

/// Executable [`is_safe_user`].
pub fn safe_user(user: &str) -> (r: bool)
    ensures
        r == is_safe_user(user@),
{
    let name = chars_of(user);
    if name.len() == 0 {
        return false;
    }
    let mut i: usize = 0;
    while i < name.len()
        invariant
            i <= name.len(),
            name@ == user@,
            forall|j: int| 0 <= j < i ==> is_name_char(#[trigger] name[j]),
        decreases name.len() - i,
    {
        let c = name[i];
        let ok = ('a' <= c && c <= 'z') || ('A' <= c && c <= 'Z') || ('0' <= c && c <= '9') || c
            == '.' || c == '_' || c == '-';
        if !ok {
            assert(!is_name_char(name@[i as int]));
            return false;
        }
        i += 1;
    }
    true
}

/// Executable [`is_refusal`].
pub fn tells_of_refusal(stderr: &str) -> (r: bool)
    ensures
        r == is_refusal(stderr@),
{
    let text = chars_of(stderr);
    contains_text(&text, &chars_of("User canceled")) || contains_text(&text, &chars_of("cancelled"))
        || contains_text(&text, &chars_of("canceled by the user")) || contains_text(
        &text,
        &chars_of("Request dismissed"),
    ) || contains_text(&text, &chars_of("Not authorized"))
}

/// The failure of an elevated step, or `None` where it succeeded. A
/// refusal by the user is a [`ErrorKind::PermissionDenied`]; a mechanism
/// that is missing or broke is a [`ErrorKind::WriteFailure`].
pub fn classify_elevation(outcome: Result<ProcessOutput, String>) -> (r: Option<SyncError>)
    ensures
        failure_view(r) == elevation_failure(outcome),
{
    match outcome {
        Err(message) => Some(SyncError { kind: ErrorKind::WriteFailure, detail: message }),
        Ok(output) => {
            if output.success {
                None
            } else if tells_of_refusal(output.stderr.as_str()) {
                Some(SyncError { kind: ErrorKind::PermissionDenied, detail: output.stderr })
            } else {
                Some(SyncError { kind: ErrorKind::WriteFailure, detail: output.stderr })
            }
        },
    }
}

/// The command that asks for the session's privileges on macOS, or `None`
/// where they were granted before and nothing is to ask.
pub fn ensure_elevated(granted: bool, user: &str) -> (r: Option<Command>)
    ensures
        match r {
            Some(command) => !granted && command@ == grant_command(user@),
            None => granted,
        },
{
    if granted {
        return None;
    }
    let mut script: String = "do shell script \"echo '".to_owned();
    script.append(user);
    script.append(
        " ALL=(ALL) NOPASSWD: /usr/bin/tee /etc/hosts, /bin/cp * /etc/hosts, /usr/bin/killall -HUP mDNSResponder, /usr/bin/dscacheutil -flushcache",
    );
    script.append("' > ");
    script.append(SUDOERS_TEMP);
    script.append(" && chmod 440 ");
    script.append(SUDOERS_TEMP);
    script.append("\" with administrator privileges");
    assert(script@ == grant_command(user@).1[1]);
    Some(command2("osascript", "-e".to_owned(), script))
}

/// The command that takes the session's privilege rule away when the
/// process ends, or `None` where no rule is in place. Afterwards the rule
/// counts as gone.
pub fn cleanup_privileges(granted: &mut bool) -> (r: Option<Command>)
    ensures
        !*final(granted),
        match r {
            Some(command) => *old(granted) && command@ == revoke_command(),
            None => !*old(granted),
        },
{
    if *granted {
        *granted = false;
        Some(command3("sudo", "rm".to_owned(), "-f".to_owned(), SUDOERS_TEMP.to_owned()))
    } else {
        None
    }
}

/// The privileged copy for `target`.
pub fn privileged_copy(target: &WriteTarget) -> (command: Command)
    ensures
        command@ == copy_command(target.platform, target.staged_path@, target.hosts_path@),
{
    match target.platform {
        Platform::MacOs => command3(
            "sudo",
            "cp".to_owned(),
            target.staged_path.clone(),
            target.hosts_path.clone(),
        ),
        Platform::Linux => command3(
            "pkexec",
            "cp".to_owned(),
            target.staged_path.clone(),
            target.hosts_path.clone(),
        ),
        Platform::Windows => {
            let mut script: String =
                "Start-Process powershell -Verb RunAs -ArgumentList '-Command','Copy-Item -Path \"".to_owned();
            script.append(target.staged_path.as_str());
            script.append("\" -Destination \"");
            script.append(target.hosts_path.as_str());
            script.append("\" -Force' -Wait");
            command2("powershell", "-Command".to_owned(), script)
        },
    }
}

/// What a report leads to: the next phase, whether the privilege rule is
/// in place, the failure kept for the end, and the next action.
pub struct Transition {
    pub phase: WritePhase,
    pub granted: bool,
    pub failure: Option<(ErrorKind, Seq<char>)>,
    pub action: ActionView,
}

/// The end of a write.
pub open spec fn finish(granted: bool, result: Result<(), (ErrorKind, Seq<char>)>) -> Transition {
    Transition { phase: WritePhase::Done, granted, failure: None, action: ActionView::Finish(result) }
}

/// The write policy. A direct write that works ends the write. One that
/// fails leads to staging the content; then, on macOS and without the
/// session's privilege rule, to the privilege request for a safe user name;
/// then to the privileged copy. Once the content is staged the staging file
/// is removed before the write ends, whatever happened in between. A report
/// that does not answer the action under way ends the write with a write
/// failure.
pub open spec fn write_transition(state: WriteState, event: WriteEvent) -> Transition {
    let target = state.target;
    let copy = ActionView::Run(copy_command(target.platform, target.staged_path@, target.hosts_path@));
    match (state.phase, event) {
        (WritePhase::Direct, WriteEvent::Written(Ok(_))) => finish(state.granted, Ok(())),
        (WritePhase::Direct, WriteEvent::Written(Err(_))) => Transition {
            phase: WritePhase::Staging,
            granted: state.granted,
            failure: None,
            action: ActionView::WriteStaged,
        },
        (WritePhase::Staging, WriteEvent::Written(Err(message))) => finish(
            state.granted,
            Err((ErrorKind::WriteFailure, message@)),
        ),
        (WritePhase::Staging, WriteEvent::Written(Ok(_))) => if target.platform == Platform::MacOs
            && !state.granted {
            if is_safe_user(target.user@) {
                Transition {
                    phase: WritePhase::Granting,
                    granted: false,
                    failure: None,
                    action: ActionView::Run(grant_command(target.user@)),
                }
            } else {
                Transition {
                    phase: WritePhase::Cleaning,
                    granted: false,
                    failure: Some((ErrorKind::WriteFailure, "unsafe user name"@)),
                    action: ActionView::RemoveStaged,
                }
            }
        } else {
            Transition {
                phase: WritePhase::Copying,
                granted: state.granted,
                failure: None,
                action: copy,
            }
        },
        (WritePhase::Granting, WriteEvent::Ran(outcome)) => match elevation_failure(outcome) {
            None => Transition {
                phase: WritePhase::Copying,
                granted: true,
                failure: None,
                action: copy,
            },
            Some(failure) => Transition {
                phase: WritePhase::Cleaning,
                granted: state.granted,
                failure: Some(failure),
                action: ActionView::RemoveStaged,
            },
        },
        (WritePhase::Copying, WriteEvent::Ran(outcome)) => Transition {
            phase: WritePhase::Cleaning,
            granted: state.granted,
            failure: elevation_failure(outcome),
            action: ActionView::RemoveStaged,
        },
        (WritePhase::Cleaning, WriteEvent::Removed) => finish(
            state.granted,
            match failure_view(state.failure) {
                None => Ok(()),
                Some(failure) => Err(failure),
            },
        ),
        _ => finish(state.granted, Err((ErrorKind::WriteFailure, "unexpected event"@))),
    }
}

/// Starts a write of `content`: the first action is the direct write.
pub fn write_hosts(content: String, target: WriteTarget, granted: bool) -> (r: (
    WriteState,
    WriteAction,
))
    ensures
        r.0.target == target,
        r.0.content == content,
        r.0.phase == WritePhase::Direct,
        r.0.granted == granted,
        r.0.failure is None,
        r.1@ == ActionView::WriteDirect,
{
    (
        WriteState { target, content, phase: WritePhase::Direct, granted, failure: None },
        WriteAction::WriteDirect,
    )
}

/// Ends a write in `state` with `result`.
fn finish_write(state: WriteState, result: Result<(), SyncError>) -> (r: (WriteState, WriteAction))
    ensures
        r.0.target == state.target,
        r.0.content == state.content,
        r.0.phase == WritePhase::Done,
        r.0.granted == state.granted,
        r.0.failure is None,
        r.1@ == WriteAction::Finish(result)@,
{
    (
        WriteState {
            target: state.target,
            content: state.content,
            phase: WritePhase::Done,
            granted: state.granted,
            failure: None,
        },
        WriteAction::Finish(result),
    )
}

/// Moves a write in `state` to `phase` with `action`.
fn advance(
    state: WriteState,
    phase: WritePhase,
    granted: bool,
    failure: Option<SyncError>,
    action: WriteAction,
) -> (r: (WriteState, WriteAction))
    ensures
        r.0.target == state.target,
        r.0.content == state.content,
        r.0.phase == phase,
        r.0.granted == granted,
        r.0.failure == failure,
        r.1 == action,
{
    (
        WriteState { target: state.target, content: state.content, phase, granted, failure },
        action,
    )
}

/// Takes the report of the action under way and gives the next action,
/// as [`write_transition`] lays down. The target and the content stay as
/// they are.
pub fn write_step(state: WriteState, event: WriteEvent) -> (r: (WriteState, WriteAction))
    ensures
        r.0.target == state.target,
        r.0.content == state.content,
        r.0.phase == write_transition(state, event).phase,
        r.0.granted == write_transition(state, event).granted,
        failure_view(r.0.failure) == write_transition(state, event).failure,
        r.1@ == write_transition(state, event).action,
{
    match state.phase {
        WritePhase::Direct => match event {
            WriteEvent::Written(Ok(_)) => finish_write(state, Ok(())),
            WriteEvent::Written(Err(_)) => {
                let granted = state.granted;
                advance(state, WritePhase::Staging, granted, None, WriteAction::WriteStaged)
            },
            _ => finish_write(state, Err(SyncError::new(ErrorKind::WriteFailure, "unexpected event"))),
        },
        WritePhase::Staging => match event {
            WriteEvent::Written(Err(message)) => finish_write(
                state,
                Err(SyncError { kind: ErrorKind::WriteFailure, detail: message }),
            ),
            WriteEvent::Written(Ok(_)) => {
                let granted = state.granted;
                match state.target.platform {
                    Platform::MacOs => {
                        match ensure_elevated(granted, state.target.user.as_str()) {
                            None => {
                                let copy = privileged_copy(&state.target);
                                advance(
                                    state,
                                    WritePhase::Copying,
                                    granted,
                                    None,
                                    WriteAction::Run(copy),
                                )
                            },
                            Some(ask) => {
                                if safe_user(state.target.user.as_str()) {
                                    advance(
                                        state,
                                        WritePhase::Granting,
                                        false,
                                        None,
                                        WriteAction::Run(ask),
                                    )
                                } else {
                                    let failure = SyncError::new(
                                        ErrorKind::WriteFailure,
                                        "unsafe user name",
                                    );
                                    advance(
                                        state,
                                        WritePhase::Cleaning,
                                        false,
                                        Some(failure),
                                        WriteAction::RemoveStaged,
                                    )
                                }
                            },
                        }
                    },
                    _ => {
                        let copy = privileged_copy(&state.target);
                        advance(state, WritePhase::Copying, granted, None, WriteAction::Run(copy))
                    },
                }
            },
            _ => finish_write(state, Err(SyncError::new(ErrorKind::WriteFailure, "unexpected event"))),
        },
        WritePhase::Granting => match event {
            WriteEvent::Ran(outcome) => {
                let granted = state.granted;
                match classify_elevation(outcome) {
                    None => {
                        let copy = privileged_copy(&state.target);
                        advance(state, WritePhase::Copying, true, None, WriteAction::Run(copy))
                    },
                    Some(failure) => advance(
                        state,
                        WritePhase::Cleaning,
                        granted,
                        Some(failure),
                        WriteAction::RemoveStaged,
                    ),
                }
            },
            _ => finish_write(state, Err(SyncError::new(ErrorKind::WriteFailure, "unexpected event"))),
        },
        WritePhase::Copying => match event {
            WriteEvent::Ran(outcome) => {
                let granted = state.granted;
                let failure = classify_elevation(outcome);
                advance(state, WritePhase::Cleaning, granted, failure, WriteAction::RemoveStaged)
            },
            _ => finish_write(state, Err(SyncError::new(ErrorKind::WriteFailure, "unexpected event"))),
        },
        WritePhase::Cleaning => match event {
            WriteEvent::Removed => {
                let WriteState { target, content, phase, granted, failure } = state;
                let result = match failure {
                    None => Ok(()),
                    Some(e) => Err(e),
                };
                finish_write(
                    WriteState { target, content, phase, granted, failure: None },
                    result,
                )
            },
            _ => finish_write(state, Err(SyncError::new(ErrorKind::WriteFailure, "unexpected event"))),
        },
        WritePhase::Done => finish_write(
            state,
            Err(SyncError::new(ErrorKind::WriteFailure, "unexpected event")),
        ),
    }
}

/// Starts the write that removes the managed block from the hosts file:
/// the content to write is the foreign content of what was read. Where the
/// read failed nothing is written, and the failure is an
/// [`ErrorKind::IOFailure`] that carries the reader's message.
pub fn flush_clean_hosts(read: Result<String, String>, target: WriteTarget, granted: bool) -> (r:
    Result<(WriteState, WriteAction), SyncError>)
    ensures
        match read {
            Ok(content) => r is Ok && r->Ok_0.0.content@ == foreign_content(
                content@,
                newline(target.platform),
            ) && r->Ok_0.0.target == target && r->Ok_0.0.phase == WritePhase::Direct
                && r->Ok_0.0.granted == granted && r->Ok_0.0.failure is None && r->Ok_0.1@
                == ActionView::WriteDirect,
            Err(message) => r is Err && r->Err_0.kind == ErrorKind::IOFailure && r->Err_0.detail@
                == message@,
        },
{
    match get_clean_hosts(read, target.platform) {
        Ok(clean) => Ok(write_hosts(clean, target, granted)),
        Err(e) => Err(e),
    }
}

/// Whether a probe's message tells that access was refused.
pub open spec fn is_access_refusal(message: Seq<char>) -> bool {
    contains(message, "Permission denied"@) || contains(message, "Access is denied"@)
}

/// Whether the hosts file can be read and written, given what opening it
/// for both returned. A refusal of access is `Ok(false)`, not a failure;
/// any other error is an [`ErrorKind::IOFailure`] that carries its message.
pub fn check_hosts_permission(probe: Result<(), String>) -> (r: Result<bool, SyncError>)
    ensures
        match probe {
            Ok(_) => r == Ok::<bool, SyncError>(true),
            Err(message) => if is_access_refusal(message@) {
                r == Ok::<bool, SyncError>(false)
            } else {
                r is Err && r->Err_0.kind == ErrorKind::IOFailure && r->Err_0.detail@ == message@
            },
        },
{
    match probe {
        Ok(_) => Ok(true),
        Err(message) => {
            let text = chars_of(message.as_str());
            if contains_text(&text, &chars_of("Permission denied")) || contains_text(
                &text,
                &chars_of("Access is denied"),
            ) {
                Ok(false)
            } else {
                Err(SyncError { kind: ErrorKind::IOFailure, detail: message })
            }
        },
    }
}

/// The most reports that a write in `phase` still takes.
pub open spec fn reports_left(phase: WritePhase) -> nat {
    match phase {
        WritePhase::Direct => 5,
        WritePhase::Staging => 4,
        WritePhase::Granting => 3,
        WritePhase::Copying => 2,
        WritePhase::Cleaning => 1,
        WritePhase::Done => 0,
    }
}

/// Every write comes to an end: each report brings a write that is not
/// over closer to its end, and the action that ends it comes exactly when
/// the write is over.
pub proof fn lemma_write_ends(state: WriteState, event: WriteEvent)
    requires
        state.phase != WritePhase::Done,
    ensures
        reports_left(write_transition(state, event).phase) < reports_left(state.phase),
        write_transition(state, event).action is Finish <==> write_transition(state, event).phase
            == WritePhase::Done,
{
}

/// A session that holds its privileges is not asked again: from a state
/// in which the privilege rule is in place no report leads to a privilege
/// request, and the rule stays in place.
pub proof fn lemma_granted_session_is_not_asked_again(state: WriteState, event: WriteEvent)
    requires
        state.granted,
    ensures
        write_transition(state, event).phase != WritePhase::Granting,
        write_transition(state, event).granted,
{
}

/// A refusal is told apart from a mechanism that is not there. Where the
/// privilege request or the privileged copy ran and failed with a refusal,
/// the write ends, after the staging file is removed, with a
/// [`ErrorKind::PermissionDenied`]; where the command could not be
/// started, it ends with a [`ErrorKind::WriteFailure`].
pub proof fn lemma_refusal_is_told_apart(
    state: WriteState,
    outcome: Result<ProcessOutput, String>,
    after: WriteState,
)
    requires
        state.phase == WritePhase::Granting || state.phase == WritePhase::Copying,
        !(outcome is Ok && outcome->Ok_0.success),
        after.phase == write_transition(state, WriteEvent::Ran(outcome)).phase,
        failure_view(after.failure) == write_transition(state, WriteEvent::Ran(outcome)).failure,
    ensures
        after.phase == WritePhase::Cleaning,
        write_transition(state, WriteEvent::Ran(outcome)).action == ActionView::RemoveStaged,
        write_transition(after, WriteEvent::Removed).action is Finish,
        write_transition(after, WriteEvent::Removed).action->Finish_0 is Err,
        write_transition(after, WriteEvent::Removed).action->Finish_0->Err_0.0 == (if outcome is Ok
            && is_refusal(outcome->Ok_0.stderr@) {
            ErrorKind::PermissionDenied
        } else {
            ErrorKind::WriteFailure
        }),
{
}

} // verus!
