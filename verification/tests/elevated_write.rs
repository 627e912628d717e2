use fetch_github_hosts::dnscache::{
    flush_dns_cache, flush_step, FlushAction, FlushPhase, FlushReport, FlushState,
};
use fetch_github_hosts::elevate::{
    check_hosts_permission, classify_elevation, cleanup_privileges, ensure_elevated,
    privileged_copy, safe_user, tells_of_refusal, write_hosts, write_step, Command,
    ProcessOutput, WriteAction, WriteEvent, WritePhase, WriteState, WriteTarget, SUDOERS_TEMP,
};
use fetch_github_hosts::error::{ErrorKind, SyncError};
use fetch_github_hosts::platform::Platform;

fn target(platform: Platform) -> WriteTarget {
    WriteTarget {
        platform,
        hosts_path: "/etc/hosts".to_string(),
        staged_path: "/tmp/fgh_hosts_temp.txt".to_string(),
        user: "alice".to_string(),
    }
}

fn command(program: &str, args: &[&str]) -> Command {
    Command {
        program: program.to_string(),
        args: args.iter().map(|a| a.to_string()).collect(),
    }
}

fn ran(success: bool, stderr: &str) -> Result<ProcessOutput, String> {
    Ok(ProcessOutput { success, stderr: stderr.to_string() })
}

fn begin(platform: Platform, granted: bool) -> WriteState {
    let (state, action) = write_hosts("content\n".to_string(), target(platform), granted);
    assert_eq!(action, WriteAction::WriteDirect);
    assert_eq!(state.phase, WritePhase::Direct);
    state
}

fn staged(platform: Platform, granted: bool) -> (WriteState, WriteAction) {
    let state = begin(platform, granted);
    let (state, action) = write_step(state, WriteEvent::Written(Err("denied".to_string())));
    assert_eq!(action, WriteAction::WriteStaged);
    assert_eq!(state.phase, WritePhase::Staging);
    write_step(state, WriteEvent::Written(Ok(())))
}

fn failure(kind: ErrorKind, detail: &str) -> SyncError {
    SyncError { kind, detail: detail.to_string() }
}

#[test]
fn direct_write_that_works_ends_the_write() {
    let (state, action) = write_step(begin(Platform::Linux, false), WriteEvent::Written(Ok(())));
    assert_eq!(action, WriteAction::Finish(Ok(())));
    assert_eq!(state.phase, WritePhase::Done);
    assert_eq!(state.content, "content\n");
    assert_eq!(state.target, target(Platform::Linux));
}

#[test]
fn staging_that_fails_is_a_write_failure() {
    let state = begin(Platform::Linux, false);
    let (state, _) = write_step(state, WriteEvent::Written(Err("denied".to_string())));
    let (state, action) = write_step(state, WriteEvent::Written(Err("disk full".to_string())));
    assert_eq!(
        action,
        WriteAction::Finish(Err(failure(ErrorKind::WriteFailure, "disk full")))
    );
    assert_eq!(state.phase, WritePhase::Done);
}

#[test]
fn linux_copies_with_pkexec() {
    let (state, action) = staged(Platform::Linux, false);
    assert_eq!(
        action,
        WriteAction::Run(command("pkexec", &["cp", "/tmp/fgh_hosts_temp.txt", "/etc/hosts"]))
    );
    assert_eq!(state.phase, WritePhase::Copying);
    let (state, action) = write_step(state, WriteEvent::Ran(ran(true, "")));
    assert_eq!(action, WriteAction::RemoveStaged);
    assert_eq!(state.phase, WritePhase::Cleaning);
    let (state, action) = write_step(state, WriteEvent::Removed);
    assert_eq!(action, WriteAction::Finish(Ok(())));
    assert_eq!(state.phase, WritePhase::Done);
    assert!(!state.granted);
}

#[test]
fn windows_copies_with_an_elevated_shell() {
    let mut t = target(Platform::Windows);
    t.hosts_path = "C:\\Windows\\System32\\drivers\\etc\\hosts".to_string();
    t.staged_path = "C:\\Temp\\fgh_hosts_temp.txt".to_string();
    assert_eq!(
        privileged_copy(&t),
        command(
            "powershell",
            &[
                "-Command",
                "Start-Process powershell -Verb RunAs -ArgumentList '-Command','Copy-Item -Path \"C:\\Temp\\fgh_hosts_temp.txt\" -Destination \"C:\\Windows\\System32\\drivers\\etc\\hosts\" -Force' -Wait"
            ]
        )
    );
}

#[test]
fn macos_asks_for_privileges_once() {
    let (state, action) = staged(Platform::MacOs, false);
    assert_eq!(state.phase, WritePhase::Granting);
    assert_eq!(
        action,
        WriteAction::Run(command(
            "osascript",
            &[
                "-e",
                "do shell script \"echo 'alice ALL=(ALL) NOPASSWD: /usr/bin/tee /etc/hosts, /bin/cp * /etc/hosts, /usr/bin/killall -HUP mDNSResponder, /usr/bin/dscacheutil -flushcache' > /etc/sudoers.d/fgh-temp && chmod 440 /etc/sudoers.d/fgh-temp\" with administrator privileges"
            ]
        ))
    );
    let (state, action) = write_step(state, WriteEvent::Ran(ran(true, "")));
    assert!(state.granted);
    assert_eq!(state.phase, WritePhase::Copying);
    assert_eq!(
        action,
        WriteAction::Run(command("sudo", &["cp", "/tmp/fgh_hosts_temp.txt", "/etc/hosts"]))
    );
    let (state, _) = write_step(state, WriteEvent::Ran(ran(true, "")));
    let (state, action) = write_step(state, WriteEvent::Removed);
    assert_eq!(action, WriteAction::Finish(Ok(())));
    assert!(state.granted);

    let (state, action) = staged(Platform::MacOs, true);
    assert_eq!(state.phase, WritePhase::Copying);
    assert_eq!(
        action,
        WriteAction::Run(command("sudo", &["cp", "/tmp/fgh_hosts_temp.txt", "/etc/hosts"]))
    );
}

#[test]
fn cancelled_prompt_is_a_denial() {
    let (state, _) = staged(Platform::MacOs, false);
    let stderr = "execution error: User canceled. (-128)";
    let (state, action) = write_step(state, WriteEvent::Ran(ran(false, stderr)));
    assert_eq!(action, WriteAction::RemoveStaged);
    assert!(!state.granted);
    let (state, action) = write_step(state, WriteEvent::Removed);
    assert_eq!(
        action,
        WriteAction::Finish(Err(failure(ErrorKind::PermissionDenied, stderr)))
    );
    assert_eq!(state.phase, WritePhase::Done);
    match action {
        WriteAction::Finish(Err(e)) => assert!(e.is_denial()),
        _ => unreachable!(),
    }
}

#[test]
fn dismissed_pkexec_is_a_denial() {
    let (state, _) = staged(Platform::Linux, false);
    let stderr = "Error executing command as another user: Request dismissed";
    let (state, _) = write_step(state, WriteEvent::Ran(ran(false, stderr)));
    let (_, action) = write_step(state, WriteEvent::Removed);
    assert_eq!(
        action,
        WriteAction::Finish(Err(failure(ErrorKind::PermissionDenied, stderr)))
    );
}

#[test]
fn missing_mechanism_is_a_write_failure() {
    let (state, _) = staged(Platform::Linux, false);
    let (state, action) = write_step(
        state,
        WriteEvent::Ran(Err("No such file or directory (os error 2)".to_string())),
    );
    assert_eq!(action, WriteAction::RemoveStaged);
    let (_, action) = write_step(state, WriteEvent::Removed);
    assert_eq!(
        action,
        WriteAction::Finish(Err(failure(
            ErrorKind::WriteFailure,
            "No such file or directory (os error 2)"
        )))
    );
    match action {
        WriteAction::Finish(Err(e)) => assert!(!e.is_denial()),
        _ => unreachable!(),
    }
}

#[test]
fn failed_copy_without_refusal_is_a_write_failure() {
    let (state, _) = staged(Platform::Linux, false);
    let (state, _) = write_step(state, WriteEvent::Ran(ran(false, "cp: cannot stat")));
    let (_, action) = write_step(state, WriteEvent::Removed);
    assert_eq!(
        action,
        WriteAction::Finish(Err(failure(ErrorKind::WriteFailure, "cp: cannot stat")))
    );
}

#[test]
fn unsafe_user_name_is_not_put_into_the_rule() {
    let mut t = target(Platform::MacOs);
    t.user = "x'; rm -rf / #".to_string();
    let (state, _) = write_hosts("c".to_string(), t, false);
    let (state, _) = write_step(state, WriteEvent::Written(Err("denied".to_string())));
    let (state, action) = write_step(state, WriteEvent::Written(Ok(())));
    assert_eq!(action, WriteAction::RemoveStaged);
    assert_eq!(state.phase, WritePhase::Cleaning);
    let (_, action) = write_step(state, WriteEvent::Removed);
    assert_eq!(
        action,
        WriteAction::Finish(Err(failure(ErrorKind::WriteFailure, "unsafe user name")))
    );
}

#[test]
fn report_that_does_not_fit_ends_the_write() {
    let (state, action) = write_step(begin(Platform::Linux, false), WriteEvent::Removed);
    assert_eq!(
        action,
        WriteAction::Finish(Err(failure(ErrorKind::WriteFailure, "unexpected event")))
    );
    assert_eq!(state.phase, WritePhase::Done);
    let (_, action) = write_step(state, WriteEvent::Written(Ok(())));
    assert_eq!(
        action,
        WriteAction::Finish(Err(failure(ErrorKind::WriteFailure, "unexpected event")))
    );
    let (state, _) = staged(Platform::Linux, false);
    let (_, action) = write_step(state, WriteEvent::Written(Ok(())));
    assert_eq!(
        action,
        WriteAction::Finish(Err(failure(ErrorKind::WriteFailure, "unexpected event")))
    );
}

#[test]
fn refusal_phrases() {
    assert!(tells_of_refusal("User canceled."));
    assert!(tells_of_refusal("operation cancelled"));
    assert!(tells_of_refusal("The operation was canceled by the user."));
    assert!(tells_of_refusal("Request dismissed"));
    assert!(tells_of_refusal("Error executing command as another user: Not authorized"));
    assert!(!tells_of_refusal(""));
    assert!(!tells_of_refusal("cp: cannot stat '/tmp/x'"));
    assert!(!tells_of_refusal("user canceled"));
    assert!(!tells_of_refusal("cancel"));
}

#[test]
fn elevation_outcomes_are_classified() {
    assert_eq!(classify_elevation(ran(true, "noise")), None);
    assert_eq!(classify_elevation(ran(true, "User canceled")), None);
    assert_eq!(
        classify_elevation(ran(false, "User canceled")),
        Some(failure(ErrorKind::PermissionDenied, "User canceled"))
    );
    assert_eq!(
        classify_elevation(ran(false, "")),
        Some(failure(ErrorKind::WriteFailure, ""))
    );
    assert_eq!(
        classify_elevation(Err("not found".to_string())),
        Some(failure(ErrorKind::WriteFailure, "not found"))
    );
    assert_eq!(
        classify_elevation(Err("User canceled".to_string())),
        Some(failure(ErrorKind::WriteFailure, "User canceled"))
    );
}

#[test]
fn privileges_are_asked_for_only_when_missing() {
    assert_eq!(ensure_elevated(true, "alice"), None);
    let ask = ensure_elevated(false, "bob").unwrap();
    assert_eq!(ask.program, "osascript");
    assert_eq!(ask.args.len(), 2);
    assert_eq!(ask.args[0], "-e");
    assert!(ask.args[1].starts_with("do shell script \"echo 'bob ALL=(ALL) NOPASSWD: "));
    assert!(ask.args[1].ends_with("\" with administrator privileges"));
}

#[test]
fn privileges_are_revoked_at_the_end() {
    let mut granted = true;
    assert_eq!(
        cleanup_privileges(&mut granted),
        Some(command("sudo", &["rm", "-f", "/etc/sudoers.d/fgh-temp"]))
    );
    assert!(!granted);
    assert_eq!(cleanup_privileges(&mut granted), None);
    assert!(!granted);
    assert_eq!(SUDOERS_TEMP, "/etc/sudoers.d/fgh-temp");
}

#[test]
fn safe_user_names() {
    assert!(safe_user("alice"));
    assert!(safe_user("a.b-c_D9"));
    assert!(!safe_user(""));
    assert!(!safe_user("a b"));
    assert!(!safe_user("a'b"));
    assert!(!safe_user("a\"b"));
    assert!(!safe_user("ü"));
    assert!(!safe_user("a;b"));
}

#[test]
fn permission_probe() {
    assert_eq!(check_hosts_permission(Ok(())), Ok(true));
    assert_eq!(
        check_hosts_permission(Err("Permission denied (os error 13)".to_string())),
        Ok(false)
    );
    assert_eq!(
        check_hosts_permission(Err("Access is denied. (os error 5)".to_string())),
        Ok(false)
    );
    assert_eq!(
        check_hosts_permission(Err("No such file or directory (os error 2)".to_string())),
        Err(failure(ErrorKind::IOFailure, "No such file or directory (os error 2)"))
    );
}

#[test]
fn linux_flush_tries_the_resolvers_in_turn() {
    let (state, action) = flush_dns_cache(Platform::Linux, false, "alice");
    assert_eq!(state, FlushState { phase: FlushPhase::SystemdResolve, granted: false });
    assert_eq!(action, FlushAction::Run(command("systemd-resolve", &["--flush-caches"])));
    let (done, action) = flush_step(state, ran(true, ""));
    assert_eq!(done.phase, FlushPhase::Done);
    assert_eq!(action, FlushAction::Finish(Ok(FlushReport::FlushedBySystemdResolve)));

    let (state, action) = flush_step(state, Err("not found".to_string()));
    assert_eq!(state.phase, FlushPhase::Resolvectl);
    assert_eq!(action, FlushAction::Run(command("resolvectl", &["flush-caches"])));
    let (_, action) = flush_step(state, ran(true, ""));
    assert_eq!(action, FlushAction::Finish(Ok(FlushReport::FlushedByResolvectl)));

    let (state, action) = flush_step(state, ran(false, "failed"));
    assert_eq!(state.phase, FlushPhase::Nscd);
    assert_eq!(action, FlushAction::Run(command("pkexec", &["service", "nscd", "restart"])));
    let (state, action) = flush_step(state, ran(false, "whatever"));
    assert_eq!(action, FlushAction::Finish(Ok(FlushReport::Attempted)));
    assert_eq!(state.phase, FlushPhase::Done);
    let (_, action) = flush_step(state, ran(true, ""));
    assert_eq!(
        action,
        FlushAction::Finish(Err(failure(ErrorKind::WriteFailure, "unexpected event")))
    );
}

#[test]
fn windows_flush_is_one_command() {
    let (state, action) = flush_dns_cache(Platform::Windows, false, "alice");
    assert_eq!(state.phase, FlushPhase::Ipconfig);
    assert_eq!(action, FlushAction::Run(command("ipconfig", &["/flushdns"])));
    let (_, action) = flush_step(state, ran(true, ""));
    assert_eq!(action, FlushAction::Finish(Ok(FlushReport::Flushed)));
    let (_, action) = flush_step(state, ran(false, "boom"));
    assert_eq!(action, FlushAction::Finish(Err(failure(ErrorKind::WriteFailure, "boom"))));
    let (_, action) = flush_step(state, Err("missing".to_string()));
    assert_eq!(action, FlushAction::Finish(Err(failure(ErrorKind::WriteFailure, "missing"))));
}

#[test]
fn macos_flush_needs_privileges_first() {
    let (state, action) = flush_dns_cache(Platform::MacOs, false, "alice");
    assert_eq!(state, FlushState { phase: FlushPhase::Granting, granted: false });
    assert_eq!(action, FlushAction::Run(ensure_elevated(false, "alice").unwrap()));
    let (_, action) = flush_step(state, ran(false, "User canceled"));
    assert_eq!(
        action,
        FlushAction::Finish(Err(failure(ErrorKind::PermissionDenied, "User canceled")))
    );
    let (state, action) = flush_step(state, ran(true, ""));
    assert_eq!(state, FlushState { phase: FlushPhase::MacCache, granted: true });
    assert_eq!(action, FlushAction::Run(command("sudo", &["dscacheutil", "-flushcache"])));
    let (state, action) = flush_step(state, ran(false, "ignored"));
    assert_eq!(state, FlushState { phase: FlushPhase::MacResponder, granted: true });
    assert_eq!(action, FlushAction::Run(command("sudo", &["killall", "-HUP", "mDNSResponder"])));
    let (state, action) = flush_step(state, ran(true, ""));
    assert_eq!(state, FlushState { phase: FlushPhase::Done, granted: true });
    assert_eq!(action, FlushAction::Finish(Ok(FlushReport::Flushed)));

    let (state, action) = flush_dns_cache(Platform::MacOs, true, "alice");
    assert_eq!(state, FlushState { phase: FlushPhase::MacCache, granted: true });
    assert_eq!(action, FlushAction::Run(command("sudo", &["dscacheutil", "-flushcache"])));

    let (state, action) = flush_dns_cache(Platform::MacOs, false, "a b");
    assert_eq!(state.phase, FlushPhase::Done);
    assert_eq!(
        action,
        FlushAction::Finish(Err(failure(ErrorKind::WriteFailure, "unsafe user name")))
    );
}

#[test]
fn flush_reports_have_messages() {
    assert_eq!(FlushReport::Flushed.message(), "DNS cache flushed successfully");
    assert_eq!(
        FlushReport::FlushedBySystemdResolve.message(),
        "DNS cache flushed (systemd-resolved)"
    );
    assert_eq!(FlushReport::FlushedByResolvectl.message(), "DNS cache flushed (resolvectl)");
    assert_eq!(FlushReport::Attempted.message(), "DNS cache flush attempted");
}
