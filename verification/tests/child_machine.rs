use unshare::child::ChildConfig;
use unshare::child::ChildDirective;
use unshare::child::ChildEvent;
use unshare::child::ChildState;
use unshare::child::child_advance;
use unshare::child::child_directive;
use unshare::child::child_terminal;
use unshare::report::ChannelRead;
use unshare::report::ErrorReport;
use unshare::report::Origin;
use unshare::report::SpawnError;
use unshare::report::Stage;
use unshare::report::encode_report;
use unshare::report::interpret_channel;

/// Walk the child machine through the given events, collecting every
/// directive it issues along the way (including the one pending at the end).
fn drive(cfg: &ChildConfig, events: &[ChildEvent]) -> (Vec<ChildDirective>, ChildState) {
    let mut state = ChildState::Frozen;
    let mut directives = Vec::new();
    for e in events {
        if let Some(d) = child_directive(&state, cfg) {
            directives.push(d);
        }
        state = child_advance(e);
    }
    if let Some(d) = child_directive(&state, cfg) {
        directives.push(d);
    }
    (directives, state)
}

fn never_reports(directives: &[ChildDirective]) -> bool {
    directives.iter().all(|d| !matches!(d, ChildDirective::ReportAndExit(_)))
}

#[test]
fn no_callbacks_reaches_execd_without_report() {
    let cfg = ChildConfig { run_before_chroot: false, do_chroot: true, run_before_exec: false };
    let events = [
        ChildEvent::Released,
        ChildEvent::ChrootHookAbsent,
        ChildEvent::ChrootOk,
        ChildEvent::ExecHookAbsent,
        ChildEvent::ImageReplaced,
    ];
    let (directives, state) = drive(&cfg, &events);
    assert_eq!(state, ChildState::Execd);
    assert!(child_terminal(&state));
    assert_eq!(
        directives,
        vec![
            ChildDirective::AwaitBarrier,
            ChildDirective::SkipBeforeChroot,
            ChildDirective::EnterChroot,
            ChildDirective::SkipBeforeExec,
            ChildDirective::ReplaceImage,
        ]
    );
    assert!(never_reports(&directives));
}

#[test]
fn all_hooks_success_orders_chroot_before_exec_hook() {
    let cfg = ChildConfig { run_before_chroot: true, do_chroot: true, run_before_exec: true };
    let events = [
        ChildEvent::Released,
        ChildEvent::ChrootHookOk,
        ChildEvent::ChrootOk,
        ChildEvent::ExecHookOk,
        ChildEvent::ImageReplaced,
    ];
    let (directives, state) = drive(&cfg, &events);
    assert_eq!(state, ChildState::Execd);
    assert_eq!(
        directives,
        vec![
            ChildDirective::AwaitBarrier,
            ChildDirective::RunBeforeChroot,
            ChildDirective::EnterChroot,
            ChildDirective::RunBeforeExec,
            ChildDirective::ReplaceImage,
        ]
    );
}

#[test]
fn chroot_hook_failure_stops_before_chroot() {
    let cfg = ChildConfig { run_before_chroot: true, do_chroot: true, run_before_exec: true };
    let events = [ChildEvent::Released, ChildEvent::ChrootHookFailed(13)];
    let (directives, state) = drive(&cfg, &events);
    let rep = ErrorReport { stage: Stage::Chroot, origin: Origin::Callback, code: 13 };
    assert_eq!(state, ChildState::Failed(rep));
    assert!(!directives.contains(&ChildDirective::EnterChroot));
    assert!(!directives.contains(&ChildDirective::RunBeforeExec));
    assert!(!directives.contains(&ChildDirective::ReplaceImage));
    assert!(directives.contains(&ChildDirective::ReportAndExit(rep)));
}

#[test]
fn chroot_syscall_failure_reports_and_skips_exec_hook() {
    // `before_chroot` succeeds, the chroot target is an invalid path: the
    // chroot itself fails, the spawn surfaces the OS code, and the
    // `before_exec` callback is never directed (so a side-effect flag it
    // would set stays unset).
    let cfg = ChildConfig { run_before_chroot: true, do_chroot: true, run_before_exec: true };
    let events = [ChildEvent::Released, ChildEvent::ChrootHookOk, ChildEvent::ChrootFailed(2)];
    let (directives, state) = drive(&cfg, &events);
    let rep = ErrorReport { stage: Stage::Chroot, origin: Origin::Operation, code: 2 };
    assert_eq!(state, ChildState::Failed(rep));

    let mut exec_hook_ran = false;
    for d in &directives {
        if *d == ChildDirective::RunBeforeExec {
            exec_hook_ran = true;
        }
    }
    assert!(!exec_hook_ran);

    // What the parent makes of the record the failed child writes.
    let outcome = interpret_channel(&ChannelRead::Data(encode_report(&rep)));
    assert_eq!(outcome, Err(SpawnError::ChrootSyscall { code: 2 }));
}

#[test]
fn exec_hook_failure_stops_before_exec() {
    let cfg = ChildConfig { run_before_chroot: true, do_chroot: true, run_before_exec: true };
    let events = [
        ChildEvent::Released,
        ChildEvent::ChrootHookOk,
        ChildEvent::ChrootOk,
        ChildEvent::ExecHookFailed(5),
    ];
    let (directives, state) = drive(&cfg, &events);
    let rep = ErrorReport { stage: Stage::Exec, origin: Origin::Callback, code: 5 };
    assert_eq!(state, ChildState::Failed(rep));
    assert!(!directives.contains(&ChildDirective::ReplaceImage));
    assert!(directives.contains(&ChildDirective::ReportAndExit(rep)));
}

#[test]
fn exec_syscall_failure_reports_exec_stage() {
    let cfg = ChildConfig { run_before_chroot: false, do_chroot: false, run_before_exec: false };
    let events = [
        ChildEvent::Released,
        ChildEvent::ChrootHookAbsent,
        ChildEvent::ChrootUnconfigured,
        ChildEvent::ExecHookAbsent,
        ChildEvent::ExecFailed(8),
    ];
    let (directives, state) = drive(&cfg, &events);
    let rep = ErrorReport { stage: Stage::Exec, origin: Origin::Operation, code: 8 };
    assert_eq!(state, ChildState::Failed(rep));
    assert!(directives.contains(&ChildDirective::SkipChroot));
    assert!(!directives.contains(&ChildDirective::EnterChroot));
    assert!(directives.contains(&ChildDirective::ReportAndExit(rep)));
}

#[test]
fn frozen_child_only_waits() {
    let cfg = ChildConfig { run_before_chroot: true, do_chroot: true, run_before_exec: true };
    let (directives, state) = drive(&cfg, &[]);
    assert_eq!(state, ChildState::Frozen);
    assert!(!child_terminal(&state));
    assert_eq!(directives, vec![ChildDirective::AwaitBarrier]);
}
