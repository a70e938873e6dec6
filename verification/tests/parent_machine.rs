use unshare::parent::ParentConfig;
use unshare::parent::ParentDirective;
use unshare::parent::ParentEvent;
use unshare::parent::ParentState;
use unshare::parent::parent_advance;
use unshare::parent::parent_directive;
use unshare::parent::parent_terminal;
use unshare::report::ChannelRead;
use unshare::report::ErrorReport;
use unshare::report::Origin;
use unshare::report::SpawnError;
use unshare::report::Stage;
use unshare::report::encode_report;

/// Walk the parent machine through the given events, collecting every
/// directive it issues along the way (including the one pending at the end).
fn drive(cfg: &ParentConfig, events: Vec<ParentEvent>) -> (Vec<ParentDirective>, ParentState) {
    let mut state = ParentState::Duplicated;
    let mut directives = Vec::new();
    for e in events {
        if let Some(d) = parent_directive(&state, cfg) {
            directives.push(d);
        }
        state = parent_advance(&state, &e);
    }
    if let Some(d) = parent_directive(&state, cfg) {
        directives.push(d);
    }
    (directives, state)
}

#[test]
fn unfreeze_callback_failure_tears_down_without_release() {
    // A `before_unfreeze` callback failing with code 13 (permission
    // denied): the spawn surfaces exactly that error, the barrier is never
    // released, and the child is torn down — it no longer exists afterward.
    let cfg = ParentConfig { run_before_unfreeze: true };
    let events = vec![ParentEvent::MapsOk, ParentEvent::HookFailed(13), ParentEvent::ChildTornDown];
    let (directives, state) = drive(&cfg, events);
    assert_eq!(state, ParentState::Settled(Err(SpawnError::UnfreezeCallback { code: 13 })));
    assert!(parent_terminal(&state));
    assert!(!directives.contains(&ParentDirective::ReleaseBarrier));
    assert!(directives.contains(&ParentDirective::TearDownChild));
    assert_eq!(
        directives,
        vec![
            ParentDirective::WriteMappings,
            ParentDirective::RunBeforeUnfreeze,
            ParentDirective::TearDownChild,
        ]
    );
}

#[test]
fn mapping_failure_tears_down_without_callback_or_release() {
    let cfg = ParentConfig { run_before_unfreeze: true };
    let events = vec![ParentEvent::MapsFailed(22), ParentEvent::ChildTornDown];
    let (directives, state) = drive(&cfg, events);
    assert_eq!(state, ParentState::Settled(Err(SpawnError::Setup { code: 22 })));
    assert!(!directives.contains(&ParentDirective::RunBeforeUnfreeze));
    assert!(!directives.contains(&ParentDirective::ReleaseBarrier));
    assert!(directives.contains(&ParentDirective::TearDownChild));
}

#[test]
fn release_comes_only_after_hook_passes() {
    let cfg = ParentConfig { run_before_unfreeze: true };
    let events = vec![
        ParentEvent::MapsOk,
        ParentEvent::HookOk,
        ParentEvent::BarrierReleased,
        ParentEvent::Channel(ChannelRead::Closed { exec_observed: true }),
    ];
    let (directives, state) = drive(&cfg, events);
    assert_eq!(state, ParentState::Settled(Ok(())));
    assert_eq!(
        directives,
        vec![
            ParentDirective::WriteMappings,
            ParentDirective::RunBeforeUnfreeze,
            ParentDirective::ReleaseBarrier,
            ParentDirective::AwaitChild,
        ]
    );
}

#[test]
fn child_killed_externally_is_unknown_termination() {
    // The child dies between the release and its own report: the channel
    // closes without a record and without an observed exec, and the spawn
    // returns the unknown-early-termination error instead of hanging.
    let cfg = ParentConfig { run_before_unfreeze: false };
    let events = vec![
        ParentEvent::MapsOk,
        ParentEvent::HookAbsent,
        ParentEvent::BarrierReleased,
        ParentEvent::Channel(ChannelRead::Closed { exec_observed: false }),
    ];
    let (_, state) = drive(&cfg, events);
    assert_eq!(state, ParentState::Settled(Err(SpawnError::UnknownEarlyTermination)));
}

#[test]
fn child_record_surfaces_as_typed_error() {
    let cfg = ParentConfig { run_before_unfreeze: false };
    let rep = ErrorReport { stage: Stage::Exec, origin: Origin::Callback, code: 5 };
    let events = vec![
        ParentEvent::MapsOk,
        ParentEvent::HookAbsent,
        ParentEvent::BarrierReleased,
        ParentEvent::Channel(ChannelRead::Data(encode_report(&rep))),
    ];
    let (_, state) = drive(&cfg, events);
    assert_eq!(state, ParentState::Settled(Err(SpawnError::ExecCallback { code: 5 })));
}

#[test]
fn release_write_failure_aborts_as_unknown() {
    let cfg = ParentConfig { run_before_unfreeze: false };
    let events = vec![
        ParentEvent::MapsOk,
        ParentEvent::HookAbsent,
        ParentEvent::ReleaseFailed(32),
        ParentEvent::ChildTornDown,
    ];
    let (directives, state) = drive(&cfg, events);
    assert_eq!(state, ParentState::Settled(Err(SpawnError::UnknownEarlyTermination)));
    assert!(directives.contains(&ParentDirective::TearDownChild));
}
