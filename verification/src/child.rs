//! The child-side sequencer: the state machine the duplicated process walks
//! from the frozen barrier wait to the replaced image, one directive at a
//! time, failing fast to a single reported error.
//!
//! The machine only decides; the unverified front end performs each directive
//! (a blocking read, a callback, the chroot, the exec) and feeds the outcome
//! back as a [`ChildEvent`].

use vstd::prelude::*;

use crate::report::ErrorReport;
use crate::report::Origin;
use crate::report::Stage;

verus! {

/// What the child has to do between fork and exec, read off the command:
/// which callback slots are occupied and whether a chroot target is
/// configured at all (when none is, the jail step is skipped entirely).
#[derive(Clone, Copy, Debug, PartialEq, Eq, Structural)]
pub struct ChildConfig {
    pub run_before_chroot: bool,
    pub do_chroot: bool,
    pub run_before_exec: bool,
}

/// The child's progress through the launch protocol.
///
/// The barrier is established before duplication completes, so every child
/// starts out frozen on it. The two `...HookDone` states sit between the
/// named stages: they record that a callback slot has been dealt with (run
/// successfully, or found empty) while the stage's own operation is still
/// ahead.
#[derive(Clone, Copy, Debug, PartialEq, Eq, Structural)]
pub enum ChildState {
    /// Blocked on the barrier until the parent releases it.
    Frozen,
    /// The parent released the barrier.
    Unfrozen,
    /// The `before_chroot` slot has been dealt with.
    ChrootHookDone,
    /// The chroot jail has been entered (or was not configured).
    Chrooted,
    /// The `before_exec` slot has been dealt with.
    ExecHookDone,
    /// Terminal success: the process image was replaced.
    Execd,
    /// Terminal failure: the child writes the record and exits at once.
    Failed(ErrorReport),
}

/// What the child observed while carrying out the current directive.
#[derive(Clone, Copy, Debug, PartialEq, Eq, Structural)]
pub enum ChildEvent {
    /// The barrier read returned: the parent released the child.
    Released,
    /// The `before_chroot` callback returned success.
    ChrootHookOk,
    /// The `before_chroot` callback failed with an OS error code.
    ChrootHookFailed(i32),
    /// No `before_chroot` callback is registered.
    ChrootHookAbsent,
    /// The chroot and the directory change into it succeeded.
    ChrootOk,
    /// The chroot (or the directory change into it) failed.
    ChrootFailed(i32),
    /// No chroot target is configured; the jail step is skipped.
    ChrootUnconfigured,
    /// The `before_exec` callback returned success.
    ExecHookOk,
    /// The `before_exec` callback failed with an OS error code.
    ExecHookFailed(i32),
    /// No `before_exec` callback is registered.
    ExecHookAbsent,
    /// The exec returned, which it only does on failure.
    ExecFailed(i32),
    /// The process image was replaced (notional: on success the old image
    /// never observes it; the model's terminal success).
    ImageReplaced,
}

/// The next piece of work the child must perform.
#[derive(Clone, Copy, Debug, PartialEq, Eq, Structural)]
pub enum ChildDirective {
    /// Block on the barrier until the parent writes to it.
    AwaitBarrier,
    /// Invoke the `before_chroot` callback.
    RunBeforeChroot,
    /// No `before_chroot` callback: proceed.
    SkipBeforeChroot,
    /// Chroot to the configured target and change directory into it.
    EnterChroot,
    /// No chroot target configured: proceed without a jail.
    SkipChroot,
    /// Invoke the `before_exec` callback.
    RunBeforeExec,
    /// No `before_exec` callback: proceed.
    SkipBeforeExec,
    /// Replace the process image with the target program.
    ReplaceImage,
    /// Encode the record, write it to the error channel in one write, and
    /// exit immediately — no cleanup, no further callbacks.
    ReportAndExit(ErrorReport),
}

/// Which events can arise in which state: each directive's outcomes fit
/// exactly the state that issued the directive. No transition skips a stage
/// and no stage is retried.
pub open spec fn spec_child_fits(s: ChildState, cfg: ChildConfig, e: ChildEvent) -> bool {
    match e {
        ChildEvent::Released => s is Frozen,
        ChildEvent::ChrootHookOk => s is Unfrozen && cfg.run_before_chroot,
        ChildEvent::ChrootHookFailed(_) => s is Unfrozen && cfg.run_before_chroot,
        ChildEvent::ChrootHookAbsent => s is Unfrozen && !cfg.run_before_chroot,
        ChildEvent::ChrootOk => s is ChrootHookDone && cfg.do_chroot,
        ChildEvent::ChrootFailed(_) => s is ChrootHookDone && cfg.do_chroot,
        ChildEvent::ChrootUnconfigured => s is ChrootHookDone && !cfg.do_chroot,
        ChildEvent::ExecHookOk => s is Chrooted && cfg.run_before_exec,
        ChildEvent::ExecHookFailed(_) => s is Chrooted && cfg.run_before_exec,
        ChildEvent::ExecHookAbsent => s is Chrooted && !cfg.run_before_exec,
        ChildEvent::ExecFailed(_) => s is ExecHookDone,
        ChildEvent::ImageReplaced => s is ExecHookDone,
    }
}

/// The state an event leads to.
pub open spec fn spec_child_next(e: ChildEvent) -> ChildState {
    match e {
        ChildEvent::Released => ChildState::Unfrozen,
        ChildEvent::ChrootHookOk => ChildState::ChrootHookDone,
        ChildEvent::ChrootHookFailed(c) => ChildState::Failed(
            ErrorReport { stage: Stage::Chroot, origin: Origin::Callback, code: c },
        ),
        ChildEvent::ChrootHookAbsent => ChildState::ChrootHookDone,
        ChildEvent::ChrootOk => ChildState::Chrooted,
        ChildEvent::ChrootFailed(c) => ChildState::Failed(
            ErrorReport { stage: Stage::Chroot, origin: Origin::Operation, code: c },
        ),
        ChildEvent::ChrootUnconfigured => ChildState::Chrooted,
        ChildEvent::ExecHookOk => ChildState::ExecHookDone,
        ChildEvent::ExecHookFailed(c) => ChildState::Failed(
            ErrorReport { stage: Stage::Exec, origin: Origin::Callback, code: c },
        ),
        ChildEvent::ExecHookAbsent => ChildState::ExecHookDone,
        ChildEvent::ExecFailed(c) => ChildState::Failed(
            ErrorReport { stage: Stage::Exec, origin: Origin::Operation, code: c },
        ),
        ChildEvent::ImageReplaced => ChildState::Execd,
    }
}

/// Advance the child machine by one observed event.
pub fn child_advance(e: &ChildEvent) -> (t: ChildState)
    ensures
        t == spec_child_next(*e),
{
    match e {
        ChildEvent::Released => ChildState::Unfrozen,
        ChildEvent::ChrootHookOk => ChildState::ChrootHookDone,
        ChildEvent::ChrootHookFailed(c) => ChildState::Failed(
            ErrorReport { stage: Stage::Chroot, origin: Origin::Callback, code: *c },
        ),
        ChildEvent::ChrootHookAbsent => ChildState::ChrootHookDone,
        ChildEvent::ChrootOk => ChildState::Chrooted,
        ChildEvent::ChrootFailed(c) => ChildState::Failed(
            ErrorReport { stage: Stage::Chroot, origin: Origin::Operation, code: *c },
        ),
        ChildEvent::ChrootUnconfigured => ChildState::Chrooted,
        ChildEvent::ExecHookOk => ChildState::ExecHookDone,
        ChildEvent::ExecHookFailed(c) => ChildState::Failed(
            ErrorReport { stage: Stage::Exec, origin: Origin::Callback, code: *c },
        ),
        ChildEvent::ExecHookAbsent => ChildState::ExecHookDone,
        ChildEvent::ExecFailed(c) => ChildState::Failed(
            ErrorReport { stage: Stage::Exec, origin: Origin::Operation, code: *c },
        ),
        ChildEvent::ImageReplaced => ChildState::Execd,
    }
}

/// The directive each state issues. `None` only once the image is replaced:
/// the old image has nothing left to do.
pub open spec fn spec_child_directive(s: ChildState, cfg: ChildConfig) -> Option<ChildDirective> {
    match s {
        ChildState::Frozen => Some(ChildDirective::AwaitBarrier),
        ChildState::Unfrozen => if cfg.run_before_chroot {
            Some(ChildDirective::RunBeforeChroot)
        } else {
            Some(ChildDirective::SkipBeforeChroot)
        },
        ChildState::ChrootHookDone => if cfg.do_chroot {
            Some(ChildDirective::EnterChroot)
        } else {
            Some(ChildDirective::SkipChroot)
        },
        ChildState::Chrooted => if cfg.run_before_exec {
            Some(ChildDirective::RunBeforeExec)
        } else {
            Some(ChildDirective::SkipBeforeExec)
        },
        ChildState::ExecHookDone => Some(ChildDirective::ReplaceImage),
        ChildState::Execd => None,
        ChildState::Failed(rep) => Some(ChildDirective::ReportAndExit(rep)),
    }
}

/// What the child must do next in the given state.
pub fn child_directive(s: &ChildState, cfg: &ChildConfig) -> (d: Option<ChildDirective>)
    ensures
        d == spec_child_directive(*s, *cfg),
{
    match s {
        ChildState::Frozen => Some(ChildDirective::AwaitBarrier),
        ChildState::Unfrozen => if cfg.run_before_chroot {
            Some(ChildDirective::RunBeforeChroot)
        } else {
            Some(ChildDirective::SkipBeforeChroot)
        },
        ChildState::ChrootHookDone => if cfg.do_chroot {
            Some(ChildDirective::EnterChroot)
        } else {
            Some(ChildDirective::SkipChroot)
        },
        ChildState::Chrooted => if cfg.run_before_exec {
            Some(ChildDirective::RunBeforeExec)
        } else {
            Some(ChildDirective::SkipBeforeExec)
        },
        ChildState::ExecHookDone => Some(ChildDirective::ReplaceImage),
        ChildState::Execd => None,
        ChildState::Failed(rep) => Some(ChildDirective::ReportAndExit(*rep)),
    }
}

/// Terminal states: the protocol is over for the child.
pub open spec fn spec_child_terminal(s: ChildState) -> bool {
    s is Execd || s is Failed
}

/// Is the protocol over for the child?
pub fn child_terminal(s: &ChildState) -> (b: bool)
    ensures
        b == spec_child_terminal(*s),
{
    match s {
        ChildState::Execd => true,
        ChildState::Failed(_) => true,
        _ => false,
    }
}

/// The state a run of events leads to.
pub open spec fn spec_child_run(s: ChildState, cfg: ChildConfig, es: Seq<ChildEvent>) -> ChildState
    decreases es.len(),
{
    if es.len() == 0 {
        s
    } else {
        spec_child_run(spec_child_next(es[0]), cfg, es.drop_first())
    }
}

/// A run is valid when every event fits the state it meets.
pub open spec fn spec_child_run_valid(
    s: ChildState,
    cfg: ChildConfig,
    es: Seq<ChildEvent>,
) -> bool
    decreases es.len(),
{
    es.len() == 0 || (spec_child_fits(s, cfg, es[0]) && spec_child_run_valid(
        spec_child_next(es[0]),
        cfg,
        es.drop_first(),
    ))
}

/// The state after the first `i` events of a run that starts frozen.
pub open spec fn spec_child_state_at(cfg: ChildConfig, es: Seq<ChildEvent>, i: int) -> ChildState {
    spec_child_run(ChildState::Frozen, cfg, es.take(i))
}

/// How far along the protocol a state is; used to show that valid runs walk
/// the stages strictly in order.
pub open spec fn spec_child_rank(s: ChildState) -> int {
    match s {
        ChildState::Frozen => 0,
        ChildState::Unfrozen => 1,
        ChildState::ChrootHookDone => 2,
        ChildState::Chrooted => 3,
        ChildState::ExecHookDone => 4,
        ChildState::Execd => 5,
        ChildState::Failed(_) => 6,
    }
}

proof fn lemma_child_run_last(s: ChildState, cfg: ChildConfig, es: Seq<ChildEvent>)
    requires
        es.len() > 0,
    ensures
        spec_child_run(s, cfg, es) == spec_child_next(es.last()),
    decreases es.len(),
{
    if es.len() > 1 {
        lemma_child_run_last(spec_child_next(es[0]), cfg, es.drop_first());
        assert(es.drop_first().last() == es.last());
    } else {
        assert(es.drop_first().len() == 0);
        assert(spec_child_run(spec_child_next(es[0]), cfg, es.drop_first()) == spec_child_next(
            es[0],
        ));
    }
}

proof fn lemma_child_fits_at(s: ChildState, cfg: ChildConfig, es: Seq<ChildEvent>, i: int)
    requires
        spec_child_run_valid(s, cfg, es),
        0 <= i < es.len(),
    ensures
        spec_child_fits(spec_child_run(s, cfg, es.take(i)), cfg, es[i]),
    decreases es.len(),
{
    if i == 0 {
        assert(es.take(0) =~= Seq::<ChildEvent>::empty());
    } else {
        let s1 = spec_child_next(es[0]);
        lemma_child_fits_at(s1, cfg, es.drop_first(), i - 1);
        assert(es.drop_first().take(i - 1) =~= es.take(i).drop_first());
        assert(es.take(i)[0] == es[0]);
        assert(es.drop_first()[i - 1] == es[i]);
    }
}

/// In a valid run that starts frozen, the state after `i` events is not yet
/// terminal as long as events remain, and sits exactly `i` stages along: no
/// transition skips a stage and no stage is retried.
pub proof fn lemma_child_rank_at(cfg: ChildConfig, es: Seq<ChildEvent>, i: int)
    requires
        spec_child_run_valid(ChildState::Frozen, cfg, es),
        0 <= i < es.len(),
    ensures
        !spec_child_terminal(spec_child_state_at(cfg, es, i)),
        spec_child_rank(spec_child_state_at(cfg, es, i)) == i,
    decreases i,
{
    lemma_child_fits_at(ChildState::Frozen, cfg, es, i);
    if i == 0 {
        assert(es.take(0) =~= Seq::<ChildEvent>::empty());
    } else {
        lemma_child_rank_at(cfg, es, i - 1);
        lemma_child_fits_at(ChildState::Frozen, cfg, es, i - 1);
        lemma_child_run_last(ChildState::Frozen, cfg, es.take(i));
        assert(es.take(i).last() == es[i - 1]);
    }
}

/// Every event of a valid run belongs to the stage its index names: first
/// the release, then the `before_chroot` slot, then the chroot, then the
/// `before_exec` slot, then the exec — the total order the protocol
/// promises. A run holds at most these five events.
pub open spec fn spec_child_stage_of_event(e: ChildEvent) -> int {
    match e {
        ChildEvent::Released => 0,
        ChildEvent::ChrootHookOk => 1,
        ChildEvent::ChrootHookFailed(_) => 1,
        ChildEvent::ChrootHookAbsent => 1,
        ChildEvent::ChrootOk => 2,
        ChildEvent::ChrootFailed(_) => 2,
        ChildEvent::ChrootUnconfigured => 2,
        ChildEvent::ExecHookOk => 3,
        ChildEvent::ExecHookFailed(_) => 3,
        ChildEvent::ExecHookAbsent => 3,
        ChildEvent::ExecFailed(_) => 4,
        ChildEvent::ImageReplaced => 4,
    }
}

/// The total order of the child protocol: in any valid run the barrier
/// release comes first, the `before_chroot` slot second, the chroot third,
/// the `before_exec` slot fourth and the exec last; nothing is repeated.
pub proof fn lemma_child_event_order(cfg: ChildConfig, es: Seq<ChildEvent>)
    requires
        spec_child_run_valid(ChildState::Frozen, cfg, es),
    ensures
        es.len() <= 5,
        forall|j: int| #![auto]
            0 <= j < es.len() ==> spec_child_stage_of_event(es[j]) == j,
{
    assert forall|j: int| #![auto] 0 <= j < es.len() implies spec_child_stage_of_event(es[j])
        == j by {
        lemma_child_rank_at(cfg, es, j);
        lemma_child_fits_at(ChildState::Frozen, cfg, es, j);
    }
    if es.len() > 5 {
        lemma_child_rank_at(cfg, es, 5);
    }
}

/// An unreleased child is inert: a valid run in which the barrier is never
/// released holds no events at all — no callback runs, no stage is
/// attempted, and the child is still frozen.
pub proof fn lemma_unreleased_child_is_inert(cfg: ChildConfig, es: Seq<ChildEvent>)
    requires
        spec_child_run_valid(ChildState::Frozen, cfg, es),
        !es.contains(ChildEvent::Released),
    ensures
        es.len() == 0,
        spec_child_run(ChildState::Frozen, cfg, es) == ChildState::Frozen,
{
    if es.len() > 0 {
        assert(spec_child_fits(ChildState::Frozen, cfg, es[0]));
        assert(es[0] == ChildEvent::Released);
        assert(es.contains(ChildEvent::Released));
    }
}

/// If `before_chroot` fails, the chroot is never attempted and
/// `before_exec` never runs: the failure is the last event of the run, the
/// only event before it is the barrier release, and the child ends failed
/// with a chroot-stage callback record.
pub proof fn lemma_chroot_hook_failure_stops_child(
    cfg: ChildConfig,
    es: Seq<ChildEvent>,
    i: int,
    c: i32,
)
    requires
        spec_child_run_valid(ChildState::Frozen, cfg, es),
        0 <= i < es.len(),
        es[i] == ChildEvent::ChrootHookFailed(c),
    ensures
        i == 1,
        es.len() == 2,
        es[0] == ChildEvent::Released,
        spec_child_run(ChildState::Frozen, cfg, es) == ChildState::Failed(
            ErrorReport { stage: Stage::Chroot, origin: Origin::Callback, code: c },
        ),
        forall|j: int| #![auto]
            0 <= j < es.len() ==> !(es[j] is ChrootOk || es[j] is ChrootFailed || es[j] is ExecHookOk
                || es[j] is ExecHookFailed || es[j] is ExecFailed || es[j] is ImageReplaced),
{
    lemma_child_rank_at(cfg, es, i);
    lemma_child_fits_at(ChildState::Frozen, cfg, es, i);
    if es.len() > 2 {
        lemma_child_rank_at(cfg, es, 2);
        lemma_child_run_last(ChildState::Frozen, cfg, es.take(2));
        assert(es.take(2).last() == es[1]);
    }
    lemma_child_rank_at(cfg, es, 0);
    lemma_child_fits_at(ChildState::Frozen, cfg, es, 0);
    assert(es.take(0) =~= Seq::<ChildEvent>::empty());
    lemma_child_run_last(ChildState::Frozen, cfg, es);
    assert(es.last() == es[1]);
}

/// If `before_exec` fails, the exec is never attempted: the failure is the
/// last event of the run and the child ends failed with an exec-stage
/// callback record.
pub proof fn lemma_exec_hook_failure_stops_child(
    cfg: ChildConfig,
    es: Seq<ChildEvent>,
    i: int,
    c: i32,
)
    requires
        spec_child_run_valid(ChildState::Frozen, cfg, es),
        0 <= i < es.len(),
        es[i] == ChildEvent::ExecHookFailed(c),
    ensures
        i == 3,
        es.len() == 4,
        spec_child_run(ChildState::Frozen, cfg, es) == ChildState::Failed(
            ErrorReport { stage: Stage::Exec, origin: Origin::Callback, code: c },
        ),
        forall|j: int| #![auto]
            0 <= j < es.len() ==> !(es[j] is ExecFailed || es[j] is ImageReplaced),
{
    lemma_child_event_order(cfg, es);
    lemma_child_rank_at(cfg, es, i);
    lemma_child_fits_at(ChildState::Frozen, cfg, es, i);
    if es.len() > 4 {
        lemma_child_rank_at(cfg, es, 4);
        lemma_child_run_last(ChildState::Frozen, cfg, es.take(4));
        assert(es.take(4).last() == es[3]);
    }
    lemma_child_run_last(ChildState::Frozen, cfg, es);
    assert(es.last() == es[3]);
}

/// If `before_chroot` succeeds and a chroot target is configured, the
/// chroot is attempted — and has succeeded — strictly before the
/// `before_exec` slot is dealt with, whatever the target path is.
pub proof fn lemma_chroot_precedes_exec_hook(cfg: ChildConfig, es: Seq<ChildEvent>, i: int)
    requires
        spec_child_run_valid(ChildState::Frozen, cfg, es),
        0 <= i < es.len(),
        cfg.do_chroot,
        es[i] is ExecHookOk || es[i] is ExecHookFailed || es[i] is ExecHookAbsent,
    ensures
        i == 3,
        es[2] == ChildEvent::ChrootOk,
        es[1] is ChrootHookOk || es[1] is ChrootHookAbsent,
        es[0] == ChildEvent::Released,
{
    lemma_child_rank_at(cfg, es, i);
    lemma_child_fits_at(ChildState::Frozen, cfg, es, i);
    lemma_child_rank_at(cfg, es, 0);
    lemma_child_fits_at(ChildState::Frozen, cfg, es, 0);
    assert(es.take(0) =~= Seq::<ChildEvent>::empty());
    lemma_child_rank_at(cfg, es, 1);
    lemma_child_fits_at(ChildState::Frozen, cfg, es, 1);
    lemma_child_rank_at(cfg, es, 2);
    lemma_child_fits_at(ChildState::Frozen, cfg, es, 2);
    lemma_child_rank_at(cfg, es, 3);
    lemma_child_run_last(ChildState::Frozen, cfg, es.take(2));
    assert(es.take(2).last() == es[1]);
    lemma_child_run_last(ChildState::Frozen, cfg, es.take(3));
    assert(es.take(3).last() == es[2]);
}

/// A spawn with no callbacks registered cannot fail in a callback: with
/// both child-side slots empty and every operation succeeding, no state
/// along the run is failed, the child never directs a record write, and a
/// finished run ends with the image replaced.
pub proof fn lemma_no_callbacks_clean_run(cfg: ChildConfig, es: Seq<ChildEvent>)
    requires
        spec_child_run_valid(ChildState::Frozen, cfg, es),
        !cfg.run_before_chroot,
        !cfg.run_before_exec,
        forall|j: int| #![auto]
            0 <= j < es.len() ==> !(es[j] is ChrootFailed || es[j] is ExecFailed),
    ensures
        forall|j: int| #![auto]
            0 <= j <= es.len() ==> !(spec_child_state_at(cfg, es, j) is Failed),
        forall|j: int|
            0 <= j <= es.len() ==> !(spec_child_directive(
                #[trigger] spec_child_state_at(cfg, es, j),
                cfg,
            ) matches Some(ChildDirective::ReportAndExit(_))),
        spec_child_terminal(spec_child_run(ChildState::Frozen, cfg, es)) ==> spec_child_run(
            ChildState::Frozen,
            cfg,
            es,
        ) is Execd,
{
    assert forall|j: int| #![auto] 0 <= j <= es.len() implies !(spec_child_state_at(cfg, es, j)
        is Failed) by {
        if j < es.len() {
            lemma_child_rank_at(cfg, es, j);
        } else {
            assert(es.take(j) =~= es);
            if es.len() > 0 {
                let k = es.len() - 1;
                lemma_child_rank_at(cfg, es, k);
                lemma_child_fits_at(ChildState::Frozen, cfg, es, k);
                lemma_child_run_last(ChildState::Frozen, cfg, es);
            }
        }
    }
    assert(es.take(es.len() as int) =~= es);
    assert(spec_child_state_at(cfg, es, es.len() as int) == spec_child_run(
        ChildState::Frozen,
        cfg,
        es,
    ));
    assert(!(spec_child_state_at(cfg, es, es.len() as int) is Failed));
}

} // verus!
