//! The parent-side sequencer: after duplication the parent writes the
//! uid/gid mappings for the frozen child, runs the `before_unfreeze`
//! callback, releases the barrier, and then awaits the child's outcome on
//! the error channel. Any parent-side failure tears the child down before it
//! was ever released.
//!
//! The machine only decides; the unverified front end performs each
//! directive and feeds the outcome back as a [`ParentEvent`].

use vstd::prelude::*;

use crate::report::ChannelRead;
use crate::report::SpawnError;
use crate::report::spec_interpret_channel;

verus! {

/// What the parent has to do for this spawn: whether a `before_unfreeze`
/// callback is registered.
#[derive(Clone, Copy, Debug, PartialEq, Eq, Structural)]
pub struct ParentConfig {
    pub run_before_unfreeze: bool,
}

/// The parent's progress through the launch protocol.
#[derive(Clone, Copy, Debug, PartialEq, Eq)]
pub enum ParentState {
    /// The process was duplicated; the child sits frozen on the barrier.
    Duplicated,
    /// The uid/gid mappings were written for the child.
    MapsWritten,
    /// The `before_unfreeze` slot has been dealt with (run, or found empty).
    HookPassed,
    /// The barrier was released; the child is on its way to the exec.
    Released,
    /// A parent-side step failed before the release: the still-frozen child
    /// must be torn down, then the error returned.
    Aborting(SpawnError),
    /// The spawn resolved, successfully or with the error to surface.
    Settled(Result<(), SpawnError>),
}

/// What the parent observed while carrying out the current directive.
pub enum ParentEvent {
    /// The uid/gid mappings were written successfully.
    MapsOk,
    /// Writing the uid/gid mappings failed with an OS error code.
    MapsFailed(i32),
    /// The `before_unfreeze` callback returned success.
    HookOk,
    /// The `before_unfreeze` callback failed with an OS error code.
    HookFailed(i32),
    /// No `before_unfreeze` callback is registered.
    HookAbsent,
    /// The one-byte barrier write went through: the child is released.
    BarrierReleased,
    /// The barrier write failed: the child is already gone, so nothing was
    /// released and the spawn ends as an unknown early termination.
    ReleaseFailed(i32),
    /// The child was forcibly terminated and reaped.
    ChildTornDown,
    /// The error channel read returned.
    Channel(ChannelRead),
}

/// The next piece of work the parent must perform.
#[derive(Clone, Copy, Debug, PartialEq, Eq, Structural)]
pub enum ParentDirective {
    /// Write the uid/gid mapping tables for the child.
    WriteMappings,
    /// Invoke the `before_unfreeze` callback with the child's identifier.
    RunBeforeUnfreeze,
    /// No `before_unfreeze` callback: proceed.
    SkipBeforeUnfreeze,
    /// Write the one barrier byte that releases the child.
    ReleaseBarrier,
    /// Block on the error channel until a record arrives or it closes.
    AwaitChild,
    /// Forcibly terminate the never-released child and reap it.
    TearDownChild,
}

/// Which events can arise in which state.
pub open spec fn spec_parent_fits(s: ParentState, cfg: ParentConfig, e: ParentEvent) -> bool {
    match e {
        ParentEvent::MapsOk => s is Duplicated,
        ParentEvent::MapsFailed(_) => s is Duplicated,
        ParentEvent::HookOk => s is MapsWritten && cfg.run_before_unfreeze,
        ParentEvent::HookFailed(_) => s is MapsWritten && cfg.run_before_unfreeze,
        ParentEvent::HookAbsent => s is MapsWritten && !cfg.run_before_unfreeze,
        ParentEvent::BarrierReleased => s is HookPassed,
        ParentEvent::ReleaseFailed(_) => s is HookPassed,
        ParentEvent::ChildTornDown => s is Aborting,
        ParentEvent::Channel(_) => s is Released,
    }
}

/// The state an event leads to.
pub open spec fn spec_parent_next(s: ParentState, e: ParentEvent) -> ParentState {
    match e {
        ParentEvent::MapsOk => ParentState::MapsWritten,
        ParentEvent::MapsFailed(c) => ParentState::Aborting(SpawnError::Setup { code: c }),
        ParentEvent::HookOk => ParentState::HookPassed,
        ParentEvent::HookFailed(c) => ParentState::Aborting(
            SpawnError::UnfreezeCallback { code: c },
        ),
        ParentEvent::HookAbsent => ParentState::HookPassed,
        ParentEvent::BarrierReleased => ParentState::Released,
        ParentEvent::ReleaseFailed(_) => ParentState::Aborting(
            SpawnError::UnknownEarlyTermination,
        ),
        ParentEvent::ChildTornDown => match s {
            ParentState::Aborting(err) => ParentState::Settled(Err(err)),
            _ => s,
        },
        ParentEvent::Channel(r) => ParentState::Settled(spec_interpret_channel(r)),
    }
}

/// Advance the parent machine by one observed event.
pub fn parent_advance(s: &ParentState, e: &ParentEvent) -> (t: ParentState)
    ensures
        t == spec_parent_next(*s, *e),
{
    match e {
        ParentEvent::MapsOk => ParentState::MapsWritten,
        ParentEvent::MapsFailed(c) => ParentState::Aborting(SpawnError::Setup { code: *c }),
        ParentEvent::HookOk => ParentState::HookPassed,
        ParentEvent::HookFailed(c) => ParentState::Aborting(
            SpawnError::UnfreezeCallback { code: *c },
        ),
        ParentEvent::HookAbsent => ParentState::HookPassed,
        ParentEvent::BarrierReleased => ParentState::Released,
        ParentEvent::ReleaseFailed(_) => ParentState::Aborting(
            SpawnError::UnknownEarlyTermination,
        ),
        ParentEvent::ChildTornDown => match s {
            ParentState::Aborting(err) => ParentState::Settled(Err(*err)),
            _ => *s,
        },
        ParentEvent::Channel(r) => ParentState::Settled(crate::report::interpret_channel(r)),
    }
}

/// The directive each state issues. `None` once the spawn has settled.
pub open spec fn spec_parent_directive(s: ParentState, cfg: ParentConfig) -> Option<
    ParentDirective,
> {
    match s {
        ParentState::Duplicated => Some(ParentDirective::WriteMappings),
        ParentState::MapsWritten => if cfg.run_before_unfreeze {
            Some(ParentDirective::RunBeforeUnfreeze)
        } else {
            Some(ParentDirective::SkipBeforeUnfreeze)
        },
        ParentState::HookPassed => Some(ParentDirective::ReleaseBarrier),
        ParentState::Released => Some(ParentDirective::AwaitChild),
        ParentState::Aborting(_) => Some(ParentDirective::TearDownChild),
        ParentState::Settled(_) => None,
    }
}

/// What the parent must do next in the given state.
pub fn parent_directive(s: &ParentState, cfg: &ParentConfig) -> (d: Option<ParentDirective>)
    ensures
        d == spec_parent_directive(*s, *cfg),
{
    match s {
        ParentState::Duplicated => Some(ParentDirective::WriteMappings),
        ParentState::MapsWritten => if cfg.run_before_unfreeze {
            Some(ParentDirective::RunBeforeUnfreeze)
        } else {
            Some(ParentDirective::SkipBeforeUnfreeze)
        },
        ParentState::HookPassed => Some(ParentDirective::ReleaseBarrier),
        ParentState::Released => Some(ParentDirective::AwaitChild),
        ParentState::Aborting(_) => Some(ParentDirective::TearDownChild),
        ParentState::Settled(_) => None,
    }
}

/// Terminal states: the spawn call has its result.
pub open spec fn spec_parent_terminal(s: ParentState) -> bool {
    s is Settled
}

/// Has the spawn call its result?
pub fn parent_terminal(s: &ParentState) -> (b: bool)
    ensures
        b == spec_parent_terminal(*s),
{
    match s {
        ParentState::Settled(_) => true,
        _ => false,
    }
}

/// The state a run of events leads to.
pub open spec fn spec_parent_run(
    s: ParentState,
    cfg: ParentConfig,
    es: Seq<ParentEvent>,
) -> ParentState
    decreases es.len(),
{
    if es.len() == 0 {
        s
    } else {
        spec_parent_run(spec_parent_next(s, es[0]), cfg, es.drop_first())
    }
}

/// A run is valid when every event fits the state it meets.
pub open spec fn spec_parent_run_valid(
    s: ParentState,
    cfg: ParentConfig,
    es: Seq<ParentEvent>,
) -> bool
    decreases es.len(),
{
    es.len() == 0 || (spec_parent_fits(s, cfg, es[0]) && spec_parent_run_valid(
        spec_parent_next(s, es[0]),
        cfg,
        es.drop_first(),
    ))
}

/// The state after the first `i` events of a run that starts at the
/// duplication.
pub open spec fn spec_parent_state_at(
    cfg: ParentConfig,
    es: Seq<ParentEvent>,
    i: int,
) -> ParentState {
    spec_parent_run(ParentState::Duplicated, cfg, es.take(i))
}

/// How far along the protocol a state is. Every valid step strictly
/// increases it: the parent never returns to an earlier stage.
pub open spec fn spec_parent_rank(s: ParentState) -> int {
    match s {
        ParentState::Duplicated => 0,
        ParentState::MapsWritten => 1,
        ParentState::HookPassed => 2,
        ParentState::Released => 3,
        ParentState::Aborting(_) => 4,
        ParentState::Settled(_) => 5,
    }
}

proof fn lemma_parent_fits_at(s: ParentState, cfg: ParentConfig, es: Seq<ParentEvent>, i: int)
    requires
        spec_parent_run_valid(s, cfg, es),
        0 <= i < es.len(),
    ensures
        spec_parent_fits(spec_parent_run(s, cfg, es.take(i)), cfg, es[i]),
    decreases es.len(),
{
    if i == 0 {
        assert(es.take(0) =~= Seq::<ParentEvent>::empty());
    } else {
        let s1 = spec_parent_next(s, es[0]);
        lemma_parent_fits_at(s1, cfg, es.drop_first(), i - 1);
        assert(es.drop_first().take(i - 1) =~= es.take(i).drop_first());
        assert(es.take(i)[0] == es[0]);
        assert(es.drop_first()[i - 1] == es[i]);
    }
}

proof fn lemma_parent_snoc(s: ParentState, cfg: ParentConfig, es: Seq<ParentEvent>, i: int)
    requires
        0 <= i < es.len(),
    ensures
        spec_parent_run(s, cfg, es.take(i + 1)) == spec_parent_next(
            spec_parent_run(s, cfg, es.take(i)),
            es[i],
        ),
    decreases i,
{
    if i == 0 {
        assert(es.take(0) =~= Seq::<ParentEvent>::empty());
        assert(es.take(1).len() == 1);
        assert(es.take(1)[0] == es[0]);
        assert(es.take(1).drop_first() =~= Seq::<ParentEvent>::empty());
        assert(spec_parent_run(spec_parent_next(s, es[0]), cfg, es.take(1).drop_first())
            == spec_parent_next(s, es[0]));
    } else {
        let s1 = spec_parent_next(s, es[0]);
        lemma_parent_snoc(s1, cfg, es.drop_first(), i - 1);
        assert(es.drop_first().take(i - 1) =~= es.take(i).drop_first());
        assert(es.drop_first().take(i) =~= es.take(i + 1).drop_first());
        assert(es.take(i)[0] == es[0]);
        assert(es.take(i + 1)[0] == es[0]);
        assert(es.drop_first()[i - 1] == es[i]);
        assert(spec_parent_run(s, cfg, es.take(i + 1)) == spec_parent_run(
            s1,
            cfg,
            es.drop_first().take(i),
        ));
        assert(spec_parent_run(s, cfg, es.take(i)) == spec_parent_run(
            s1,
            cfg,
            es.drop_first().take(i - 1),
        ));
    }
}

/// In a valid run from the duplication, the stage strictly advances with
/// every event, and no state before the end is settled.
pub proof fn lemma_parent_rank_increases(cfg: ParentConfig, es: Seq<ParentEvent>, i: int)
    requires
        spec_parent_run_valid(ParentState::Duplicated, cfg, es),
        0 <= i < es.len(),
    ensures
        !spec_parent_terminal(spec_parent_state_at(cfg, es, i)),
        spec_parent_rank(spec_parent_state_at(cfg, es, i + 1)) > spec_parent_rank(
            spec_parent_state_at(cfg, es, i),
        ),
        spec_parent_rank(spec_parent_state_at(cfg, es, i)) >= i,
    decreases i,
{
    lemma_parent_fits_at(ParentState::Duplicated, cfg, es, i);
    lemma_parent_snoc(ParentState::Duplicated, cfg, es, i);
    if i == 0 {
        assert(es.take(0) =~= Seq::<ParentEvent>::empty());
    } else {
        lemma_parent_rank_increases(cfg, es, i - 1);
    }
}

/// The stage after more events is always strictly later: the parent walks
/// its protocol in order, never back.
pub proof fn lemma_parent_rank_monotone(cfg: ParentConfig, es: Seq<ParentEvent>, j1: int, j2: int)
    requires
        spec_parent_run_valid(ParentState::Duplicated, cfg, es),
        0 <= j1 < j2 <= es.len(),
    ensures
        spec_parent_rank(spec_parent_state_at(cfg, es, j1)) < spec_parent_rank(
            spec_parent_state_at(cfg, es, j2),
        ),
    decreases j2,
{
    lemma_parent_rank_increases(cfg, es, j2 - 1);
    if j1 < j2 - 1 {
        lemma_parent_rank_monotone(cfg, es, j1, j2 - 1);
    }
}

/// The barrier is released only right after the `before_unfreeze` slot was
/// dealt with successfully, which in turn happened only after the mappings
/// were written: completion of the callback strictly precedes the release.
pub proof fn lemma_release_follows_hook(cfg: ParentConfig, es: Seq<ParentEvent>, i: int)
    requires
        spec_parent_run_valid(ParentState::Duplicated, cfg, es),
        0 <= i < es.len(),
        es[i] is BarrierReleased,
    ensures
        i >= 2,
        spec_parent_state_at(cfg, es, i) is HookPassed,
        es[i - 1] is HookOk || es[i - 1] is HookAbsent,
        spec_parent_state_at(cfg, es, i - 1) is MapsWritten,
        es[i - 2] is MapsOk,
        cfg.run_before_unfreeze ==> es[i - 1] is HookOk,
{
    lemma_parent_fits_at(ParentState::Duplicated, cfg, es, i);
    assert(es.take(0) =~= Seq::<ParentEvent>::empty());
    if i >= 1 {
        lemma_parent_fits_at(ParentState::Duplicated, cfg, es, i - 1);
        lemma_parent_snoc(ParentState::Duplicated, cfg, es, i - 1);
    }
    if i >= 2 {
        lemma_parent_fits_at(ParentState::Duplicated, cfg, es, i - 2);
        lemma_parent_snoc(ParentState::Duplicated, cfg, es, i - 2);
    }
}

/// Exactly-once semantics: in any valid parent run the barrier is released
/// at most once, the error channel is read at most once, and the mappings
/// are written at most once — no stage is retried.
pub proof fn lemma_parent_exactly_once(cfg: ParentConfig, es: Seq<ParentEvent>, j1: int, j2: int)
    requires
        spec_parent_run_valid(ParentState::Duplicated, cfg, es),
        0 <= j1 < j2 < es.len(),
    ensures
        !(es[j1] is BarrierReleased && es[j2] is BarrierReleased),
        !(es[j1] is Channel && es[j2] is Channel),
        !(es[j1] is MapsOk && es[j2] is MapsOk),
{
    lemma_parent_fits_at(ParentState::Duplicated, cfg, es, j1);
    lemma_parent_fits_at(ParentState::Duplicated, cfg, es, j2);
    lemma_parent_rank_monotone(cfg, es, j1, j2);
    assert(spec_parent_fits(spec_parent_state_at(cfg, es, j1), cfg, es[j1]));
    assert(spec_parent_fits(spec_parent_state_at(cfg, es, j2), cfg, es[j2]));
}

/// If `before_unfreeze` fails, the barrier is never released: the parent
/// never reaches the releasing stage, never issues the release, tears the
/// still-frozen child down, and a finished run surfaces exactly the
/// callback's error.
pub proof fn lemma_unfreeze_failure_never_releases(
    cfg: ParentConfig,
    es: Seq<ParentEvent>,
    i: int,
    c: i32,
)
    requires
        spec_parent_run_valid(ParentState::Duplicated, cfg, es),
        0 <= i < es.len(),
        es[i] == ParentEvent::HookFailed(c),
    ensures
        spec_parent_state_at(cfg, es, i + 1) == ParentState::Aborting(
            SpawnError::UnfreezeCallback { code: c },
        ),
        spec_parent_directive(spec_parent_state_at(cfg, es, i + 1), cfg) == Some(
            ParentDirective::TearDownChild,
        ),
        forall|j: int|
            0 <= j <= es.len() ==> !(#[trigger] spec_parent_state_at(cfg, es, j) is HookPassed
                || spec_parent_state_at(cfg, es, j) is Released),
        forall|j: int| #![auto] 0 <= j < es.len() ==> !(es[j] is BarrierReleased),
        es.len() <= i + 2,
        es.len() == i + 2 ==> spec_parent_run(ParentState::Duplicated, cfg, es)
            == ParentState::Settled(Err(SpawnError::UnfreezeCallback { code: c })),
{
    lemma_parent_fits_at(ParentState::Duplicated, cfg, es, i);
    lemma_parent_snoc(ParentState::Duplicated, cfg, es, i);
    assert(spec_parent_state_at(cfg, es, i) is MapsWritten);
    assert forall|j: int|
        0 <= j <= es.len() implies !(#[trigger] spec_parent_state_at(cfg, es, j) is HookPassed
        || spec_parent_state_at(cfg, es, j) is Released) by {
        if j <= i {
            if j < i {
                lemma_parent_rank_monotone(cfg, es, j, i);
            }
        } else {
            if i + 1 < j {
                lemma_parent_rank_monotone(cfg, es, i + 1, j);
            }
        }
    }
    assert forall|j: int| #![auto] 0 <= j < es.len() implies !(es[j] is BarrierReleased) by {
        lemma_parent_fits_at(ParentState::Duplicated, cfg, es, j);
        assert(spec_parent_fits(spec_parent_state_at(cfg, es, j), cfg, es[j]));
        assert(!(spec_parent_state_at(cfg, es, j) is HookPassed));
    }
    if es.len() > i + 1 {
        lemma_parent_fits_at(ParentState::Duplicated, cfg, es, i + 1);
        lemma_parent_snoc(ParentState::Duplicated, cfg, es, i + 1);
        assert(es[i + 1] is ChildTornDown);
        assert(spec_parent_state_at(cfg, es, i + 2) == ParentState::Settled(
            Err(SpawnError::UnfreezeCallback { code: c }),
        ));
        if es.len() > i + 2 {
            lemma_parent_fits_at(ParentState::Duplicated, cfg, es, i + 2);
        }
        if es.len() == i + 2 {
            assert(es.take(es.len() as int) =~= es);
        }
    }
}

} // verus!
