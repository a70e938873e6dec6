//! The law that spans both sides of the spawn: the barrier couples the
//! parent's release to the child's wake-up, so a parent-side failure before
//! the release leaves the child exactly where the fork put it.

use vstd::prelude::*;

use crate::child::ChildConfig;
use crate::child::ChildEvent;
use crate::child::ChildState;
use crate::child::lemma_unreleased_child_is_inert;
use crate::child::spec_child_run;
use crate::child::spec_child_run_valid;
use crate::parent::ParentConfig;
use crate::parent::ParentEvent;
use crate::parent::ParentState;
use crate::parent::lemma_unfreeze_failure_never_releases;
use crate::parent::spec_parent_run_valid;

verus! {

/// If `before_unfreeze` fails, the barrier is never released and the child
/// runs nothing at all: no callback, no chroot, no exec.
///
/// The one connection between the two machines is the barrier, stated here
/// as a premise: the child observes its release only if the parent's run
/// holds the releasing write. Under it, a failing unfreeze callback leaves
/// the child's run empty — the child is still frozen when the parent tears
/// it down.
pub proof fn lemma_unfreeze_failure_isolates_child(
    pcfg: ParentConfig,
    pes: Seq<ParentEvent>,
    i: int,
    c: i32,
    ccfg: ChildConfig,
    ces: Seq<ChildEvent>,
)
    requires
        spec_parent_run_valid(ParentState::Duplicated, pcfg, pes),
        0 <= i < pes.len(),
        pes[i] == ParentEvent::HookFailed(c),
        spec_child_run_valid(ChildState::Frozen, ccfg, ces),
        ces.contains(ChildEvent::Released) ==> (exists|j: int|
            0 <= j < pes.len() && pes[j] is BarrierReleased),
    ensures
        forall|j: int| #![auto] 0 <= j < pes.len() ==> !(pes[j] is BarrierReleased),
        ces.len() == 0,
        spec_child_run(ChildState::Frozen, ccfg, ces) == ChildState::Frozen,
{
    lemma_unfreeze_failure_never_releases(pcfg, pes, i, c);
    lemma_unreleased_child_is_inert(ccfg, ces);
}

} // verus!
