//! The sync decision engine: given the timestamp of the last successful
//! sync and the latest modification times seen locally and in the cloud,
//! decide whether a tracked folder must be downloaded, uploaded, flagged
//! as conflicting, or left alone.

use vstd::prelude::*;

verus! {

/// What the engine must do with one tracked folder.
#[derive(Clone, Copy, Debug, PartialEq, Eq, Structural)]
pub enum SyncAction {
    /// Neither side moved past the last sync (or one side is exactly at
    /// it): nothing to do.
    NoOp,
    /// Only the cloud copy is strictly newer than the last sync: fetch it.
    Download,
    /// Only the local copy is strictly newer than the last sync: push it.
    Upload,
    /// Both sides moved past the last sync: unresolvable automatically.
    Conflict,
}

/// The decision table over the two pairwise comparisons against `synced`.
///
/// A side counts as "ahead" only when it is strictly newer than `synced`;
/// equality with `synced` on either side means that side did not change
/// since the last sync, so there is nothing to reconcile. Both sides
/// already older than the last sync is treated as benign.
pub open spec fn spec_decide(synced: u64, local: u64, cloud: u64) -> SyncAction {
    if synced == local || synced == cloud {
        SyncAction::NoOp
    } else if synced > local && synced > cloud {
        SyncAction::NoOp
    } else if synced > local && synced < cloud {
        SyncAction::Download
    } else if synced < local && synced > cloud {
        SyncAction::Upload
    } else {
        SyncAction::Conflict
    }
}

/// The order of `a` relative to `b`, as a three-valued comparison.
#[derive(Clone, Copy, Debug, PartialEq, Eq, Structural)]
pub enum Rel {
    Before,
    Same,
    After,
}

pub open spec fn spec_rel(a: u64, b: u64) -> Rel {
    if a < b {
        Rel::Before
    } else if a == b {
        Rel::Same
    } else {
        Rel::After
    }
}

/// Three-way comparison of two timestamps.
pub fn rel(a: u64, b: u64) -> (r: Rel)
    ensures
        r == spec_rel(a, b),
{
    if a < b {
        Rel::Before
    } else if a == b {
        Rel::Same
    } else {
        Rel::After
    }
}

/// Decide the action for one folder from the three timestamps.
///
/// Implemented as an explicit match on the two three-way comparisons of
/// `synced` against `local` and against `cloud`, so every one of the nine
/// combinations is spelled out.
pub fn decide(synced: u64, local: u64, cloud: u64) -> (a: SyncAction)
    ensures
        a == spec_decide(synced, local, cloud),
{
    match (rel(synced, local), rel(synced, cloud)) {
        (Rel::Same, _) => SyncAction::NoOp,
        (_, Rel::Same) => SyncAction::NoOp,
        (Rel::After, Rel::After) => SyncAction::NoOp,
        (Rel::After, Rel::Before) => SyncAction::Download,
        (Rel::Before, Rel::After) => SyncAction::Upload,
        (Rel::Before, Rel::Before) => SyncAction::Conflict,
    }
}

/// The decision is a pure function of the pairwise orders relative to
/// `synced`: two triples whose comparisons against `synced` agree get the
/// same action, whatever the actual timestamps are. In particular,
/// re-running the engine on the same triple always yields the same action.
pub proof fn lemma_decide_depends_only_on_order(
    synced1: u64,
    local1: u64,
    cloud1: u64,
    synced2: u64,
    local2: u64,
    cloud2: u64,
)
    requires
        spec_rel(synced1, local1) == spec_rel(synced2, local2),
        spec_rel(synced1, cloud1) == spec_rel(synced2, cloud2),
    ensures
        spec_decide(synced1, local1, cloud1) == spec_decide(synced2, local2, cloud2),
{
}

} // verus!
