//! Startup checkpoints: the coordination state materialized at a revision,
//! from which a runtime starts without replaying the whole journal.
use vstd::prelude::*;

use crate::authority_types::{
    CoordinationAuthorityBackendKind, CoordinationAuthorityStamp, CoordinationCurrentState,
    CurrentStateView,
};
use crate::materialized::HydratedCoordinationPlanState;
use crate::coordination::{
    descriptors_view, CoordinationSnapshot, CoordinationSnapshotV2,
    CoordinationSnapshotView, RuntimeDescriptor,
};

verus! {

/// The authority a checkpoint was materialized from.
#[derive(Debug, PartialEq, Eq)]
pub struct CoordinationStartupCheckpointAuthority {
    pub ref_name: String,
    pub head_commit: Option<String>,
    pub manifest_digest: Option<String>,
}

impl Clone for CoordinationStartupCheckpointAuthority {
    fn clone(&self) -> (r: Self)
        ensures
            r == *self,
    {
        CoordinationStartupCheckpointAuthority {
            ref_name: self.ref_name.clone(),
            head_commit: self.head_commit.clone(),
            manifest_digest: self.manifest_digest.clone(),
        }
    }
}

/// A materialized coordination state.
#[derive(Debug, PartialEq, Eq)]
pub struct CoordinationStartupCheckpoint {
    pub version: u32,
    pub materialized_at: u64,
    pub coordination_revision: u64,
    pub authority: CoordinationStartupCheckpointAuthority,
    pub snapshot: CoordinationSnapshot,
    pub canonical_snapshot_v2: CoordinationSnapshotV2,
    pub runtime_descriptors: Vec<RuntimeDescriptor>,
}

pub open spec fn max_u64(a: u64, b: u64) -> u64 {
    if a >= b {
        a
    } else {
        b
    }
}

/// `snapshot` with each id counter raised to the checkpoint's counter where
/// that is higher.
pub open spec fn merged_counters(
    snapshot: CoordinationSnapshotView,
    checkpoint: CoordinationSnapshotView,
) -> CoordinationSnapshotView {
    CoordinationSnapshotView {
        next_plan: max_u64(snapshot.next_plan, checkpoint.next_plan),
        next_task: max_u64(snapshot.next_task, checkpoint.next_task),
        next_claim: max_u64(snapshot.next_claim, checkpoint.next_claim),
        next_artifact: max_u64(snapshot.next_artifact, checkpoint.next_artifact),
        next_review: max_u64(snapshot.next_review, checkpoint.next_review),
        ..snapshot
    }
}

/// Raises the id counters of `snapshot` to those of the checkpoint snapshot.
pub fn merge_checkpoint_counters(
    snapshot: CoordinationSnapshot,
    checkpoint_snapshot: &CoordinationSnapshot,
) -> (r: CoordinationSnapshot)
    ensures
        r@ == merged_counters(snapshot@, checkpoint_snapshot@),
{
    let mut snapshot = snapshot;
    if checkpoint_snapshot.next_plan > snapshot.next_plan {
        snapshot.next_plan = checkpoint_snapshot.next_plan;
    }
    if checkpoint_snapshot.next_task > snapshot.next_task {
        snapshot.next_task = checkpoint_snapshot.next_task;
    }
    if checkpoint_snapshot.next_claim > snapshot.next_claim {
        snapshot.next_claim = checkpoint_snapshot.next_claim;
    }
    if checkpoint_snapshot.next_artifact > snapshot.next_artifact {
        snapshot.next_artifact = checkpoint_snapshot.next_artifact;
    }
    if checkpoint_snapshot.next_review > snapshot.next_review {
        snapshot.next_review = checkpoint_snapshot.next_review;
    }
    snapshot
}

/// The revision an authority stands at: the journal revision, or the
/// checkpoint's revision where that is higher.
pub fn effective_revision(revision: u64, checkpoint_revision: Option<u64>) -> (r: u64)
    ensures
        r == match checkpoint_revision {
            Some(c) => max_u64(c, revision),
            None => revision,
        },
{
    match checkpoint_revision {
        Some(c) => if c >= revision {
            c
        } else {
            revision
        },
        None => revision,
    }
}

/// The state a checkpoint holds.
pub fn checkpoint_state(checkpoint: CoordinationStartupCheckpoint) -> (r: CoordinationCurrentState)
    ensures
        r@ == (CurrentStateView {
            snapshot: checkpoint.snapshot@,
            canonical_snapshot_v2: checkpoint.canonical_snapshot_v2@,
            runtime_descriptors: descriptors_view(checkpoint.runtime_descriptors@),
        }),
{
    CoordinationCurrentState {
        snapshot: checkpoint.snapshot,
        canonical_snapshot_v2: checkpoint.canonical_snapshot_v2,
        runtime_descriptors: checkpoint.runtime_descriptors,
    }
}

/// The ref name recorded for an authority whose stamp names none.
pub open spec fn default_ref_name(kind: CoordinationAuthorityBackendKind) -> Seq<char> {
    match kind {
        CoordinationAuthorityBackendKind::GitSharedRefs => "shared-coordination"@,
        CoordinationAuthorityBackendKind::Sqlite => "sqlite-authority"@,
        CoordinationAuthorityBackendKind::Postgres => "postgres-authority"@,
    }
}

/// The checkpoint authority recorded for an authority stamp.
pub fn checkpoint_authority_from_stamp(authority: Option<CoordinationAuthorityStamp>) -> (r: Option<
    CoordinationStartupCheckpointAuthority,
>)
    ensures
        r.is_some() == authority.is_some(),
        authority matches Some(a) ==> {
            let c = r->0;
            &&& c.ref_name@ == match a.provenance.ref_name {
                Some(n) => n@,
                None => default_ref_name(a.backend_kind),
            }
            &&& c.head_commit == a.provenance.head_commit
            &&& c.manifest_digest == a.provenance.manifest_digest
        },
{
    match authority {
        Some(authority) => {
            let ref_name = match authority.provenance.ref_name {
                Some(n) => n,
                None => match authority.backend_kind {
                    CoordinationAuthorityBackendKind::GitSharedRefs => String::from_str(
                        "shared-coordination",
                    ),
                    CoordinationAuthorityBackendKind::Sqlite => String::from_str(
                        "sqlite-authority",
                    ),
                    CoordinationAuthorityBackendKind::Postgres => String::from_str(
                        "postgres-authority",
                    ),
                },
            };
            Some(
                CoordinationStartupCheckpointAuthority {
                    ref_name,
                    head_commit: authority.provenance.head_commit,
                    manifest_digest: authority.provenance.manifest_digest,
                },
            )
        },
        None => None,
    }
}

/// The authority recorded in a checkpoint: the configured authority, or the
/// local worktree when there is none.
pub fn resolve_coordination_startup_checkpoint_authority(
    authority: Option<CoordinationStartupCheckpointAuthority>,
) -> (r: CoordinationStartupCheckpointAuthority)
    ensures
        authority matches Some(a) ==> r == a,
        authority is None ==> r.ref_name@ == "local-worktree"@ && r.head_commit is None
            && r.manifest_digest is None,
{
    match authority {
        Some(a) => a,
        None => CoordinationStartupCheckpointAuthority {
            ref_name: String::from_str("local-worktree"),
            head_commit: None,
            manifest_digest: None,
        },
    }
}


/// The checkpoint saved for a coordination state: the given version, time,
/// journal revision and authority; the snapshot without its events (the
/// journal keeps those); the canonical form; the runtime descriptors, none
/// when not given.
pub fn startup_checkpoint(
    version: u32,
    materialized_at: u64,
    coordination_revision: u64,
    authority: CoordinationStartupCheckpointAuthority,
    snapshot: &CoordinationSnapshot,
    canonical_snapshot_v2: &CoordinationSnapshotV2,
    runtime_descriptors: Option<&Vec<RuntimeDescriptor>>,
) -> (c: CoordinationStartupCheckpoint)
    ensures
        c.version == version,
        c.materialized_at == materialized_at,
        c.coordination_revision == coordination_revision,
        c.authority == authority,
        c.snapshot@ == (CoordinationSnapshotView { events: Seq::empty(), ..snapshot@ }),
        c.canonical_snapshot_v2@ == canonical_snapshot_v2@,
        descriptors_view(c.runtime_descriptors@) == match runtime_descriptors {
            Some(v) => descriptors_view(v@),
            None => Seq::empty(),
        },
{
    let mut checkpoint_snapshot = snapshot.clone();
    checkpoint_snapshot.events = Vec::new();
    proof {
        assert(crate::coordination::events_view(checkpoint_snapshot.events@) =~= Seq::empty());
    }
    let descriptors = match runtime_descriptors {
        Some(v) => {
            let d = v.clone();
            assert(descriptors_view(d@) =~= descriptors_view(v@));
            d
        },
        None => {
            let d: Vec<RuntimeDescriptor> = Vec::new();
            assert(descriptors_view(d@) =~= Seq::empty());
            d
        },
    };
    CoordinationStartupCheckpoint {
        version,
        materialized_at,
        coordination_revision,
        authority,
        snapshot: checkpoint_snapshot,
        canonical_snapshot_v2: canonical_snapshot_v2.clone(),
        runtime_descriptors: descriptors,
    }
}

/// The plan state a checkpoint holds.
pub fn hydrated_plan_state_from_checkpoint(checkpoint: CoordinationStartupCheckpoint) -> (h:
    HydratedCoordinationPlanState)
    ensures
        h.snapshot == checkpoint.snapshot,
        h.canonical_snapshot_v2 == checkpoint.canonical_snapshot_v2,
        h.runtime_descriptors == checkpoint.runtime_descriptors,
{
    HydratedCoordinationPlanState {
        canonical_snapshot_v2: checkpoint.canonical_snapshot_v2,
        snapshot: checkpoint.snapshot,
        runtime_descriptors: checkpoint.runtime_descriptors,
    }
}

} // verus!
