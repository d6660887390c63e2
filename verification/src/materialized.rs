//! The coordination materialization: the startup checkpoint, read models
//! and compaction kept beside the authority, and the metadata that
//! describes what is materialized.
use vstd::prelude::*;

use crate::authority_types::CoordinationCurrentState;
use crate::checkpoint::{CoordinationStartupCheckpoint, CoordinationStartupCheckpointAuthority};
use crate::coordination::{ids_view, CoordinationSnapshot, CoordinationSnapshotV2, RuntimeDescriptor};
use crate::layout::components_eq;

verus! {

/// Where a materialization is kept.
#[derive(Debug, Clone, Copy, PartialEq, Eq, Structural)]
pub enum CoordinationMaterializedBackendKind {
    Sqlite,
}

/// What a materialized store supports.
#[derive(Debug, Clone, Copy, PartialEq, Eq, Structural)]
pub struct CoordinationMaterializedCapabilities {
    pub supports_eventual_snapshots: bool,
    pub supports_read_models: bool,
    pub supports_startup_checkpoints: bool,
    pub supports_metadata: bool,
}

/// The coordination plan state hydrated from published plans.
#[derive(Debug, PartialEq)]
pub struct HydratedCoordinationPlanState {
    pub snapshot: CoordinationSnapshot,
    pub canonical_snapshot_v2: CoordinationSnapshotV2,
    pub runtime_descriptors: Vec<RuntimeDescriptor>,
}

/// A materialized coordination state.
#[derive(Debug, PartialEq)]
pub struct CoordinationMaterializedState {
    pub snapshot: CoordinationSnapshot,
    pub canonical_snapshot_v2: CoordinationSnapshotV2,
    pub runtime_descriptors: Vec<RuntimeDescriptor>,
}

impl From<HydratedCoordinationPlanState> for CoordinationMaterializedState {
    fn from(value: HydratedCoordinationPlanState) -> (r: Self) {
        CoordinationMaterializedState {
            snapshot: value.snapshot,
            canonical_snapshot_v2: value.canonical_snapshot_v2,
            runtime_descriptors: value.runtime_descriptors,
        }
    }
}

impl vstd::std_specs::convert::FromSpecImpl<HydratedCoordinationPlanState> for CoordinationMaterializedState {
    open spec fn obeys_from_spec() -> bool {
        true
    }

    open spec fn from_spec(v: HydratedCoordinationPlanState) -> CoordinationMaterializedState {
        CoordinationMaterializedState {
            snapshot: v.snapshot,
            canonical_snapshot_v2: v.canonical_snapshot_v2,
            runtime_descriptors: v.runtime_descriptors,
        }
    }
}

impl From<HydratedCoordinationPlanState> for CoordinationCurrentState {
    fn from(value: HydratedCoordinationPlanState) -> (r: Self) {
        CoordinationCurrentState {
            snapshot: value.snapshot,
            canonical_snapshot_v2: value.canonical_snapshot_v2,
            runtime_descriptors: value.runtime_descriptors,
        }
    }
}

impl vstd::std_specs::convert::FromSpecImpl<HydratedCoordinationPlanState> for CoordinationCurrentState {
    open spec fn obeys_from_spec() -> bool {
        true
    }

    open spec fn from_spec(v: HydratedCoordinationPlanState) -> CoordinationCurrentState {
        CoordinationCurrentState {
            snapshot: v.snapshot,
            canonical_snapshot_v2: v.canonical_snapshot_v2,
            runtime_descriptors: v.runtime_descriptors,
        }
    }
}

/// A read model derived from the coordination state: the revision it was
/// derived at, and its body as the coordination engine serializes it.
#[derive(Debug, PartialEq, Eq)]
pub struct CoordinationReadModel {
    pub revision: u64,
    pub body: String,
}

impl Clone for CoordinationReadModel {
    fn clone(&self) -> (r: Self)
        ensures
            r == *self,
    {
        CoordinationReadModel { revision: self.revision, body: self.body.clone() }
    }
}

/// The queue read model derived from the coordination state: the revision
/// it was derived at, and its body as the coordination engine serializes it.
#[derive(Debug, PartialEq, Eq)]
pub struct CoordinationQueueReadModel {
    pub revision: u64,
    pub body: String,
}

impl Clone for CoordinationQueueReadModel {
    fn clone(&self) -> (r: Self)
        ensures
            r == *self,
    {
        CoordinationQueueReadModel { revision: self.revision, body: self.body.clone() }
    }
}

/// What is materialized, as a reader sees it.
#[derive(Debug, PartialEq, Eq)]
pub struct CoordinationMaterializationMetadata {
    pub backend_kind: CoordinationMaterializedBackendKind,
    pub coordination_revision: Option<u64>,
    pub startup_checkpoint_coordination_revision: Option<u64>,
    pub startup_checkpoint_version: Option<u32>,
    pub startup_checkpoint_materialized_at: Option<u64>,
    pub startup_checkpoint_authority: Option<CoordinationStartupCheckpointAuthority>,
    pub has_snapshot: bool,
    pub has_canonical_snapshot_v2: bool,
    pub runtime_descriptor_count: usize,
    pub has_read_model: bool,
    pub has_queue_read_model: bool,
}

impl Clone for CoordinationMaterializationMetadata {
    fn clone(&self) -> (r: Self)
        ensures
            r == *self,
    {
        let startup_checkpoint_authority = match &self.startup_checkpoint_authority {
            Some(a) => Some(a.clone()),
            None => None,
        };
        CoordinationMaterializationMetadata {
            backend_kind: self.backend_kind,
            coordination_revision: self.coordination_revision,
            startup_checkpoint_coordination_revision: self.startup_checkpoint_coordination_revision,
            startup_checkpoint_version: self.startup_checkpoint_version,
            startup_checkpoint_materialized_at: self.startup_checkpoint_materialized_at,
            startup_checkpoint_authority,
            has_snapshot: self.has_snapshot,
            has_canonical_snapshot_v2: self.has_canonical_snapshot_v2,
            runtime_descriptor_count: self.runtime_descriptor_count,
            has_read_model: self.has_read_model,
            has_queue_read_model: self.has_queue_read_model,
        }
    }
}

/// A value read from the materialization, with the metadata it was read at.
#[derive(Debug, PartialEq)]
pub struct CoordinationMaterializedReadEnvelope<T> {
    pub metadata: CoordinationMaterializationMetadata,
    pub value: Option<T>,
}

impl<T> CoordinationMaterializedReadEnvelope<T> {
    pub fn new(metadata: CoordinationMaterializationMetadata, value: Option<T>) -> (r: Self)
        ensures
            r.metadata == metadata,
            r.value == value,
    {
        CoordinationMaterializedReadEnvelope { metadata, value }
    }
}

/// A coordination state to checkpoint.
#[derive(Debug, PartialEq)]
pub struct CoordinationStartupCheckpointWriteRequest {
    pub snapshot: CoordinationSnapshot,
    pub canonical_snapshot_v2: CoordinationSnapshotV2,
    pub runtime_descriptors: Vec<RuntimeDescriptor>,
}

/// Read models to store.
#[derive(Debug, PartialEq, Eq)]
pub struct CoordinationReadModelsWriteRequest {
    pub read_model: CoordinationReadModel,
    pub queue_read_model: CoordinationQueueReadModel,
}

/// A compacted snapshot to store.
#[derive(Debug, PartialEq)]
pub struct CoordinationCompactionWriteRequest {
    pub snapshot: CoordinationSnapshot,
}

/// The metadata after a write.
#[derive(Debug, PartialEq, Eq)]
pub struct CoordinationMaterializedWriteResult {
    pub metadata: CoordinationMaterializationMetadata,
}

/// What to clear from the materialization.
#[derive(Debug, Clone, Copy, PartialEq, Eq, Structural)]
pub struct CoordinationMaterializedClearRequest {
    pub clear_startup_checkpoint: bool,
    pub clear_read_models: bool,
    pub clear_compaction: bool,
}

impl CoordinationMaterializedClearRequest {
    /// Clear everything.
    pub fn all() -> (r: Self)
        ensures
            r.clear_startup_checkpoint && r.clear_read_models && r.clear_compaction,
    {
        CoordinationMaterializedClearRequest {
            clear_startup_checkpoint: true,
            clear_read_models: true,
            clear_compaction: true,
        }
    }
}

/// What the materialization database holds.
#[derive(Debug, PartialEq)]
pub struct MaterializedRecords {
    pub coordination_revision: u64,
    pub startup_checkpoint: Option<CoordinationStartupCheckpoint>,
    pub read_model: Option<CoordinationReadModel>,
    pub queue_read_model: Option<CoordinationQueueReadModel>,
    pub compaction: Option<CoordinationSnapshot>,
}

/// A materialization kept in the worktree cache database before it had a
/// database of its own is moved over when the two databases differ, the
/// old one exists and the new one does not yet.
pub open spec fn legacy_migration_needed(
    target_db_path: Seq<Seq<char>>,
    legacy_db_path: Seq<Seq<char>>,
    legacy_exists: bool,
    target_exists: bool,
) -> bool {
    target_db_path != legacy_db_path && legacy_exists && !target_exists
}

/// Moves the legacy materialization into the new database when that is
/// needed: the checkpoint, the read models and the compaction that the
/// legacy database holds replace the new one's, whose journal revision
/// stays.  Returns whether it moved anything over.
pub fn migrate_legacy_worktree_coordination_state(
    target_db_path: &Vec<String>,
    legacy_db_path: &Vec<String>,
    legacy_exists: bool,
    target_exists: bool,
    target: &mut MaterializedRecords,
    legacy: MaterializedRecords,
) -> (migrated: bool)
    ensures
        migrated == legacy_migration_needed(
            ids_view(target_db_path@),
            ids_view(legacy_db_path@),
            legacy_exists,
            target_exists,
        ),
        !migrated ==> *final(target) == *old(target),
        migrated ==> *final(target) == (MaterializedRecords {
            coordination_revision: old(target).coordination_revision,
            startup_checkpoint: if legacy.startup_checkpoint is Some {
                legacy.startup_checkpoint
            } else {
                old(target).startup_checkpoint
            },
            read_model: if legacy.read_model is Some {
                legacy.read_model
            } else {
                old(target).read_model
            },
            queue_read_model: if legacy.queue_read_model is Some {
                legacy.queue_read_model
            } else {
                old(target).queue_read_model
            },
            compaction: if legacy.compaction is Some {
                legacy.compaction
            } else {
                old(target).compaction
            },
        }),
{
    if components_eq(target_db_path, legacy_db_path) || !legacy_exists || target_exists {
        return false;
    }
    if legacy.startup_checkpoint.is_some() {
        target.startup_checkpoint = legacy.startup_checkpoint;
    }
    if legacy.read_model.is_some() {
        target.read_model = legacy.read_model;
    }
    if legacy.queue_read_model.is_some() {
        target.queue_read_model = legacy.queue_read_model;
    }
    if legacy.compaction.is_some() {
        target.compaction = legacy.compaction;
    }
    true
}

/// The metadata of what `records` holds: the journal revision, the
/// checkpoint's revision, version, time and authority, whether a snapshot
/// (and its canonical form) and each read model is there, and how many
/// runtime descriptors the checkpoint lists.
pub open spec fn metadata_of(records: MaterializedRecords) -> CoordinationMaterializationMetadata {
    let c = records.startup_checkpoint;
    CoordinationMaterializationMetadata {
        backend_kind: CoordinationMaterializedBackendKind::Sqlite,
        coordination_revision: Some(records.coordination_revision),
        startup_checkpoint_coordination_revision: match c {
            Some(v) => Some(v.coordination_revision),
            None => None,
        },
        startup_checkpoint_version: match c {
            Some(v) => Some(v.version),
            None => None,
        },
        startup_checkpoint_materialized_at: match c {
            Some(v) => Some(v.materialized_at),
            None => None,
        },
        startup_checkpoint_authority: match c {
            Some(v) => Some(v.authority),
            None => None,
        },
        has_snapshot: c is Some,
        has_canonical_snapshot_v2: c is Some,
        runtime_descriptor_count: match c {
            Some(v) => v.runtime_descriptors@.len() as usize,
            None => 0,
        },
        has_read_model: records.read_model is Some,
        has_queue_read_model: records.queue_read_model is Some,
    }
}

/// The materialization kept in the workspace's SQLite materialization
/// database.
#[derive(Debug, Clone)]
pub struct SqliteCoordinationMaterializedStore {
    root: String,
}

impl SqliteCoordinationMaterializedStore {
    pub closed spec fn spec_root(&self) -> Seq<char> {
        self.root@
    }

    /// The materialization of the workspace at `root`.
    pub fn new(root: &str) -> (s: Self)
        ensures
            s.spec_root() == root@,
    {
        SqliteCoordinationMaterializedStore { root: String::from_str(root) }
    }

    /// The workspace root.
    pub fn root(&self) -> (r: &str)
        ensures
            r@ == self.spec_root(),
    {
        self.root.as_str()
    }

    /// Everything is supported.
    pub fn capabilities(&self) -> (c: CoordinationMaterializedCapabilities)
        ensures
            c == (CoordinationMaterializedCapabilities {
                supports_eventual_snapshots: true,
                supports_read_models: true,
                supports_startup_checkpoints: true,
                supports_metadata: true,
            }),
    {
        CoordinationMaterializedCapabilities {
            supports_eventual_snapshots: true,
            supports_read_models: true,
            supports_startup_checkpoints: true,
            supports_metadata: true,
        }
    }

    /// The metadata of what the database holds.
    pub fn load_metadata_from_store(&self, records: &MaterializedRecords) -> (m:
        CoordinationMaterializationMetadata)
        ensures
            m == metadata_of(*records),
    {
        let (revision, version, materialized_at, authority, count) = match &records.startup_checkpoint {
            Some(c) => (
                Some(c.coordination_revision),
                Some(c.version),
                Some(c.materialized_at),
                Some(c.authority.clone()),
                c.runtime_descriptors.len(),
            ),
            None => (None, None, None, None, 0),
        };
        let has_checkpoint = records.startup_checkpoint.is_some();
        CoordinationMaterializationMetadata {
            backend_kind: CoordinationMaterializedBackendKind::Sqlite,
            coordination_revision: Some(records.coordination_revision),
            startup_checkpoint_coordination_revision: revision,
            startup_checkpoint_version: version,
            startup_checkpoint_materialized_at: materialized_at,
            startup_checkpoint_authority: authority,
            has_snapshot: has_checkpoint,
            has_canonical_snapshot_v2: has_checkpoint,
            runtime_descriptor_count: count,
            has_read_model: records.read_model.is_some(),
            has_queue_read_model: records.queue_read_model.is_some(),
        }
    }

    /// Stores both read models, replacing those held.
    pub fn write_read_models(
        &self,
        records: &mut MaterializedRecords,
        request: CoordinationReadModelsWriteRequest,
    ) -> (r: CoordinationMaterializedWriteResult)
        ensures
            final(records).read_model == Some(request.read_model),
            final(records).queue_read_model == Some(request.queue_read_model),
            final(records).startup_checkpoint == old(records).startup_checkpoint,
            final(records).compaction == old(records).compaction,
            final(records).coordination_revision == old(records).coordination_revision,
            r.metadata == metadata_of(*final(records)),
    {
        records.read_model = Some(request.read_model);
        records.queue_read_model = Some(request.queue_read_model);
        CoordinationMaterializedWriteResult { metadata: self.load_metadata_from_store(records) }
    }

    /// Stores a compacted snapshot, replacing the one held.
    pub fn write_compaction(
        &self,
        records: &mut MaterializedRecords,
        request: CoordinationCompactionWriteRequest,
    ) -> (r: CoordinationMaterializedWriteResult)
        ensures
            final(records).compaction == Some(request.snapshot),
            final(records).read_model == old(records).read_model,
            final(records).queue_read_model == old(records).queue_read_model,
            final(records).startup_checkpoint == old(records).startup_checkpoint,
            final(records).coordination_revision == old(records).coordination_revision,
            r.metadata == metadata_of(*final(records)),
    {
        records.compaction = Some(request.snapshot);
        CoordinationMaterializedWriteResult { metadata: self.load_metadata_from_store(records) }
    }

    /// Clears what the request names: the startup checkpoint, both read
    /// models, the compaction.
    pub fn clear_materialization(
        &self,
        records: &mut MaterializedRecords,
        request: CoordinationMaterializedClearRequest,
    ) -> (r: CoordinationMaterializedWriteResult)
        ensures
            final(records).startup_checkpoint == if request.clear_startup_checkpoint {
                None
            } else {
                old(records).startup_checkpoint
            },
            final(records).read_model == if request.clear_read_models {
                None
            } else {
                old(records).read_model
            },
            final(records).queue_read_model == if request.clear_read_models {
                None
            } else {
                old(records).queue_read_model
            },
            final(records).compaction == if request.clear_compaction {
                None
            } else {
                old(records).compaction
            },
            final(records).coordination_revision == old(records).coordination_revision,
            r.metadata == metadata_of(*final(records)),
    {
        if request.clear_startup_checkpoint {
            records.startup_checkpoint = None;
        }
        if request.clear_read_models {
            records.read_model = None;
            records.queue_read_model = None;
        }
        if request.clear_compaction {
            records.compaction = None;
        }
        CoordinationMaterializedWriteResult { metadata: self.load_metadata_from_store(records) }
    }

    /// The read model to serve: the stored one, else the one the engine
    /// derives from the checkpointed snapshot (`derived`), stamped with the
    /// journal revision.
    pub fn read_effective_read_model(
        &self,
        records: &MaterializedRecords,
        derived: Option<CoordinationReadModel>,
    ) -> (r: CoordinationMaterializedReadEnvelope<CoordinationReadModel>)
        ensures
            r.metadata == metadata_of(*records),
            records.read_model is Some ==> r.value == records.read_model,
            records.read_model is None ==> r.value == match derived {
                Some(m) => Some(CoordinationReadModel { revision: records.coordination_revision, ..m }),
                None => None,
            },
    {
        let metadata = self.load_metadata_from_store(records);
        match &records.read_model {
            Some(m) => CoordinationMaterializedReadEnvelope::new(metadata, Some(m.clone())),
            None => {
                let value = match derived {
                    Some(m) => Some(
                        CoordinationReadModel { revision: records.coordination_revision, body: m.body },
                    ),
                    None => None,
                };
                CoordinationMaterializedReadEnvelope::new(metadata, value)
            },
        }
    }

    /// The queue read model to serve: the stored one, else the one the
    /// engine derives from the checkpointed snapshot (`derived`), stamped
    /// with the journal revision.
    pub fn read_effective_queue_read_model(
        &self,
        records: &MaterializedRecords,
        derived: Option<CoordinationQueueReadModel>,
    ) -> (r: CoordinationMaterializedReadEnvelope<CoordinationQueueReadModel>)
        ensures
            r.metadata == metadata_of(*records),
            records.queue_read_model is Some ==> r.value == records.queue_read_model,
            records.queue_read_model is None ==> r.value == match derived {
                Some(m) => Some(
                    CoordinationQueueReadModel { revision: records.coordination_revision, ..m },
                ),
                None => None,
            },
    {
        let metadata = self.load_metadata_from_store(records);
        match &records.queue_read_model {
            Some(m) => CoordinationMaterializedReadEnvelope::new(metadata, Some(m.clone())),
            None => {
                let value = match derived {
                    Some(m) => Some(
                        CoordinationQueueReadModel {
                            revision: records.coordination_revision,
                            body: m.body,
                        },
                    ),
                    None => None,
                };
                CoordinationMaterializedReadEnvelope::new(metadata, value)
            },
        }
    }
}

} // verus!
