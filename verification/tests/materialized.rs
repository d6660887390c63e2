use prism_core::authority_types::CoordinationCurrentState;
use prism_core::persistence::{persist_read_models_and_compaction, CoordinationPhaseNote};
use prism_core::checkpoint::{
    hydrated_plan_state_from_checkpoint, startup_checkpoint, CoordinationStartupCheckpointAuthority,
};
use prism_core::coordination::{
    CoordinationEvent, CoordinationSnapshot, CoordinationSnapshotV2, RuntimeDescriptor,
    RuntimeDiscoveryMode,
};
use prism_core::materialized::{
    CoordinationMaterializationMetadata, CoordinationMaterializedBackendKind,
    CoordinationMaterializedClearRequest, CoordinationMaterializedReadEnvelope,
    CoordinationMaterializedState, CoordinationQueueReadModel, CoordinationReadModel,
    CoordinationReadModelsWriteRequest, HydratedCoordinationPlanState, MaterializedRecords,
    migrate_legacy_worktree_coordination_state,
    SqliteCoordinationMaterializedStore,
};

fn descriptors() -> Vec<RuntimeDescriptor> {
    vec![RuntimeDescriptor {
        runtime_id: "runtime:test".to_string(),
        repo_id: "repo:test".to_string(),
        worktree_id: "worktree:test".to_string(),
        principal_id: "principal:test".to_string(),
        instance_started_at: 1,
        last_seen_at: 2,
        branch_ref: Some("refs/heads/main".to_string()),
        checked_out_commit: Some("abc123".to_string()),
        capabilities: Vec::new(),
        discovery_mode: RuntimeDiscoveryMode::NoDiscovery,
        peer_endpoint: None,
        public_endpoint: None,
        peer_transport_identity: None,
        blob_snapshot_head: None,
        export_policy: None,
    }]
}

#[test]
fn materialized_state_converts_from_hydrated_plan_state() {
    let runtime_descriptors = descriptors();
    let state = CoordinationMaterializedState::from(HydratedCoordinationPlanState {
        snapshot: CoordinationSnapshot::default(),
        canonical_snapshot_v2: CoordinationSnapshotV2::default(),
        runtime_descriptors: runtime_descriptors.clone(),
    });
    assert_eq!(state.snapshot.events.len(), 0);
    assert_eq!(state.canonical_snapshot_v2.events.len(), 0);
    assert_eq!(state.runtime_descriptors, runtime_descriptors);
}

#[test]
fn current_state_converts_from_hydrated_plan_state() {
    let runtime_descriptors = descriptors();
    let state = CoordinationCurrentState::from(HydratedCoordinationPlanState {
        snapshot: CoordinationSnapshot::default(),
        canonical_snapshot_v2: CoordinationSnapshotV2::default(),
        runtime_descriptors: runtime_descriptors.clone(),
    });
    assert_eq!(state.snapshot.events.len(), 0);
    assert_eq!(state.canonical_snapshot_v2.events.len(), 0);
    assert_eq!(state.runtime_descriptors, runtime_descriptors);
}

fn metadata() -> CoordinationMaterializationMetadata {
    CoordinationMaterializationMetadata {
        backend_kind: CoordinationMaterializedBackendKind::Sqlite,
        coordination_revision: Some(7),
        startup_checkpoint_coordination_revision: Some(6),
        startup_checkpoint_version: None,
        startup_checkpoint_materialized_at: None,
        startup_checkpoint_authority: None,
        has_snapshot: true,
        has_canonical_snapshot_v2: false,
        runtime_descriptor_count: 0,
        has_read_model: true,
        has_queue_read_model: true,
    }
}

#[test]
fn read_envelope_wraps_optional_values() {
    let read_model = CoordinationReadModel { revision: 0, body: String::new() };
    let queue_model = CoordinationQueueReadModel { revision: 0, body: String::new() };
    assert_eq!(
        CoordinationMaterializedReadEnvelope::new(metadata(), Some(read_model))
            .metadata
            .coordination_revision,
        Some(7)
    );
    assert!(CoordinationMaterializedReadEnvelope::new(metadata(), Some(queue_model)).value.is_some());
}

fn records() -> MaterializedRecords {
    MaterializedRecords {
        coordination_revision: 9,
        startup_checkpoint: None,
        read_model: None,
        queue_read_model: None,
        compaction: Some(CoordinationSnapshot::default()),
    }
}

#[test]
fn written_read_models_are_served_and_reported() {
    let store = SqliteCoordinationMaterializedStore::new("/repo");
    let mut held = records();
    let result = store.write_read_models(
        &mut held,
        CoordinationReadModelsWriteRequest {
            read_model: CoordinationReadModel { revision: 4, body: "rm".to_string() },
            queue_read_model: CoordinationQueueReadModel { revision: 4, body: "qm".to_string() },
        },
    );
    assert!(result.metadata.has_read_model);
    assert!(result.metadata.has_queue_read_model);
    assert_eq!(result.metadata.coordination_revision, Some(9));
    let served = store.read_effective_read_model(&held, None);
    assert_eq!(served.value, Some(CoordinationReadModel { revision: 4, body: "rm".to_string() }));
}

#[test]
fn missing_read_model_falls_back_to_derived_at_journal_revision() {
    let store = SqliteCoordinationMaterializedStore::new("/repo");
    let held = records();
    let served = store.read_effective_read_model(
        &held,
        Some(CoordinationReadModel { revision: 0, body: "derived".to_string() }),
    );
    assert_eq!(served.value, Some(CoordinationReadModel { revision: 9, body: "derived".to_string() }));
    let queue = store.read_effective_queue_read_model(&held, None);
    assert!(queue.value.is_none());
}

#[test]
fn clearing_everything_leaves_only_the_revision() {
    let store = SqliteCoordinationMaterializedStore::new("/repo");
    let mut held = records();
    store.write_read_models(
        &mut held,
        CoordinationReadModelsWriteRequest {
            read_model: CoordinationReadModel { revision: 1, body: String::new() },
            queue_read_model: CoordinationQueueReadModel { revision: 1, body: String::new() },
        },
    );
    let cleared = store.clear_materialization(&mut held, CoordinationMaterializedClearRequest::all());
    assert!(!cleared.metadata.has_read_model);
    assert!(!cleared.metadata.has_snapshot);
    assert!(held.compaction.is_none());
    assert_eq!(cleared.metadata.coordination_revision, Some(9));
    let capabilities = store.capabilities();
    assert!(capabilities.supports_read_models && capabilities.supports_metadata);
}

#[test]
fn startup_checkpoint_drops_events_and_keeps_descriptors() {
    let mut snapshot = CoordinationSnapshot::default();
    snapshot.next_task = 7;
    snapshot.events.push(CoordinationEvent {
        id: "event:1".to_string(),
        ts: 5,
        summary: "created".to_string(),
    });
    let runtime_descriptors = descriptors();
    let checkpoint = startup_checkpoint(
        1,
        42,
        9,
        CoordinationStartupCheckpointAuthority {
            ref_name: "refs/prism/coordination".to_string(),
            head_commit: Some("abc".to_string()),
            manifest_digest: None,
        },
        &snapshot,
        &CoordinationSnapshotV2::default(),
        Some(&runtime_descriptors),
    );
    assert_eq!(checkpoint.version, 1);
    assert_eq!(checkpoint.materialized_at, 42);
    assert_eq!(checkpoint.coordination_revision, 9);
    assert!(checkpoint.snapshot.events.is_empty());
    assert_eq!(checkpoint.snapshot.next_task, 7);
    assert_eq!(checkpoint.runtime_descriptors, runtime_descriptors);

    let without = startup_checkpoint(
        1,
        42,
        9,
        CoordinationStartupCheckpointAuthority {
            ref_name: "refs/prism/coordination".to_string(),
            head_commit: None,
            manifest_digest: None,
        },
        &snapshot,
        &CoordinationSnapshotV2::default(),
        None,
    );
    assert!(without.runtime_descriptors.is_empty());

    let hydrated = hydrated_plan_state_from_checkpoint(checkpoint);
    assert!(hydrated.snapshot.events.is_empty());
    assert_eq!(hydrated.snapshot.next_task, 7);
    assert_eq!(hydrated.runtime_descriptors, runtime_descriptors);
}

fn db_path(s: &str) -> Vec<String> {
    s.split('/').filter(|p| !p.is_empty()).map(|p| p.to_string()).collect()
}

#[test]
fn legacy_materialization_moves_only_into_a_missing_database() {
    let target_path = db_path("/state/coordination.db");
    let legacy_path = db_path("/state/worktree-cache.db");
    let legacy = || MaterializedRecords {
        coordination_revision: 4,
        startup_checkpoint: None,
        read_model: Some(CoordinationReadModel { revision: 4, body: "plans".to_string() }),
        queue_read_model: None,
        compaction: None,
    };

    let mut target = records();
    assert!(migrate_legacy_worktree_coordination_state(
        &target_path,
        &legacy_path,
        true,
        false,
        &mut target,
        legacy(),
    ));
    assert_eq!(target.coordination_revision, 9);
    assert_eq!(target.read_model, Some(CoordinationReadModel { revision: 4, body: "plans".to_string() }));
    assert!(target.compaction.is_some());
    assert!(target.queue_read_model.is_none());

    for (target_db, legacy_exists, target_exists) in [
        (&legacy_path, true, false),
        (&target_path, false, false),
        (&target_path, true, true),
    ] {
        let mut untouched = records();
        assert!(!migrate_legacy_worktree_coordination_state(
            target_db,
            &legacy_path,
            legacy_exists,
            target_exists,
            &mut untouched,
            legacy(),
        ));
        assert_eq!(untouched, records());
    }
}

#[test]
fn read_models_are_stamped_and_compaction_follows_applied() {
    let store = SqliteCoordinationMaterializedStore::new("/repo");
    let mut snapshot = CoordinationSnapshot::default();
    snapshot.events.push(CoordinationEvent { id: "event:1".to_string(), ts: 1, summary: "created".to_string() });

    let mut disabled = records();
    let phases = persist_read_models_and_compaction(
        &store,
        &mut disabled,
        false,
        12,
        1,
        CoordinationReadModel { revision: 0, body: "plans".to_string() },
        CoordinationQueueReadModel { revision: 0, body: "queue".to_string() },
        snapshot.clone(),
        true,
    );
    assert_eq!(disabled, records());
    assert_eq!(phases.len(), 4);
    assert!(phases.iter().all(|p| p.note == CoordinationPhaseNote::SkippedMaterializationDisabled));

    let mut applied = records();
    applied.compaction = None;
    let phases = persist_read_models_and_compaction(
        &store,
        &mut applied,
        true,
        12,
        1,
        CoordinationReadModel { revision: 0, body: "plans".to_string() },
        CoordinationQueueReadModel { revision: 0, body: "queue".to_string() },
        snapshot.clone(),
        true,
    );
    assert_eq!(applied.read_model, Some(CoordinationReadModel { revision: 12, body: "plans".to_string() }));
    assert_eq!(applied.queue_read_model, Some(CoordinationQueueReadModel { revision: 12, body: "queue".to_string() }));
    assert_eq!(applied.compaction.as_ref().map(|s| s.events.len()), Some(1));
    assert_eq!(applied.coordination_revision, 9);
    let names: Vec<&str> = phases.iter().map(|p| p.operation.as_str()).collect();
    assert_eq!(
        names,
        vec![
            "mutation.coordination.buildReadModel",
            "mutation.coordination.buildQueueReadModel",
            "mutation.coordination.saveReadModels",
            "mutation.coordination.compactEvents",
        ]
    );
    assert_eq!(phases[0].note, CoordinationPhaseNote::ReadModelBuilt { appended_event_count: 1, event_count: 1 });
    assert_eq!(phases[1].note, CoordinationPhaseNote::QueueReadModelBuilt { appended_event_count: 1, task_count: 0 });
    assert_eq!(phases[2].note, CoordinationPhaseNote::ReadModelsSaved { event_count: 1, task_count: 0 });
    assert_eq!(phases[3].note, CoordinationPhaseNote::Compacted);

    let mut unapplied = records();
    unapplied.compaction = None;
    let phases = persist_read_models_and_compaction(
        &store,
        &mut unapplied,
        true,
        12,
        0,
        CoordinationReadModel { revision: 0, body: "plans".to_string() },
        CoordinationQueueReadModel { revision: 0, body: "queue".to_string() },
        snapshot,
        false,
    );
    assert!(unapplied.compaction.is_none());
    assert_eq!(phases[3].note, CoordinationPhaseNote::CompactionSkippedUnapplied);
}
