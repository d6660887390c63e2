use prism_core::admission::AdmissionBusyError;
use prism_core::authority_api::{
    checkpoint_authority_from_stamp, coordination_startup_checkpoint_authority_with_provider,
    resolve_coordination_startup_checkpoint_authority, local_runtime_descriptor_publish_request,
    local_runtime_descriptor_publication_result,
    coordination_authority_diagnostics_with_provider, coordination_authority_live_sync_enabled_for,
    git_shared_coordination_ref_diagnostics_with_provider, live_sync_outcome,
    next_live_sync_revision, runtime_descriptor_publication_outcome, CoordinationAuthorityLiveSync,
};
use prism_core::authority_types::{
    CoordinationCommitReceipt, CoordinationDerivedStateMode, CoordinationAuthorityBackendDetails, CoordinationAuthorityProvenance, CoordinationAuthorityStamp, CoordinationAuthorityBackendKind,
    CoordinationConflictInfo, CoordinationCurrentState, CoordinationTransactionBase,
    CoordinationTransactionDiagnostic, CoordinationTransactionResult, CoordinationTransactionStatus,
    RuntimeDescriptorQuery, SharedCoordinationRefDiagnostics,
};
use prism_core::coordination::{
    CoordinationEvent, CoordinationSnapshot, CoordinationSnapshotV2, RuntimeDescriptor,
    RuntimeDiscoveryMode,
};
use prism_core::factory::{CoordinationAuthorityBackendConfig, CoordinationAuthorityStoreProvider};
use prism_core::mutation_error::CoordinationAuthorityMutationStatus;
use prism_core::persistence::{
    authoritative_mutation_outcome, committed_mutation_receipt, CoordinationPhaseNote,
    CoordinationPhaseReport,
    authority_transaction_error, coordination_authority_publication_enabled, coordination_event_delta, should_compact_coordination_events,
};
use prism_core::reads::{CoordinationReadConsistency, CoordinationReadFreshness};
use prism_core::sqlite_authority::{
    history_envelope, list_runtime_descriptors, resolve_db_path, revision_mismatch,
    sqlite_authority_stamp, state_after_clearing, state_after_publishing, validate_transaction_base,
    CoordinationMutationLogEntry,
};

fn runtime_descriptor(runtime_id: &str) -> RuntimeDescriptor {
    RuntimeDescriptor {
        runtime_id: runtime_id.to_string(),
        repo_id: "repo:test".to_string(),
        worktree_id: "worktree:test".to_string(),
        principal_id: "principal:test".to_string(),
        instance_started_at: 1,
        last_seen_at: 2,
        branch_ref: Some("refs/heads/main".to_string()),
        checked_out_commit: Some("abc123".to_string()),
        capabilities: Vec::new(),
        discovery_mode: RuntimeDiscoveryMode::NoDiscovery,
        peer_endpoint: None,
        public_endpoint: None,
        peer_transport_identity: None,
        blob_snapshot_head: None,
        export_policy: None,
    }
}

fn event(id: &str, ts: u64) -> CoordinationEvent {
    CoordinationEvent { id: id.to_string(), ts, summary: "create plan".to_string() }
}

#[test]
fn sqlite_authority_publishes_runtime_descriptors_without_events() {
    let state = state_after_publishing(None, runtime_descriptor("runtime:test"));
    assert!(state.snapshot.events.is_empty());
    let descriptors = list_runtime_descriptors(
        RuntimeDescriptorQuery { consistency: CoordinationReadConsistency::Strong },
        None,
        Some(state),
    )
    .value
    .unwrap();
    assert_eq!(descriptors.len(), 1);
    assert_eq!(descriptors[0].runtime_id, "runtime:test");
}

#[test]
fn publishing_replaces_the_runtime_and_keeps_order() {
    let mut newer = runtime_descriptor("runtime:b");
    newer.last_seen_at = 99;
    let first = state_after_publishing(None, runtime_descriptor("runtime:b"));
    let second = state_after_publishing(Some(first), runtime_descriptor("runtime:a"));
    let third = state_after_publishing(Some(second), newer.clone());
    let ids: Vec<&str> = third.runtime_descriptors.iter().map(|d| d.runtime_id.as_str()).collect();
    assert_eq!(ids, vec!["runtime:a", "runtime:b"]);
    assert_eq!(third.runtime_descriptors[1], newer);
    let cleared = state_after_clearing(Some(third), &"runtime:b".to_string());
    let ids: Vec<&str> = cleared.runtime_descriptors.iter().map(|d| d.runtime_id.as_str()).collect();
    assert_eq!(ids, vec!["runtime:a"]);
}

#[test]
fn strong_listing_without_state_is_unavailable() {
    let strong = list_runtime_descriptors(
        RuntimeDescriptorQuery { consistency: CoordinationReadConsistency::Strong },
        None,
        None,
    );
    assert_eq!(strong.freshness, CoordinationReadFreshness::Unavailable);
    assert!(strong.value.is_none());
    let eventual = list_runtime_descriptors(
        RuntimeDescriptorQuery { consistency: CoordinationReadConsistency::Eventual },
        None,
        None,
    );
    assert_eq!(eventual.value, Some(Vec::new()));
}

#[test]
fn sqlite_authority_conflicts_on_stale_expected_revision() {
    let result = validate_transaction_base(&CoordinationTransactionBase::ExpectedRevision(0), 1, &None)
        .expect("a stale expected revision conflicts");
    assert_eq!(result.status, CoordinationTransactionStatus::Conflict);
    assert!(!result.committed);
    assert_eq!(
        result.conflict.unwrap().reason,
        "authority revision no longer matches the current sqlite state: expected `0`, found `1`"
    );
    assert!(validate_transaction_base(&CoordinationTransactionBase::ExpectedRevision(1), 1, &None).is_none());
    assert!(validate_transaction_base(&CoordinationTransactionBase::LatestStrong, 7, &None).is_none());
}

#[test]
fn sqlite_stamp_names_the_revision() {
    assert!(sqlite_authority_stamp("repo".to_string(), 0, None).is_none());
    let stamp = sqlite_authority_stamp("repo".to_string(), 12, None).unwrap();
    assert_eq!(stamp.backend_kind, CoordinationAuthorityBackendKind::Sqlite);
    assert_eq!(stamp.snapshot_id, "sqlite-revision:12");
    assert_eq!(stamp.transaction_id.as_deref(), Some("sqlite-revision:12"));
}

#[test]
fn history_entries_summarize_mutations() {
    let entries = vec![
        CoordinationMutationLogEntry {
            sequence: 3,
            revision: 2,
            inserted_events: 4,
            applied: true,
            branch_ref: Some("refs/heads/main".to_string()),
            worktree_id: "wt".to_string(),
        },
        CoordinationMutationLogEntry {
            sequence: 4,
            revision: 2,
            inserted_events: 0,
            applied: false,
            branch_ref: None,
            worktree_id: "wt".to_string(),
        },
    ];
    let envelope = history_envelope(&entries, Some(2));
    assert!(envelope.truncated);
    assert_eq!(envelope.entries[0].summary, "applied 4 coordination event(s) for refs/heads/main");
    assert_eq!(envelope.entries[0].transaction_id.as_deref(), Some("sqlite-mutation:3"));
    assert_eq!(envelope.entries[1].summary, "replayed coordination mutation for wt");
    assert!(!history_envelope(&entries, None).truncated);
}

#[test]
fn db_paths_resolve_against_the_root() {
    let root = vec!["/".to_string(), "repo".to_string()];
    assert_eq!(resolve_db_path(&root, &Vec::new()), None);
    assert_eq!(
        resolve_db_path(&root, &vec!["db".to_string(), "a.db".to_string()]),
        Some(vec!["/".to_string(), "repo".to_string(), "db".to_string(), "a.db".to_string()])
    );
    let abs = vec!["/".to_string(), "tmp".to_string(), "a.db".to_string()];
    assert_eq!(resolve_db_path(&root, &abs), Some(abs.clone()));
    assert!(revision_mismatch("store error: coordination revision mismatch at 3"));
    assert!(!revision_mismatch("disk full"));
}

#[test]
fn event_delta_appends_only_new_events() {
    let existing = vec![event("e1", 1), event("e2", 2)];
    let next = vec![event("e1", 1), event("e2", 2), event("e3", 3)];
    assert_eq!(coordination_event_delta(&existing, &next), vec![event("e3", 3)]);
    assert_eq!(coordination_event_delta(&Vec::new(), &next), next);
    assert!(coordination_event_delta(&next, &next).is_empty());
    let diverged = vec![event("x", 9), event("e2", 2), event("e4", 4)];
    assert_eq!(coordination_event_delta(&existing, &diverged), vec![event("x", 9), event("e4", 4)]);
}

#[test]
fn uncommitted_transactions_become_mutation_errors() {
    let conflict = CoordinationTransactionResult {
        status: CoordinationTransactionStatus::Conflict,
        committed: false,
        authority: None,
        commit: None,
        conflict: Some(CoordinationConflictInfo { reason: "stale".to_string() }),
        diagnostics: Vec::new(),
    };
    let error = authority_transaction_error(&conflict, "fallback");
    assert_eq!(error.status, CoordinationAuthorityMutationStatus::Conflict);
    assert_eq!(error.message, "stale");
    assert_eq!(error.to_message(), "stale [authority_transaction_conflict::Conflict]");

    let rejected = CoordinationTransactionResult {
        status: CoordinationTransactionStatus::Rejected,
        committed: false,
        authority: None,
        commit: None,
        conflict: None,
        diagnostics: vec![CoordinationTransactionDiagnostic {
            code: "policy".to_string(),
            message: "denied".to_string(),
        }],
    };
    let error = authority_transaction_error(&rejected, "fallback");
    assert_eq!(error.status, CoordinationAuthorityMutationStatus::Rejected);
    assert_eq!(error.reason_code, "policy");
    assert_eq!(error.message, "denied");
    assert!(should_compact_coordination_events(128));
    assert!(!should_compact_coordination_events(127));
}

#[test]
fn admission_errors_describe_the_busy_lock() {
    let error = AdmissionBusyError::refresh_lock("refresh");
    assert_eq!(error.code(), "runtime_admission_busy");
    assert_eq!(error.resource(), "refresh_lock");
    assert_eq!(
        error.to_message(),
        "request admission busy for `refresh`: `refresh_lock` is currently held"
    );
    assert_eq!(AdmissionBusyError::runtime_sync("sync").resource(), "workspace_runtime_sync_lock");
}

fn shared_ref() -> SharedCoordinationRefDiagnostics {
    SharedCoordinationRefDiagnostics {
        ref_name: "refs/prism/coordination".to_string(),
        head_commit: Some("abc".to_string()),
        last_successful_publish_at: Some(5),
        runtime_descriptors: vec![runtime_descriptor("runtime:1")],
    }
}

#[test]
fn diagnostics_with_provider_report_the_shared_ref() {
    let provider = CoordinationAuthorityStoreProvider::new(CoordinationAuthorityBackendConfig::GitSharedRefs);
    let diagnostics =
        coordination_authority_diagnostics_with_provider("/repo", &provider, Some(shared_ref()), None)
            .unwrap();
    assert_eq!(diagnostics.backend_kind, CoordinationAuthorityBackendKind::GitSharedRefs);
    assert_eq!(diagnostics.runtime_descriptor_count, 1);
    assert_eq!(diagnostics.backend_details, CoordinationAuthorityBackendDetails::GitSharedRefs(shared_ref()));
    assert_eq!(
        git_shared_coordination_ref_diagnostics_with_provider("/repo", &provider, Some(shared_ref()))
            .unwrap(),
        Some(shared_ref())
    );
    let sqlite = CoordinationAuthorityStoreProvider::new(CoordinationAuthorityBackendConfig::Sqlite {
        db_path: "a.db".to_string(),
    });
    assert!(coordination_authority_diagnostics_with_provider("/repo", &sqlite, None, None).is_err());
}

#[test]
fn live_sync_follows_the_backend() {
    assert!(coordination_authority_live_sync_enabled_for(CoordinationAuthorityBackendKind::GitSharedRefs));
    assert!(!coordination_authority_live_sync_enabled_for(CoordinationAuthorityBackendKind::Sqlite));
    let state = CoordinationCurrentState {
        snapshot: CoordinationSnapshot::default(),
        canonical_snapshot_v2: CoordinationSnapshotV2::default(),
        runtime_descriptors: Vec::new(),
    };
    assert_eq!(
        live_sync_outcome(CoordinationAuthorityBackendKind::Sqlite, Some(state.clone())),
        CoordinationAuthorityLiveSync::Unchanged
    );
    assert_eq!(
        live_sync_outcome(CoordinationAuthorityBackendKind::GitSharedRefs, Some(state.clone())),
        CoordinationAuthorityLiveSync::Changed(state)
    );
    assert_eq!(next_live_sync_revision(3, 7), 8);
    assert_eq!(next_live_sync_revision(u64::MAX, 1), u64::MAX);
}

#[test]
fn publication_outcome_names_the_status() {
    let mut result = CoordinationTransactionResult {
        status: CoordinationTransactionStatus::Committed,
        committed: true,
        authority: None,
        commit: None,
        conflict: None,
        diagnostics: Vec::new(),
    };
    assert!(runtime_descriptor_publication_outcome(&result).is_ok());
    result.committed = false;
    result.status = CoordinationTransactionStatus::Rejected;
    assert_eq!(
        runtime_descriptor_publication_outcome(&result).unwrap_err(),
        "runtime descriptor publication did not commit successfully: Rejected"
    );
}

#[test]
fn publication_is_enabled_unless_disabled_without_opt_in() {
    assert!(coordination_authority_publication_enabled(None, false));
    assert!(coordination_authority_publication_enabled(Some("0"), false));
    assert!(!coordination_authority_publication_enabled(Some("true"), false));
    assert!(coordination_authority_publication_enabled(Some("true"), true));
}

fn stamp(kind: CoordinationAuthorityBackendKind, ref_name: Option<&str>) -> CoordinationAuthorityStamp {
    CoordinationAuthorityStamp {
        backend_kind: kind,
        logical_repo_id: "repo:test".to_string(),
        snapshot_id: "snapshot:1".to_string(),
        transaction_id: None,
        committed_at: Some(3),
        provenance: CoordinationAuthorityProvenance {
            ref_name: ref_name.map(|r| r.to_string()),
            head_commit: Some("abc".to_string()),
            manifest_digest: Some("digest".to_string()),
        },
    }
}

#[test]
fn checkpoint_authority_names_backend_when_provenance_has_no_ref() {
    assert!(checkpoint_authority_from_stamp(None).is_none());
    let named = checkpoint_authority_from_stamp(Some(stamp(
        CoordinationAuthorityBackendKind::Sqlite,
        Some("refs/prism/coordination"),
    )))
    .unwrap();
    assert_eq!(named.ref_name, "refs/prism/coordination");
    assert_eq!(named.head_commit.as_deref(), Some("abc"));
    assert_eq!(named.manifest_digest.as_deref(), Some("digest"));
    let shared =
        checkpoint_authority_from_stamp(Some(stamp(CoordinationAuthorityBackendKind::GitSharedRefs, None)))
            .unwrap();
    assert_eq!(shared.ref_name, "shared-coordination");
    let sqlite =
        checkpoint_authority_from_stamp(Some(stamp(CoordinationAuthorityBackendKind::Sqlite, None)))
            .unwrap();
    assert_eq!(sqlite.ref_name, "sqlite-authority");
    let postgres =
        checkpoint_authority_from_stamp(Some(stamp(CoordinationAuthorityBackendKind::Postgres, None)))
            .unwrap();
    assert_eq!(postgres.ref_name, "postgres-authority");
}

#[test]
fn checkpoint_authority_with_provider_reports_open_errors() {
    let shared = CoordinationAuthorityStoreProvider::new(CoordinationAuthorityBackendConfig::GitSharedRefs);
    let found = coordination_startup_checkpoint_authority_with_provider(
        "/repo",
        &shared,
        Some(stamp(CoordinationAuthorityBackendKind::GitSharedRefs, None)),
    )
    .unwrap()
    .unwrap();
    assert_eq!(found.ref_name, "shared-coordination");
    let sqlite = CoordinationAuthorityStoreProvider::new(CoordinationAuthorityBackendConfig::Sqlite {
        db_path: "state.db".to_string(),
    });
    assert!(coordination_startup_checkpoint_authority_with_provider("/repo", &sqlite, None).is_err());
}

#[test]
fn unresolved_checkpoint_authority_is_the_local_worktree() {
    let local = resolve_coordination_startup_checkpoint_authority(None);
    assert_eq!(local.ref_name, "local-worktree");
    assert!(local.head_commit.is_none());
    assert!(local.manifest_digest.is_none());
    let found = checkpoint_authority_from_stamp(Some(stamp(CoordinationAuthorityBackendKind::GitSharedRefs, None)));
    let resolved = resolve_coordination_startup_checkpoint_authority(found);
    assert_eq!(resolved.ref_name, "shared-coordination");
    assert_eq!(resolved.head_commit.as_deref(), Some("abc"));
}

fn transaction(status: CoordinationTransactionStatus, commit: Option<CoordinationCommitReceipt>) -> CoordinationTransactionResult {
    CoordinationTransactionResult {
        status,
        committed: status == CoordinationTransactionStatus::Committed,
        authority: None,
        commit,
        conflict: None,
        diagnostics: Vec::new(),
    }
}

#[test]
fn uncommitted_mutation_errors_name_why() {
    let conflict = committed_mutation_receipt(&transaction(CoordinationTransactionStatus::Conflict, None), 4, 2)
        .unwrap_err();
    assert_eq!(conflict.status, CoordinationAuthorityMutationStatus::Conflict);
    assert_eq!(conflict.reason_code, "authority_transaction_conflict");
    assert_eq!(conflict.message, "coordination authority transaction did not commit successfully");
    let unknown = committed_mutation_receipt(&transaction(CoordinationTransactionStatus::Indeterminate, None), 4, 2)
        .unwrap_err();
    assert_eq!(unknown.status, CoordinationAuthorityMutationStatus::Indeterminate);
    assert_eq!(unknown.reason_code, "authority_transaction_failed");
    let receipt = committed_mutation_receipt(&transaction(CoordinationTransactionStatus::Committed, None), 4, 2).unwrap();
    assert_eq!(receipt, CoordinationCommitReceipt { revision: 5, inserted_events: 2, applied: true });
}

#[test]
fn unapplied_commits_report_skipped_or_deferred_phases() {
    let unapplied = Some(CoordinationCommitReceipt { revision: 7, inserted_events: 0, applied: false });
    let (phases, receipt) = authoritative_mutation_outcome(
        &transaction(CoordinationTransactionStatus::Committed, unapplied),
        6,
        1,
        CoordinationDerivedStateMode::Inline,
    );
    let receipt = receipt.unwrap();
    assert_eq!(receipt.revision, 7);
    assert!(!receipt.applied);
    let names: Vec<&str> = phases.iter().map(|p| p.operation.as_str()).collect();
    assert_eq!(
        names,
        vec![
            "mutation.coordination.authority.applyTransaction",
            "mutation.coordination.publishedPlans.syncTrackedSnapshot",
            "mutation.coordination.publishedPlans.saveStartupCheckpoint",
            "mutation.coordination.syncDerivedState",
        ]
    );
    assert_eq!(
        phases[0].note,
        CoordinationPhaseNote::Transaction {
            committed: true,
            status: CoordinationTransactionStatus::Committed,
            appended_event_count: 1,
        }
    );
    assert_eq!(phases[1].note, CoordinationPhaseNote::SkippedUnapplied);
    assert_eq!(phases[3].note, CoordinationPhaseNote::Noop);

    let (deferred, _) = authoritative_mutation_outcome(
        &transaction(CoordinationTransactionStatus::Committed, unapplied),
        6,
        1,
        CoordinationDerivedStateMode::Deferred,
    );
    assert_eq!(deferred[2].note, CoordinationPhaseNote::DeferredUnapplied);

    let (applied_deferred, _) = authoritative_mutation_outcome(
        &transaction(CoordinationTransactionStatus::Committed, None),
        6,
        1,
        CoordinationDerivedStateMode::Deferred,
    );
    assert_eq!(applied_deferred[1].note, CoordinationPhaseNote::Deferred);
    assert_eq!(applied_deferred[3].note, CoordinationPhaseNote::AuthorityOnly);

    let (inline, _) = authoritative_mutation_outcome(
        &transaction(CoordinationTransactionStatus::Committed, None),
        6,
        1,
        CoordinationDerivedStateMode::Inline,
    );
    assert_eq!(inline.len(), 1);

    let (rejected_phases, rejected) = authoritative_mutation_outcome(
        &transaction(CoordinationTransactionStatus::Rejected, None),
        6,
        3,
        CoordinationDerivedStateMode::Inline,
    );
    assert!(rejected.is_err());
    assert_eq!(
        rejected_phases,
        vec![CoordinationPhaseReport {
            operation: "mutation.coordination.authority.applyTransaction".to_string(),
            note: CoordinationPhaseNote::Transaction {
                committed: false,
                status: CoordinationTransactionStatus::Rejected,
                appended_event_count: 3,
            },
        }]
    );
}

#[test]
fn publishing_keeps_equal_runtime_ids_in_stored_order() {
    let mut first_c = runtime_descriptor("runtime:c");
    first_c.last_seen_at = 10;
    let mut second_c = runtime_descriptor("runtime:c");
    second_c.last_seen_at = 20;
    let current = CoordinationCurrentState {
        snapshot: CoordinationSnapshot::default(),
        canonical_snapshot_v2: CoordinationSnapshotV2::default(),
        runtime_descriptors: vec![first_c.clone(), runtime_descriptor("runtime:b"), second_c.clone()],
    };
    let state = state_after_publishing(Some(current), runtime_descriptor("runtime:a"));
    let ids: Vec<&str> = state.runtime_descriptors.iter().map(|d| d.runtime_id.as_str()).collect();
    assert_eq!(ids, vec!["runtime:a", "runtime:b", "runtime:c", "runtime:c"]);
    assert_eq!(state.runtime_descriptors[2], first_c);
    assert_eq!(state.runtime_descriptors[3], second_c);
}

#[test]
fn local_descriptor_publication_builds_a_latest_strong_request() {
    let shared = CoordinationAuthorityStoreProvider::new(CoordinationAuthorityBackendConfig::GitSharedRefs);
    let request =
        local_runtime_descriptor_publish_request("/repo", &shared, runtime_descriptor("runtime:local")).unwrap();
    assert_eq!(request.base, CoordinationTransactionBase::LatestStrong);
    assert_eq!(request.descriptor, runtime_descriptor("runtime:local"));
    let sqlite = CoordinationAuthorityStoreProvider::new(CoordinationAuthorityBackendConfig::Sqlite {
        db_path: "state.db".to_string(),
    });
    assert!(local_runtime_descriptor_publish_request("/repo", &sqlite, runtime_descriptor("runtime:local")).is_err());

    assert_eq!(
        local_runtime_descriptor_publication_result(Err("store offline".to_string())),
        Err("store offline".to_string())
    );
    let committed = transaction(CoordinationTransactionStatus::Committed, None);
    assert_eq!(local_runtime_descriptor_publication_result(Ok(committed)), Ok(()));
    let mut result = transaction(CoordinationTransactionStatus::Committed, None);
    result.status = CoordinationTransactionStatus::Rejected;
    result.committed = false;
    assert_eq!(
        local_runtime_descriptor_publication_result(Ok(result)),
        Err("runtime descriptor publication did not commit successfully: Rejected".to_string())
    );
}
