use prism_core::authority_types::EventExecutionTransitionStatus;
use prism_core::coordination::{EventExecutionOwner, EventTriggerKind};
use prism_core::event_execution::EventExecutionTable;
use prism_core::execution_substrate::{
    MetadataValue, SharedExecutionFamily, SharedExecutionOwnerExpectation, SharedExecutionRecord,
    SharedExecutionRecordQuery, SharedExecutionRunnerCategory, SharedExecutionRunnerRef,
    SharedExecutionSourceRef, SharedExecutionStatus, SharedExecutionTransitionKind,
    SharedExecutionTransitionPreconditions, SharedExecutionTransitionRequest,
};
use prism_core::reads::{CoordinationReadConsistency, CoordinationReadFreshness};
use prism_core::substrate_store::AuthorityBackedSharedExecutionSubstrateStore;

fn record(id: &str, family: SharedExecutionFamily) -> SharedExecutionRecord {
    SharedExecutionRecord {
        execution_id: id.to_string(),
        family,
        source: SharedExecutionSourceRef::EventTrigger {
            trigger_kind: EventTriggerKind::HookRequested,
            trigger_target: None,
            hook_id: None,
            hook_version_digest: None,
            authoritative_revision: None,
        },
        runner: SharedExecutionRunnerRef {
            category: SharedExecutionRunnerCategory::ValidationRunner,
            kind: "checks".to_string(),
        },
        capability_class: None,
        target: None,
        status: SharedExecutionStatus::Claimed,
        owner: Some(EventExecutionOwner {
            principal: None,
            session_id: Some("session:a".to_string()),
            worktree_id: None,
            service_instance_id: None,
        }),
        claimed_at: 10,
        started_at: None,
        finished_at: None,
        expires_at: None,
        summary: None,
        result: None,
        details: MetadataValue::Object(Vec::new()),
    }
}

fn query(id: Option<&str>, family: Option<SharedExecutionFamily>) -> SharedExecutionRecordQuery {
    SharedExecutionRecordQuery {
        consistency: CoordinationReadConsistency::Strong,
        family,
        execution_id: id.map(|s| s.to_string()),
        limit: None,
    }
}

#[test]
fn upserted_shared_record_reads_back() {
    let mut store = AuthorityBackedSharedExecutionSubstrateStore::new(EventExecutionTable::new(), None);
    let r = record("exec:1", SharedExecutionFamily::Validation);
    let written = store.upsert_execution_record(r.clone()).unwrap();
    assert_eq!(written.record, r);
    let read = store.read_execution_records(query(Some("exec:1"), None));
    assert_eq!(read.freshness, CoordinationReadFreshness::VerifiedCurrent);
    assert_eq!(read.value.unwrap(), vec![r]);
}

#[test]
fn reads_keep_only_the_asked_family() {
    let mut store = AuthorityBackedSharedExecutionSubstrateStore::new(EventExecutionTable::new(), None);
    store.upsert_execution_record(record("exec:v", SharedExecutionFamily::Validation)).unwrap();
    store.upsert_execution_record(record("exec:a", SharedExecutionFamily::Action)).unwrap();
    let actions = store
        .read_execution_records(query(None, Some(SharedExecutionFamily::Action)))
        .value
        .unwrap();
    assert_eq!(actions.len(), 1);
    assert_eq!(actions[0].execution_id, "exec:a");
    let all = store.read_execution_records(query(None, None)).value.unwrap();
    assert_eq!(all.len(), 2);
    let none = store
        .read_execution_records(query(Some("exec:v"), Some(SharedExecutionFamily::Action)))
        .value
        .unwrap();
    assert!(none.is_empty());
}

#[test]
fn shared_claim_then_start() {
    let mut store = AuthorityBackedSharedExecutionSubstrateStore::new(EventExecutionTable::new(), None);
    let r = record("exec:claim", SharedExecutionFamily::EventJob);
    let claimed = store
        .apply_execution_transition(SharedExecutionTransitionRequest {
            execution_id: "exec:claim".to_string(),
            preconditions: SharedExecutionTransitionPreconditions {
                require_missing: true,
                expected_status: None,
                expected_owner: SharedExecutionOwnerExpectation::Any,
            },
            transition: SharedExecutionTransitionKind::Claim { record: r.clone() },
        })
        .unwrap();
    assert_eq!(claimed.status, EventExecutionTransitionStatus::Applied);
    assert_eq!(claimed.record, Some(r));

    let started = store
        .apply_execution_transition(SharedExecutionTransitionRequest {
            execution_id: "exec:claim".to_string(),
            preconditions: SharedExecutionTransitionPreconditions {
                require_missing: false,
                expected_status: Some(SharedExecutionStatus::Claimed),
                expected_owner: SharedExecutionOwnerExpectation::Any,
            },
            transition: SharedExecutionTransitionKind::Start { started_at: 20, summary: None },
        })
        .unwrap();
    let started_record = started.record.unwrap();
    assert_eq!(started_record.status, SharedExecutionStatus::Running);
    assert_eq!(started_record.started_at, Some(20));
    assert_eq!(started_record.runner.kind, "checks");
}

#[test]
fn shared_store_refuses_non_event_sources() {
    let mut store = AuthorityBackedSharedExecutionSubstrateStore::new(EventExecutionTable::new(), None);
    let mut r = record("exec:x", SharedExecutionFamily::Action);
    r.source = SharedExecutionSourceRef::Action { action_id: "act".to_string() };
    assert!(store.upsert_execution_record(r).is_err());
    assert!(store.read_execution_records(query(None, None)).value.unwrap().is_empty());
}
