use prism_core::authority_types::{
    EventExecutionOwnerExpectation, EventExecutionTransitionKind, EventExecutionTransitionPreconditions,
    EventExecutionTransitionRequest, EventExecutionTransitionStatus,
};
use prism_core::coordination::{
    EventExecutionOwner, EventExecutionRecord, EventExecutionStatus, EventTriggerKind, NodeRef,
    PrincipalActor, PrincipalKind,
};
use prism_core::event_execution::{
    apply_event_execution_transition, upsert_event_execution_record, EventExecutionTable,
};
use prism_core::execution_substrate::{MetadataEntry, MetadataEntryValue, MetadataValue};

fn event_execution_record(id: &str, claimed_at: u64) -> EventExecutionRecord {
    EventExecutionRecord {
        id: id.to_string(),
        trigger_kind: EventTriggerKind::RecurringPlanTick,
        trigger_target: Some(NodeRef::plan("plan:test".to_string())),
        hook_id: Some("hook:test".to_string()),
        hook_version_digest: Some("sha256:test".to_string()),
        authoritative_revision: Some(1),
        status: EventExecutionStatus::Claimed,
        owner: Some(EventExecutionOwner {
            principal: Some(PrincipalActor {
                authority_id: "authority:test".to_string(),
                principal_id: "principal:test".to_string(),
                kind: Some(PrincipalKind::Agent),
                name: Some("principal:test".to_string()),
            }),
            session_id: Some("session:test".to_string()),
            worktree_id: Some("worktree:test".to_string()),
            service_instance_id: Some("service:test".to_string()),
        }),
        claimed_at,
        started_at: None,
        finished_at: None,
        expires_at: Some(claimed_at + 30),
        summary: Some("tick".to_string()),
        metadata: MetadataValue::Object(vec![MetadataEntry {
            key: "attempt".to_string(),
            value: MetadataEntryValue::Json("1".to_string()),
        }]),
    }
}

fn claim_transition(record: EventExecutionRecord) -> EventExecutionTransitionRequest {
    EventExecutionTransitionRequest {
        event_execution_id: record.id.clone(),
        preconditions: EventExecutionTransitionPreconditions {
            require_missing: true,
            ..EventExecutionTransitionPreconditions::none()
        },
        transition: EventExecutionTransitionKind::Claim { record },
    }
}

#[test]
fn sqlite_authority_round_trips_event_execution_records() {
    let mut table = EventExecutionTable::new();
    let record = event_execution_record("event-exec:sqlite:1", 100);
    let persisted = upsert_event_execution_record(&mut table, None, record.clone());
    assert_eq!(persisted.record, record);
    assert!(persisted.authority.is_none());
    assert_eq!(table.get(&record.id), Some(record));
}

#[test]
fn sqlite_authority_claims_missing_event_execution_record() {
    let mut table = EventExecutionTable::new();
    let record = event_execution_record("event-exec:sqlite:claim", 100);
    let result = apply_event_execution_transition(&mut table, None, claim_transition(record.clone()));
    assert_eq!(result.status, EventExecutionTransitionStatus::Applied);
    assert_eq!(result.record, Some(record.clone()));
    assert_eq!(table.list(None), vec![record]);
}

#[test]
fn sqlite_authority_conflicts_when_event_execution_owner_is_stale() {
    let mut table = EventExecutionTable::new();
    let record = event_execution_record("event-exec:sqlite:owner-conflict", 100);
    let stale_owner = EventExecutionOwner {
        principal: Some(PrincipalActor {
            authority_id: "authority:other".to_string(),
            principal_id: "principal:other".to_string(),
            kind: Some(PrincipalKind::Agent),
            name: Some("principal:other".to_string()),
        }),
        session_id: Some("session:other".to_string()),
        worktree_id: Some("worktree:other".to_string()),
        service_instance_id: Some("service:other".to_string()),
    };
    apply_event_execution_transition(&mut table, None, claim_transition(record.clone()));
    let result = apply_event_execution_transition(
        &mut table,
        None,
        EventExecutionTransitionRequest {
            event_execution_id: record.id.clone(),
            preconditions: EventExecutionTransitionPreconditions {
                require_missing: false,
                expected_status: Some(EventExecutionStatus::Claimed),
                expected_owner: EventExecutionOwnerExpectation::Exact(stale_owner),
            },
            transition: EventExecutionTransitionKind::Start {
                started_at: 110,
                summary: Some("started".to_string()),
            },
        },
    );
    assert_eq!(result.status, EventExecutionTransitionStatus::Conflict);
    assert_eq!(
        result.conflict.as_ref().map(|value| value.reason.as_str()),
        Some("event execution owner no longer matches the expected owner")
    );
    assert_eq!(table.get(&record.id), Some(record));
}

#[test]
fn sqlite_authority_starts_claimed_event_execution_when_preconditions_match() {
    let mut table = EventExecutionTable::new();
    let record = event_execution_record("event-exec:sqlite:start", 100);
    apply_event_execution_transition(&mut table, None, claim_transition(record.clone()));
    let result = apply_event_execution_transition(
        &mut table,
        None,
        EventExecutionTransitionRequest {
            event_execution_id: record.id.clone(),
            preconditions: EventExecutionTransitionPreconditions {
                require_missing: false,
                expected_status: Some(EventExecutionStatus::Claimed),
                expected_owner: EventExecutionOwnerExpectation::Exact(
                    record.owner.clone().expect("event execution owner"),
                ),
            },
            transition: EventExecutionTransitionKind::Start {
                started_at: 120,
                summary: Some("running".to_string()),
            },
        },
    );
    let started = result.record.expect("transition result record");
    assert_eq!(started.status, EventExecutionStatus::Running);
    assert_eq!(started.started_at, Some(120));
    assert_eq!(started.summary.as_deref(), Some("running"));
}

#[test]
fn second_claim_of_same_execution_conflicts() {
    let mut table = EventExecutionTable::new();
    let record = event_execution_record("event-exec:twice", 100);
    apply_event_execution_transition(&mut table, None, claim_transition(record.clone()));
    let mut other = record.clone();
    other.claimed_at = 500;
    let result = apply_event_execution_transition(&mut table, None, claim_transition(other));
    assert_eq!(result.status, EventExecutionTransitionStatus::Conflict);
    assert_eq!(
        result.conflict.map(|c| c.reason),
        Some("event execution record already exists".to_string())
    );
    assert_eq!(table.get(&record.id).unwrap().claimed_at, 100);
}

#[test]
fn transition_of_missing_record_conflicts() {
    let mut table = EventExecutionTable::new();
    let result = apply_event_execution_transition(
        &mut table,
        None,
        EventExecutionTransitionRequest {
            event_execution_id: "nothing".to_string(),
            preconditions: EventExecutionTransitionPreconditions::none(),
            transition: EventExecutionTransitionKind::Fail { finished_at: 1, summary: None },
        },
    );
    assert_eq!(result.status, EventExecutionTransitionStatus::Conflict);
    assert_eq!(
        result.conflict.map(|c| c.reason),
        Some("event execution record does not exist".to_string())
    );
    assert_eq!(table.len(), 0);
}

#[test]
fn status_mismatch_names_both_statuses() {
    let mut table = EventExecutionTable::new();
    let record = event_execution_record("event-exec:status", 100);
    apply_event_execution_transition(&mut table, None, claim_transition(record.clone()));
    let result = apply_event_execution_transition(
        &mut table,
        None,
        EventExecutionTransitionRequest {
            event_execution_id: record.id.clone(),
            preconditions: EventExecutionTransitionPreconditions {
                require_missing: false,
                expected_status: Some(EventExecutionStatus::Running),
                expected_owner: EventExecutionOwnerExpectation::Any,
            },
            transition: EventExecutionTransitionKind::Succeed { finished_at: 150, summary: None },
        },
    );
    assert_eq!(
        result.conflict.map(|c| c.reason),
        Some("event execution status no longer matches: expected `Running`, found `Claimed`".to_string())
    );
}

#[test]
fn finishing_keeps_summary_when_none_given() {
    let mut table = EventExecutionTable::new();
    let record = event_execution_record("event-exec:finish", 100);
    apply_event_execution_transition(&mut table, None, claim_transition(record.clone()));
    let result = apply_event_execution_transition(
        &mut table,
        None,
        EventExecutionTransitionRequest {
            event_execution_id: record.id.clone(),
            preconditions: EventExecutionTransitionPreconditions::none(),
            transition: EventExecutionTransitionKind::Expire { finished_at: 190, summary: None },
        },
    );
    let expired = result.record.unwrap();
    assert_eq!(expired.status, EventExecutionStatus::Expired);
    assert_eq!(expired.finished_at, Some(190));
    assert_eq!(expired.summary.as_deref(), Some("tick"));
    assert_eq!(table.get(&record.id), Some(expired));
}

#[test]
fn listing_respects_the_limit() {
    let mut table = EventExecutionTable::new();
    for i in 0..5u64 {
        upsert_event_execution_record(&mut table, None, event_execution_record(&format!("e{i}"), i));
    }
    upsert_event_execution_record(&mut table, None, event_execution_record("e1", 99));
    assert_eq!(table.len(), 5);
    assert_eq!(table.list(Some(3)).len(), 3);
    assert_eq!(table.list(Some(9)).len(), 5);
    assert_eq!(table.get(&"e1".to_string()).unwrap().claimed_at, 99);
}
