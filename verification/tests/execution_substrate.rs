use prism_core::authority_types::{
    EventExecutionRecordWriteResult, EventExecutionTransitionKind, EventExecutionTransitionResult,
    EventExecutionTransitionStatus,
};
use prism_core::coordination::{
    EventExecutionOwner, EventExecutionRecord, EventExecutionStatus, EventTriggerKind, NodeRef,
};
use prism_core::execution_substrate::{
    attach_execution_substrate_metadata, default_event_runner_kind, infer_target_from_owner,
    shared_execution_metadata_from_value, strip_execution_substrate_metadata,
    MetadataEntry, MetadataEntryValue, MetadataValue, SharedExecutionFamily, SharedExecutionMetadata,
    SharedExecutionOwnerExpectation, SharedExecutionRecord, SharedExecutionRecordWriteResult,
    SharedExecutionRunnerCategory, SharedExecutionRunnerRef, SharedExecutionSourceRef,
    SharedExecutionStatus, SharedExecutionTargetRef, SharedExecutionTransitionKind,
    SharedExecutionTransitionPreconditions, SharedExecutionTransitionRequest,
    SharedExecutionTransitionResult,
};

fn owner() -> EventExecutionOwner {
    EventExecutionOwner {
        principal: None,
        session_id: None,
        worktree_id: Some("worktree:test".to_string()),
        service_instance_id: Some("service:test".to_string()),
    }
}

fn event_trigger_details() -> MetadataValue {
    MetadataValue::Object(vec![MetadataEntry {
        key: "eventTrigger".to_string(),
        value: MetadataEntryValue::Json("{\"kind\":\"recurring_plan_tick\"}".to_string()),
    }])
}

fn shared_record() -> SharedExecutionRecord {
    SharedExecutionRecord {
        execution_id: "event-exec:test".to_string(),
        family: SharedExecutionFamily::EventJob,
        source: SharedExecutionSourceRef::EventTrigger {
            trigger_kind: EventTriggerKind::RecurringPlanTick,
            trigger_target: Some(NodeRef::plan("plan:test".to_string())),
            hook_id: Some("hooks/recurring-plan".to_string()),
            hook_version_digest: Some("sha256:hook".to_string()),
            authoritative_revision: Some(7),
        },
        runner: SharedExecutionRunnerRef {
            category: SharedExecutionRunnerCategory::EventRunner,
            kind: "recurring_plan_tick".to_string(),
        },
        capability_class: None,
        target: Some(SharedExecutionTargetRef::Service {
            worktree_id: Some("worktree:test".to_string()),
            service_instance_id: Some("service:test".to_string()),
        }),
        status: SharedExecutionStatus::Claimed,
        owner: Some(owner()),
        claimed_at: 100,
        started_at: None,
        finished_at: None,
        expires_at: Some(160),
        summary: Some("claimed".to_string()),
        result: None,
        details: event_trigger_details(),
    }
}

fn legacy_record(metadata: MetadataValue) -> EventExecutionRecord {
    EventExecutionRecord {
        id: "event-exec:legacy".to_string(),
        trigger_kind: EventTriggerKind::RecurringPlanTick,
        trigger_target: None,
        hook_id: None,
        hook_version_digest: None,
        authoritative_revision: None,
        status: EventExecutionStatus::Claimed,
        owner: Some(owner()),
        claimed_at: 5,
        started_at: None,
        finished_at: None,
        expires_at: None,
        summary: None,
        metadata,
    }
}

fn has_substrate_entry(value: &MetadataValue) -> bool {
    match value {
        MetadataValue::Object(entries) => entries.iter().any(|e| e.key == "executionSubstrate"),
        _ => false,
    }
}

#[test]
fn shared_execution_record_round_trips_through_event_execution_storage_shape() {
    let shared = shared_record();
    let stored = shared
        .clone()
        .into_event_execution_record()
        .expect("shared execution record should persist through event execution storage");
    assert!(has_substrate_entry(&stored.metadata));

    let round_trip = SharedExecutionRecord::from_event_execution_record(stored);
    assert_eq!(round_trip, shared);
}

#[test]
fn shared_execution_record_infers_default_runner_and_target_from_legacy_event_record() {
    let shared = SharedExecutionRecord::from_event_execution_record(legacy_record(MetadataValue::Null));
    assert_eq!(shared.family, SharedExecutionFamily::EventJob);
    assert_eq!(
        shared.runner,
        SharedExecutionRunnerRef {
            category: SharedExecutionRunnerCategory::EventRunner,
            kind: "recurring_plan_tick".to_string(),
        }
    );
    assert_eq!(
        shared.target,
        Some(SharedExecutionTargetRef::Service {
            worktree_id: Some("worktree:test".to_string()),
            service_instance_id: Some("service:test".to_string()),
        })
    );
}

#[test]
fn legacy_record_without_owner_target_has_no_target() {
    let mut record = legacy_record(MetadataValue::Null);
    record.owner = Some(EventExecutionOwner {
        principal: None,
        session_id: Some("session:x".to_string()),
        worktree_id: None,
        service_instance_id: None,
    });
    let shared = SharedExecutionRecord::from_event_execution_record(record);
    assert_eq!(shared.target, None);
    assert_eq!(shared.details, MetadataValue::Null);
}

#[test]
fn legacy_record_runner_is_named_by_its_hook() {
    let mut record = legacy_record(MetadataValue::Null);
    record.hook_id = Some("hooks/custom".to_string());
    let shared = SharedExecutionRecord::from_event_execution_record(record);
    assert_eq!(shared.runner.kind, "hooks/custom");
}

#[test]
fn runner_kinds_follow_trigger_names() {
    assert_eq!(default_event_runner_kind(EventTriggerKind::TaskBecameActionable), "task_became_actionable");
    assert_eq!(default_event_runner_kind(EventTriggerKind::ClaimExpired), "claim_expired");
    assert_eq!(default_event_runner_kind(EventTriggerKind::RecurringPlanTick), "recurring_plan_tick");
    assert_eq!(default_event_runner_kind(EventTriggerKind::RuntimeBecameStale), "runtime_became_stale");
    assert_eq!(default_event_runner_kind(EventTriggerKind::HookRequested), "hook_requested");
}

#[test]
fn target_is_inferred_only_from_worktree_or_service() {
    assert_eq!(infer_target_from_owner(None), None);
    let o = owner();
    assert!(infer_target_from_owner(Some(&o)).is_some());
}

#[test]
fn non_event_sources_cannot_be_stored() {
    let mut shared = shared_record();
    shared.source = SharedExecutionSourceRef::Validation { task_id: "task:1".to_string() };
    let error = shared.into_event_execution_record().unwrap_err();
    assert_eq!(
        error,
        "shared execution source cannot yet persist through the current authority-backed event execution store"
    );
}

fn metadata() -> SharedExecutionMetadata {
    SharedExecutionMetadata {
        family: SharedExecutionFamily::Action,
        runner: SharedExecutionRunnerRef {
            category: SharedExecutionRunnerCategory::ActionRunner,
            kind: "deploy".to_string(),
        },
        capability_class: None,
        target: None,
        result: None,
    }
}

#[test]
fn attach_wraps_non_object_details() {
    let attached = attach_execution_substrate_metadata(MetadataValue::Other("42".to_string()), metadata());
    match &attached {
        MetadataValue::Object(entries) => {
            assert_eq!(entries.len(), 2);
            assert_eq!(entries[0].key, "details");
            assert_eq!(entries[0].value, MetadataEntryValue::Json("42".to_string()));
            assert_eq!(entries[1].key, "executionSubstrate");
        }
        other => panic!("expected an object, got {other:?}"),
    }
    let null_attached = attach_execution_substrate_metadata(MetadataValue::Null, metadata());
    match &null_attached {
        MetadataValue::Object(entries) => assert_eq!(entries.len(), 1),
        other => panic!("expected an object, got {other:?}"),
    }
    assert_eq!(shared_execution_metadata_from_value(&attached), Some(metadata()));
}

#[test]
fn attach_replaces_an_earlier_substrate_entry_and_strip_removes_it() {
    let once = attach_execution_substrate_metadata(event_trigger_details(), metadata());
    let twice = attach_execution_substrate_metadata(once, metadata());
    match &twice {
        MetadataValue::Object(entries) => assert_eq!(entries.len(), 2),
        other => panic!("expected an object, got {other:?}"),
    }
    assert_eq!(strip_execution_substrate_metadata(twice), event_trigger_details());
    assert_eq!(
        strip_execution_substrate_metadata(MetadataValue::Other("true".to_string())),
        MetadataValue::Other("true".to_string())
    );
}

#[test]
fn undecodable_substrate_entry_gives_no_metadata() {
    let value = MetadataValue::Object(vec![MetadataEntry {
        key: "executionSubstrate".to_string(),
        value: MetadataEntryValue::Json("7".to_string()),
    }]);
    assert_eq!(shared_execution_metadata_from_value(&value), None);
}

#[test]
fn status_conversions_are_inverse() {
    for status in [
        SharedExecutionStatus::Claimed,
        SharedExecutionStatus::Running,
        SharedExecutionStatus::Succeeded,
        SharedExecutionStatus::Failed,
        SharedExecutionStatus::Expired,
        SharedExecutionStatus::Abandoned,
    ] {
        let event = EventExecutionStatus::from(status);
        assert_eq!(SharedExecutionStatus::from(event), status);
    }
}

#[test]
fn transition_requests_convert_to_event_requests() {
    let request = SharedExecutionTransitionRequest {
        execution_id: "event-exec:test".to_string(),
        preconditions: SharedExecutionTransitionPreconditions {
            require_missing: false,
            expected_status: Some(SharedExecutionStatus::Claimed),
            expected_owner: SharedExecutionOwnerExpectation::Missing,
        },
        transition: SharedExecutionTransitionKind::Succeed {
            finished_at: 200,
            summary: Some("done".to_string()),
        },
    };
    let event = request.into_event_execution_transition_request().unwrap();
    assert_eq!(event.event_execution_id, "event-exec:test");
    assert_eq!(event.preconditions.expected_status, Some(EventExecutionStatus::Claimed));
    assert_eq!(
        event.transition,
        EventExecutionTransitionKind::Succeed { finished_at: 200, summary: Some("done".to_string()) }
    );

    let mut bad = shared_record();
    bad.source = SharedExecutionSourceRef::Action { action_id: "a".to_string() };
    let claim = SharedExecutionTransitionRequest {
        execution_id: "x".to_string(),
        preconditions: SharedExecutionTransitionPreconditions::default(),
        transition: SharedExecutionTransitionKind::Claim { record: bad },
    };
    assert!(claim.into_event_execution_transition_request().is_err());
}

#[test]
fn results_convert_to_shared_results() {
    let result = SharedExecutionTransitionResult::from_event_execution_transition_result(
        EventExecutionTransitionResult {
            status: EventExecutionTransitionStatus::Applied,
            authority: None,
            record: Some(legacy_record(MetadataValue::Null)),
            conflict: None,
            diagnostics: Vec::new(),
        },
    );
    assert_eq!(result.status, EventExecutionTransitionStatus::Applied);
    assert_eq!(result.record.unwrap().execution_id, "event-exec:legacy");

    let write = SharedExecutionRecordWriteResult::from_event_execution_record_write_result(
        EventExecutionRecordWriteResult { authority: None, record: legacy_record(MetadataValue::Null) },
    );
    assert_eq!(write.record.family, SharedExecutionFamily::EventJob);
}
