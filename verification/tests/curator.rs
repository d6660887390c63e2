use prism_core::curator::{
    curator_focus_candidates, curator_job_for_observed, curator_record_update, CuratorOutcome, curator_trigger_for_outcome, merge_curator_outcomes,
    next_curator_sequence, record_id_sequence, status_after_backend_error, CuratorJob,
    CuratorJobRecord, CuratorJobStatus, CuratorProposalState, CuratorQueueState, CuratorRun,
    CuratorSnapshot, CuratorTrigger, OutcomeKind, OutcomeResult, RecalledOutcome,
};

fn job() -> CuratorJob {
    CuratorJob { trigger: CuratorTrigger::PostChange, task: None, focus: vec!["node:a".to_string()] }
}

fn record(id: &str) -> CuratorJobRecord {
    CuratorJobRecord {
        id: id.to_string(),
        job: job(),
        status: CuratorJobStatus::Queued,
        created_at: 1,
        started_at: None,
        finished_at: None,
        run: None,
        proposal_states: Vec::new(),
        error: None,
    }
}

#[test]
fn record_ids_end_in_sequence_numbers() {
    assert_eq!(record_id_sequence("curator:17"), Some(17));
    assert_eq!(record_id_sequence("a:b:+5"), Some(5));
    assert_eq!(record_id_sequence("42"), Some(42));
    assert_eq!(record_id_sequence("curator:"), None);
    assert_eq!(record_id_sequence("curator:x1"), None);
    assert_eq!(record_id_sequence("curator:18446744073709551615"), Some(u64::MAX));
    assert_eq!(record_id_sequence("curator:18446744073709551616"), None);
    assert_eq!(record_id_sequence("curator:-1"), None);
}

#[test]
fn next_sequence_is_the_highest_recorded() {
    let snapshot = CuratorSnapshot {
        records: vec![record("curator:3"), record("curator:abc"), record("curator:11"), record("x:2")],
    };
    assert_eq!(next_curator_sequence(&snapshot), 11);
    assert_eq!(next_curator_sequence(&CuratorSnapshot { records: Vec::new() }), 0);
}

fn anchors(ids: &[&str]) -> Vec<String> {
    ids.iter().map(|id| id.to_string()).collect()
}

#[test]
fn observed_changes_call_for_jobs_by_size() {
    let focus = || anchors(&["node:a"]);
    assert_eq!(curator_job_for_observed(true, 9, 9, 9, 9, focus(), &vec![true]), None);
    assert_eq!(curator_job_for_observed(false, 9, 0, 0, 1, Vec::new(), &Vec::new()), None);
    assert_eq!(curator_job_for_observed(false, 1, 0, 0, 1, focus(), &vec![false]), None);
    assert_eq!(
        curator_job_for_observed(false, 1, 0, 0, 1, focus(), &vec![true]),
        Some((CuratorTrigger::PostChange, focus()))
    );
    assert_eq!(
        curator_job_for_observed(false, 1, 1, 1, 1, focus(), &vec![false]),
        Some((CuratorTrigger::PostChange, focus()))
    );
    assert_eq!(
        curator_job_for_observed(false, 2, 2, 1, 1, anchors(&["node:a", "node:b"]), &vec![false, false]),
        Some((CuratorTrigger::HotspotChanged, anchors(&["node:a", "node:b"])))
    );
    assert_eq!(
        curator_job_for_observed(false, 0, 0, 0, 2, focus(), &vec![false]),
        Some((CuratorTrigger::HotspotChanged, focus()))
    );
}

#[test]
fn focus_candidates_list_updated_then_added_then_removed() {
    assert_eq!(
        curator_focus_candidates(&anchors(&["node:u"]), &anchors(&["node:a1", "node:a2"]), &anchors(&["node:r"])),
        anchors(&["node:u", "node:a1", "node:a2", "node:r"])
    );
    assert!(curator_focus_candidates(&Vec::new(), &Vec::new(), &Vec::new()).is_empty());
}

#[test]
fn outcomes_call_for_jobs_by_kind() {
    assert_eq!(curator_trigger_for_outcome(OutcomeKind::FailureObserved, OutcomeResult::Failure, 1), None);
    assert_eq!(
        curator_trigger_for_outcome(OutcomeKind::RegressionObserved, OutcomeResult::Unknown, 2),
        Some(CuratorTrigger::RepeatedFailure)
    );
    assert_eq!(
        curator_trigger_for_outcome(OutcomeKind::FixValidated, OutcomeResult::Success, 0),
        Some(CuratorTrigger::TaskCompleted)
    );
    assert_eq!(
        curator_trigger_for_outcome(OutcomeKind::TestRan, OutcomeResult::Failure, 0),
        Some(CuratorTrigger::RepeatedFailure)
    );
    assert_eq!(curator_trigger_for_outcome(OutcomeKind::BuildRan, OutcomeResult::Success, 5), None);
    assert_eq!(curator_trigger_for_outcome(OutcomeKind::Other, OutcomeResult::Failure, 5), None);
}

fn outcome(id: &str, ts: u64, handle: u64) -> RecalledOutcome {
    RecalledOutcome { id: id.to_string(), ts, handle }
}

#[test]
fn merged_outcomes_are_unique_newest_first_and_limited() {
    let hot = vec![outcome("b", 5, 1), outcome("a", 9, 2), outcome("c", 5, 3)];
    let cold = vec![outcome("a", 1, 4), outcome("d", 7, 5)];
    let merged = merge_curator_outcomes(hot.clone(), cold.clone(), 0);
    let ids: Vec<&str> = merged.iter().map(|o| o.id.as_str()).collect();
    assert_eq!(ids, vec!["a", "d", "b", "c"]);
    assert_eq!(merged[0].handle, 2);
    let limited = merge_curator_outcomes(hot, cold, 2);
    let ids: Vec<&str> = limited.iter().map(|o| o.id.as_str()).collect();
    assert_eq!(ids, vec!["a", "d"]);
    assert!(merge_curator_outcomes(Vec::new(), Vec::new(), 3).is_empty());
}

#[test]
fn queue_loads_once_and_tracks_job_lifecycle() {
    let mut queue = CuratorQueueState::new();
    queue.ensure_loaded(Some(CuratorSnapshot { records: vec![record("curator:4")] }));
    assert!(queue.loaded);
    assert_eq!(queue.next_sequence, 4);
    queue.ensure_loaded(None);
    assert_eq!(queue.snapshot.records.len(), 1);

    queue.enqueue("curator:5".to_string(), job(), 50);
    assert_eq!(queue.next_sequence, 5);
    assert_eq!(queue.snapshot.records[1].status, CuratorJobStatus::Queued);
    assert_eq!(queue.snapshot.records[1].created_at, 50);

    let id = "curator:5".to_string();
    queue.update_record(&id, CuratorJobStatus::Running, 60, None, None);
    assert_eq!(queue.snapshot.records[1].started_at, Some(60));
    queue.update_record(
        &id,
        CuratorJobStatus::Completed,
        70,
        Some(CuratorRun { proposal_count: 2, body: "{}".to_string() }),
        None,
    );
    let done = &queue.snapshot.records[1];
    assert_eq!(done.status, CuratorJobStatus::Completed);
    assert_eq!(done.started_at, Some(60));
    assert_eq!(done.finished_at, Some(70));
    assert_eq!(done.proposal_states, vec![CuratorProposalState::Pending, CuratorProposalState::Pending]);

    queue.update_record(&"missing".to_string(), CuratorJobStatus::Failed, 80, None, Some("x".to_string()));
    assert_eq!(queue.snapshot.records.len(), 2);
    assert_eq!(queue.snapshot.records[0].status, CuratorJobStatus::Queued);
}

#[test]
fn failed_job_records_start_finish_and_error() {
    let mut queue = CuratorQueueState::new();
    queue.ensure_loaded(None);
    queue.enqueue("curator:1".to_string(), job(), 10);
    queue.update_record(&"curator:1".to_string(), CuratorJobStatus::Failed, 30, None, Some("boom".to_string()));
    let rec = &queue.snapshot.records[0];
    assert_eq!(rec.started_at, Some(30));
    assert_eq!(rec.finished_at, Some(30));
    assert_eq!(rec.error.as_deref(), Some("boom"));
    assert_eq!(status_after_backend_error(0), CuratorJobStatus::Failed);
    assert_eq!(status_after_backend_error(3), CuratorJobStatus::Completed);
}

#[test]
fn curation_outcomes_settle_the_record() {
    let run = |n: usize| CuratorRun { proposal_count: n, body: "run".to_string() };
    assert_eq!(
        curator_record_update(CuratorOutcome::Ran(run(0))),
        (CuratorJobStatus::Completed, Some(run(0)), None)
    );
    assert_eq!(
        curator_record_update(CuratorOutcome::ContextFailed("no context".to_string())),
        (CuratorJobStatus::Failed, None, Some("no context".to_string()))
    );
    assert_eq!(
        curator_record_update(CuratorOutcome::BackendFailed { merged: run(2), error: "timeout".to_string() }),
        (CuratorJobStatus::Completed, Some(run(2)), Some("timeout".to_string()))
    );
    assert_eq!(
        curator_record_update(CuratorOutcome::BackendFailed { merged: run(0), error: "timeout".to_string() }),
        (CuratorJobStatus::Failed, Some(run(0)), Some("timeout".to_string()))
    );
}
