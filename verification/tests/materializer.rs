use prism_core::materializer::{
    commits_auxiliary_batch, episodic_write, is_nothing_to_flush, projection_write,
    should_enqueue_deltas, EpisodicWrite, MaterializerEvent, MaterializerMessage, MaterializerStep,
    MaterializerWait,
    PendingMaterializations, ProjectionWrite,
};
use prism_core::sqlite_authority::{db_history_envelope, history_query_limit, MutationLogRow};

#[test]
fn materializer_keeps_latest_snapshots_and_all_deltas() {
    let mut pending: PendingMaterializations<&str> = PendingMaterializations::new();
    assert!(is_nothing_to_flush(&pending));
    assert_eq!(pending.record(MaterializerMessage::GraphSnapshot("g1")), MaterializerStep::Collect);
    pending.record(MaterializerMessage::GraphSnapshot("g2"));
    pending.record(MaterializerMessage::ValidationDeltas(vec!["v1"]));
    pending.record(MaterializerMessage::ProjectionDeltas(vec!["c1"], vec!["v2", "v3"]));
    assert_eq!(pending.graph_snapshot, Some("g2"));
    assert_eq!(pending.validation_deltas, vec!["v1", "v2", "v3"]);
    assert_eq!(pending.co_change_deltas, vec!["c1"]);
    assert_eq!(pending.record(MaterializerMessage::Flush), MaterializerStep::FlushAndReply);
    assert_eq!(projection_write(&pending), ProjectionWrite::ApplyDeltas);
    assert_eq!(episodic_write(&pending), EpisodicWrite::Nothing);
    assert!(commits_auxiliary_batch(&pending, false));

    let batch = pending.take_all();
    assert!(is_nothing_to_flush(&pending));
    assert!(!is_nothing_to_flush(&batch));
    assert_eq!(pending.record(MaterializerMessage::Stop), MaterializerStep::FlushAndStop);
}

#[test]
fn flush_plans_follow_what_waits() {
    let mut pending: PendingMaterializations<u8> = PendingMaterializations::new();
    pending.record(MaterializerMessage::ProjectionSnapshot(1));
    assert_eq!(projection_write(&pending), ProjectionWrite::SaveSnapshot);
    pending.record(MaterializerMessage::ProjectionDeltas(vec![2], Vec::new()));
    assert_eq!(projection_write(&pending), ProjectionWrite::SaveSnapshotWithDeltas);
    pending.record(MaterializerMessage::EpisodicReanchorEvents(vec![3]));
    assert_eq!(episodic_write(&pending), EpisodicWrite::Stored);
    assert!(!commits_auxiliary_batch(&pending, false));
    assert!(commits_auxiliary_batch(&pending, true));
    pending.record(MaterializerMessage::EpisodicSnapshot(4));
    assert_eq!(episodic_write(&pending), EpisodicWrite::Waiting);
    assert!(should_enqueue_deltas(1));
    assert!(!should_enqueue_deltas(0));
}

fn row(sequence: i64, revision: i64, inserted: i64, applied: i64) -> MutationLogRow {
    MutationLogRow { sequence, revision, inserted_events: inserted, applied }
}

#[test]
fn db_history_is_limited_and_summarized() {
    let rows = vec![row(9, 5, 2, 1), row(8, 4, 0, 0), row(7, 3, 1, 1)];
    let envelope = db_history_envelope(&rows, Some(2));
    assert!(envelope.truncated);
    assert_eq!(envelope.entries.len(), 2);
    assert_eq!(envelope.entries[0].transaction_id.as_deref(), Some("sqlite-sequence:9"));
    assert_eq!(envelope.entries[0].snapshot_id.as_deref(), Some("sqlite-revision:5"));
    assert_eq!(envelope.entries[0].summary, "sqlite authority revision 5 committed 2 coordination event(s)");
    assert_eq!(envelope.entries[1].summary, "sqlite authority revision 4 observed no new coordination events");
    let all = db_history_envelope(&rows, None);
    assert!(!all.truncated);
    assert_eq!(all.entries.len(), 3);
    let exact = db_history_envelope(&rows, Some(3));
    assert!(!exact.truncated);
    let negative = db_history_envelope(&vec![row(-1, i64::MIN, 0, 1)], None);
    assert_eq!(negative.entries[0].transaction_id.as_deref(), Some("sqlite-sequence:-1"));
    assert_eq!(
        negative.entries[0].snapshot_id.as_deref(),
        Some("sqlite-revision:-9223372036854775808")
    );
    assert_eq!(history_query_limit(4), 5);
    assert_eq!(history_query_limit(u64::MAX), i64::MAX);
}

#[test]
fn a_quiet_window_after_data_flushes_and_keeps_collecting() {
    let mut pending: PendingMaterializations<u8> = PendingMaterializations::new();
    assert_eq!(
        pending.handle(MaterializerEvent::Message(MaterializerMessage::ValidationDeltas(vec![1]))),
        (MaterializerStep::Collect, MaterializerWait::QuietWindow)
    );
    assert_eq!(pending.validation_deltas, vec![1]);
    assert_eq!(
        pending.handle(MaterializerEvent::QuietWindowElapsed),
        (MaterializerStep::FlushAndKeepCollecting, MaterializerWait::NextMessage)
    );
    assert_eq!(pending.validation_deltas, vec![1]);
    assert_eq!(
        pending.handle(MaterializerEvent::Message(MaterializerMessage::Flush)),
        (MaterializerStep::FlushAndReply, MaterializerWait::NextMessage)
    );
    assert_eq!(
        pending.handle(MaterializerEvent::Disconnected),
        (MaterializerStep::FlushAndStop, MaterializerWait::NextMessage)
    );
    assert_eq!(
        pending.handle(MaterializerEvent::Message(MaterializerMessage::Stop)),
        (MaterializerStep::FlushAndStop, MaterializerWait::NextMessage)
    );
}
