//! The SQLite-backed coordination authority: how it stamps its state, checks
//! a write's base, answers reads and reports its history, from what was
//! loaded out of its database.
use vstd::prelude::*;

use crate::authority_types::{
    opt_stamp_view, CoordinationAuthorityBackendDetails, CoordinationAuthorityBackendKind,
    CoordinationAuthorityCapabilities, CoordinationAuthorityDiagnostics,
    CoordinationAuthorityProvenance, CoordinationAuthorityStamp, CoordinationAuthoritySummary,
    CoordinationCommitReceipt, CoordinationConflictInfo, CoordinationCurrentState,
    CoordinationHistoryEntry, CoordinationHistoryEnvelope, CoordinationReadEnvelope,
    CoordinationTransactionBase, CoordinationTransactionResult, CoordinationTransactionStatus,
    CurrentStateView, RuntimeDescriptorQuery, SqliteCoordinationAuthorityBackendDetails,
};
use crate::checkpoint::{effective_revision, max_u64, merge_checkpoint_counters, merged_counters, CoordinationStartupCheckpoint};
use crate::coordination::{
    ids_view,
    descriptors_view, opt_str_view, CoordinationSnapshot, CoordinationSnapshotView,
    RuntimeDescriptor,
};
use crate::reads::{CoordinationReadConsistency, CoordinationReadFreshness};
use crate::runtime_registry::{
    cleared_runtime_descriptors, published_runtime_descriptors, sorted_by_runtime_id, stable_sorted_by_runtime_id,
    without_runtime,
};
use crate::text::{
    append_decimal, append_signed_decimal, contains_seq, decimal, signed_decimal, str_contains,
    str_eq,
};

verus! {

/// A coordination authority kept in a SQLite database.
#[derive(Debug)]
pub struct SqliteCoordinationAuthorityStore {
    root: String,
    db_path: String,
}

impl SqliteCoordinationAuthorityStore {
    pub closed spec fn spec_root(&self) -> Seq<char> {
        self.root@
    }

    pub closed spec fn spec_db_path(&self) -> Seq<char> {
        self.db_path@
    }

    /// The authority of the workspace at `root`, kept at `db_path`.
    pub fn new(root: &str, db_path: &str) -> (s: Self)
        ensures
            s.spec_root() == root@,
            s.spec_db_path() == db_path@,
    {
        SqliteCoordinationAuthorityStore {
            root: String::from_str(root),
            db_path: String::from_str(db_path),
        }
    }

    pub fn root(&self) -> (r: &str)
        ensures
            r@ == self.spec_root(),
    {
        self.root.as_str()
    }

    pub fn db_path(&self) -> (r: &str)
        ensures
            r@ == self.spec_db_path(),
    {
        self.db_path.as_str()
    }
}

/// What the SQLite authority supports.
pub fn sqlite_authority_capabilities() -> (c: CoordinationAuthorityCapabilities)
    ensures
        c == (CoordinationAuthorityCapabilities {
            supports_eventual_reads: false,
            supports_transactions: true,
            supports_runtime_descriptors: true,
            supports_event_execution_records: true,
            supports_retained_history: true,
            supports_diagnostics: true,
        }),
{
    CoordinationAuthorityCapabilities {
        supports_eventual_reads: false,
        supports_transactions: true,
        supports_runtime_descriptors: true,
        supports_event_execution_records: true,
        supports_retained_history: true,
        supports_diagnostics: true,
    }
}

/// The snapshot id of the SQLite authority at a revision.
pub open spec fn sqlite_revision_id(revision: u64) -> Seq<char> {
    "sqlite-revision:"@ + decimal(revision as nat)
}

/// The stamp of the SQLite authority: none while nothing was ever committed
/// or checkpointed, else the effective revision, committed at the
/// checkpoint's materialization time.
pub fn sqlite_authority_stamp(
    logical_repo_id: String,
    revision: u64,
    checkpoint: Option<&CoordinationStartupCheckpoint>,
) -> (r: Option<CoordinationAuthorityStamp>)
    ensures
        ({
            let eff = match checkpoint {
                Some(c) => max_u64(c.coordination_revision, revision),
                None => revision,
            };
            &&& r is None <==> (eff == 0 && checkpoint is None)
            &&& r matches Some(s) ==> {
                &&& s.backend_kind == CoordinationAuthorityBackendKind::Sqlite
                &&& s.logical_repo_id == logical_repo_id
                &&& s.snapshot_id@ == sqlite_revision_id(eff)
                &&& opt_str_view(s.transaction_id) == Some(sqlite_revision_id(eff))
                &&& s.committed_at == match checkpoint {
                    Some(c) => Some(c.materialized_at),
                    None => None,
                }
                &&& opt_str_view(s.provenance.ref_name) == Some("sqlite-authority"@)
                &&& s.provenance.head_commit is None
                &&& s.provenance.manifest_digest is None
            }
        }),
{
    let eff = match checkpoint {
        Some(c) => effective_revision(revision, Some(c.coordination_revision)),
        None => effective_revision(revision, None),
    };
    if eff == 0 && checkpoint.is_none() {
        return None;
    }
    let mut snapshot_id = String::from_str("sqlite-revision:");
    append_decimal(&mut snapshot_id, eff);
    let committed_at = match checkpoint {
        Some(c) => Some(c.materialized_at),
        None => None,
    };
    Some(
        CoordinationAuthorityStamp {
            backend_kind: CoordinationAuthorityBackendKind::Sqlite,
            logical_repo_id,
            snapshot_id: snapshot_id.clone(),
            transaction_id: Some(snapshot_id),
            committed_at,
            provenance: CoordinationAuthorityProvenance {
                ref_name: Some(String::from_str("sqlite-authority")),
                head_commit: None,
                manifest_digest: None,
            },
        },
    )
}

/// A conflict answer at `authority` with the given reason.
pub fn conflict_transaction_result(
    authority: Option<CoordinationAuthorityStamp>,
    reason: String,
) -> (r: CoordinationTransactionResult)
    ensures
        r.status == CoordinationTransactionStatus::Conflict,
        !r.committed,
        r.authority == authority,
        r.commit is None,
        r.conflict is Some && r.conflict->0.reason == reason,
        r.diagnostics@.len() == 0,
{
    CoordinationTransactionResult {
        status: CoordinationTransactionStatus::Conflict,
        committed: false,
        authority,
        commit: None,
        conflict: Some(CoordinationConflictInfo { reason }),
        diagnostics: Vec::new(),
    }
}

/// Why a write based on `base` conflicts with the current state, or `None`
/// when it may proceed.
pub open spec fn base_conflict(
    base: CoordinationTransactionBase,
    current_revision: u64,
    current_authority: Option<CoordinationAuthorityStamp>,
) -> Option<Seq<char>> {
    match base {
        CoordinationTransactionBase::LatestStrong => None,
        CoordinationTransactionBase::ExpectedRevision(expected) => if expected == current_revision {
            None
        } else {
            Some(
                "authority revision no longer matches the current sqlite state: expected `"@
                    + decimal(expected as nat) + "`, found `"@ + decimal(current_revision as nat)
                    + "`"@,
            )
        },
        CoordinationTransactionBase::ExpectedAuthorityStamp(expected) => if opt_stamp_view(
            current_authority,
        ) == Some(expected@) {
            None
        } else {
            Some("authority stamp no longer matches the current sqlite authority state"@)
        },
    }
}

/// Checks a write's base against the current revision and stamp: `None`
/// when the write may proceed, else the conflict answer.
pub fn validate_transaction_base(
    base: &CoordinationTransactionBase,
    current_revision: u64,
    current_authority: &Option<CoordinationAuthorityStamp>,
) -> (r: Option<CoordinationTransactionResult>)
    ensures
        r.is_some() == base_conflict(*base, current_revision, *current_authority).is_some(),
        r matches Some(res) ==> {
            &&& res.status == CoordinationTransactionStatus::Conflict
            &&& !res.committed
            &&& res.authority == *current_authority
            &&& res.commit is None
            &&& res.conflict is Some
            &&& res.conflict->0.reason@ == base_conflict(
                *base,
                current_revision,
                *current_authority,
            )->0
            &&& res.diagnostics@.len() == 0
        },
{
    match base {
        CoordinationTransactionBase::LatestStrong => None,
        CoordinationTransactionBase::ExpectedRevision(expected) => {
            if *expected == current_revision {
                return None;
            }
            let mut reason = String::from_str(
                "authority revision no longer matches the current sqlite state: expected `",
            );
            append_decimal(&mut reason, *expected);
            reason.append("`, found `");
            append_decimal(&mut reason, current_revision);
            reason.append("`");
            Some(conflict_transaction_result(current_authority.clone(), reason))
        },
        CoordinationTransactionBase::ExpectedAuthorityStamp(expected) => {
            let same = match current_authority {
                Some(a) => a.same_as(expected),
                None => false,
            };
            if same {
                return None;
            }
            Some(
                conflict_transaction_result(
                    current_authority.clone(),
                    String::from_str(
                        "authority stamp no longer matches the current sqlite authority state",
                    ),
                ),
            )
        },
    }
}

/// The revision the journal commit must find: none for the latest state,
/// the expected revision, or the current revision for a stamp base.
pub fn commit_expected_revision(base: &CoordinationTransactionBase, current_revision: u64) -> (r:
    Option<u64>)
    ensures
        r == match *base {
            CoordinationTransactionBase::LatestStrong => None,
            CoordinationTransactionBase::ExpectedRevision(e) => Some(e),
            CoordinationTransactionBase::ExpectedAuthorityStamp(_) => Some(current_revision),
        },
{
    match base {
        CoordinationTransactionBase::LatestStrong => None,
        CoordinationTransactionBase::ExpectedRevision(e) => Some(*e),
        CoordinationTransactionBase::ExpectedAuthorityStamp(_) => Some(current_revision),
    }
}

/// A journal error that reports a revision mismatch is a conflict whose
/// reason is the error message; any other error is not.
pub fn conflict_from_revision_mismatch(
    error_message: &str,
    authority: Option<CoordinationAuthorityStamp>,
) -> (r: Option<CoordinationTransactionResult>)
    ensures
        r.is_some() == contains_seq(error_message@, "coordination revision mismatch"@),
        r matches Some(res) ==> {
            &&& res.status == CoordinationTransactionStatus::Conflict
            &&& !res.committed
            &&& res.authority == authority
            &&& res.conflict is Some
            &&& res.conflict->0.reason@ == error_message@
        },
{
    if str_contains(error_message, "coordination revision mismatch") {
        Some(conflict_transaction_result(authority, String::from_str(error_message)))
    } else {
        None
    }
}

/// What the journal reports of an append.
#[derive(Debug, Clone, Copy, PartialEq, Eq, Structural)]
pub struct CoordinationPersistResult {
    pub revision: u64,
    pub inserted_events: usize,
    pub applied: bool,
}

/// The committed answer, with the journal's receipt when there was an append.
pub fn committed_transaction_result(
    authority: Option<CoordinationAuthorityStamp>,
    persisted: Option<CoordinationPersistResult>,
) -> (r: CoordinationTransactionResult)
    ensures
        r.status == CoordinationTransactionStatus::Committed,
        r.committed,
        r.authority == authority,
        r.commit == match persisted {
            Some(p) => Some(
                CoordinationCommitReceipt {
                    revision: p.revision,
                    inserted_events: p.inserted_events,
                    applied: p.applied,
                },
            ),
            None => None,
        },
        r.conflict is None,
        r.diagnostics@.len() == 0,
{
    CoordinationTransactionResult {
        status: CoordinationTransactionStatus::Committed,
        committed: true,
        authority,
        commit: match persisted {
            Some(p) => Some(
                CoordinationCommitReceipt {
                    revision: p.revision,
                    inserted_events: p.inserted_events,
                    applied: p.applied,
                },
            ),
            None => None,
        },
        conflict: None,
        diagnostics: Vec::new(),
    }
}

/// The current state from what was loaded: the state replayed from the
/// journal, with the checkpoint's counters and canonical form when the
/// checkpoint is at the effective revision, and the checkpoint's runtime
/// descriptors; or, with nothing to replay, the checkpoint's own state.
pub open spec fn loaded_current_state(
    replayed: Option<CoordinationSnapshotView>,
    checkpoint: Option<CurrentStateView>,
    checkpoint_revision: Option<u64>,
    effective: u64,
) -> Option<CurrentStateView> {
    match replayed {
        Some(snapshot) => {
            let at_revision = checkpoint is Some && checkpoint_revision == Some(effective);
            let snapshot = if at_revision {
                merged_counters(snapshot, checkpoint->0.snapshot)
            } else {
                snapshot
            };
            Some(
                CurrentStateView {
                    canonical_snapshot_v2: if at_revision {
                        checkpoint->0.canonical_snapshot_v2
                    } else {
                        crate::coordination::CoordinationSnapshotV2View {
                            events: snapshot.events,
                        }
                    },
                    snapshot,
                    runtime_descriptors: match checkpoint {
                        Some(c) => c.runtime_descriptors,
                        None => Seq::empty(),
                    },
                },
            )
        },
        None => checkpoint,
    }
}

pub open spec fn checkpoint_view(c: CoordinationStartupCheckpoint) -> CurrentStateView {
    CurrentStateView {
        snapshot: c.snapshot@,
        canonical_snapshot_v2: c.canonical_snapshot_v2@,
        runtime_descriptors: descriptors_view(c.runtime_descriptors@),
    }
}

/// Builds the current state from the journal replay and the checkpoint.
pub fn load_current_state(
    replayed: Option<CoordinationSnapshot>,
    checkpoint: Option<CoordinationStartupCheckpoint>,
    effective: u64,
) -> (r: Option<CoordinationCurrentState>)
    ensures
        match r {
            Some(s) => Some(s@),
            None => None::<CurrentStateView>,
        } == loaded_current_state(
            match replayed {
                Some(s) => Some(s@),
                None => None,
            },
            match checkpoint {
                Some(c) => Some(checkpoint_view(c)),
                None => None,
            },
            match checkpoint {
                Some(c) => Some(c.coordination_revision),
                None => None,
            },
            effective,
        ),
{
    match replayed {
        Some(snapshot) => {
            let at_revision = match &checkpoint {
                Some(c) => c.coordination_revision == effective,
                None => false,
            };
            let snapshot = if at_revision {
                merge_checkpoint_counters(snapshot, &checkpoint.as_ref().unwrap().snapshot)
            } else {
                snapshot
            };
            let canonical_snapshot_v2 = if at_revision {
                checkpoint.as_ref().unwrap().canonical_snapshot_v2.clone()
            } else {
                snapshot.to_canonical_snapshot_v2()
            };
            let runtime_descriptors = match checkpoint {
                Some(c) => c.runtime_descriptors,
                None => Vec::new(),
            };
            proof {
                assert(descriptors_view(Seq::<RuntimeDescriptor>::empty()) =~= Seq::empty());
            }
            Some(CoordinationCurrentState { canonical_snapshot_v2, snapshot, runtime_descriptors })
        },
        None => match checkpoint {
            Some(c) => Some(crate::checkpoint::checkpoint_state(c)),
            None => None,
        },
    }
}

/// Reads the current state: verified current when there is one, else
/// unavailable.
pub fn read_current_state(
    consistency: CoordinationReadConsistency,
    authority: Option<CoordinationAuthorityStamp>,
    state: Option<CoordinationCurrentState>,
) -> (r: CoordinationReadEnvelope<CoordinationCurrentState>)
    ensures
        r.consistency == consistency,
        r.authority == authority,
        r.value == state,
        r.refresh_error is None,
        r.freshness == if state is Some {
            CoordinationReadFreshness::VerifiedCurrent
        } else {
            CoordinationReadFreshness::Unavailable
        },
{
    match state {
        Some(s) => CoordinationReadEnvelope::verified_current(consistency, authority, s),
        None => CoordinationReadEnvelope::unavailable(consistency, authority, None),
    }
}

/// Summarizes the current state; the summary is always verified current.
pub fn read_summary(
    consistency: CoordinationReadConsistency,
    authority: Option<CoordinationAuthorityStamp>,
    state: &Option<CoordinationCurrentState>,
) -> (r: CoordinationReadEnvelope<CoordinationAuthoritySummary>)
    ensures
        r.consistency == consistency,
        r.authority == authority,
        r.freshness == CoordinationReadFreshness::VerifiedCurrent,
        r.value == Some(
            CoordinationAuthoritySummary {
                has_current_state: state is Some,
                runtime_descriptor_count: match state {
                    Some(s) => s.runtime_descriptors@.len() as usize,
                    None => 0,
                },
            },
        ),
        r.refresh_error is None,
{
    let count = match state {
        Some(s) => s.runtime_descriptors.len(),
        None => 0,
    };
    CoordinationReadEnvelope::verified_current(
        consistency,
        authority,
        CoordinationAuthoritySummary {
            has_current_state: state.is_some(),
            runtime_descriptor_count: count,
        },
    )
}

/// Lists the runtime descriptors: those of the current state; with no
/// current state, nothing for an eventual read and unavailable for a strong
/// one.
pub fn list_runtime_descriptors(
    request: RuntimeDescriptorQuery,
    authority: Option<CoordinationAuthorityStamp>,
    state: Option<CoordinationCurrentState>,
) -> (r: CoordinationReadEnvelope<Vec<RuntimeDescriptor>>)
    ensures
        r.consistency == request.consistency,
        r.authority == authority,
        r.refresh_error is None,
        match state {
            Some(s) => r.freshness == CoordinationReadFreshness::VerifiedCurrent && r.value == Some(
                s.runtime_descriptors,
            ),
            None => if request.consistency == CoordinationReadConsistency::Strong {
                r.freshness == CoordinationReadFreshness::Unavailable && r.value is None
            } else {
                r.freshness == CoordinationReadFreshness::VerifiedCurrent && r.value is Some
                    && r.value->0@.len() == 0
            },
        },
{
    match state {
        Some(s) => CoordinationReadEnvelope::verified_current(
            request.consistency,
            authority,
            s.runtime_descriptors,
        ),
        None => {
            if request.consistency == CoordinationReadConsistency::Strong {
                CoordinationReadEnvelope::unavailable(request.consistency, authority, None)
            } else {
                CoordinationReadEnvelope::verified_current(
                    request.consistency,
                    authority,
                    Vec::new(),
                )
            }
        },
    }
}

/// The SQLite authority's diagnostics: its stamp, the number of runtime
/// descriptors of the current state, its database path and revision.
pub fn sqlite_authority_diagnostics(
    db_path: &str,
    coordination_revision: u64,
    authority: Option<CoordinationAuthorityStamp>,
    state: &Option<CoordinationCurrentState>,
) -> (r: CoordinationAuthorityDiagnostics)
    ensures
        r.backend_kind == CoordinationAuthorityBackendKind::Sqlite,
        r.latest_authority == authority,
        r.runtime_descriptor_count == match state {
            Some(s) => s.runtime_descriptors@.len() as usize,
            None => 0,
        },
        r.backend_details matches CoordinationAuthorityBackendDetails::Sqlite(d) && d.db_path@
            == db_path@ && d.coordination_revision == Some(coordination_revision),
{
    let count = match state {
        Some(s) => s.runtime_descriptors.len(),
        None => 0,
    };
    CoordinationAuthorityDiagnostics {
        backend_kind: CoordinationAuthorityBackendKind::Sqlite,
        latest_authority: authority,
        runtime_descriptor_count: count,
        backend_details: CoordinationAuthorityBackendDetails::Sqlite(
            SqliteCoordinationAuthorityBackendDetails {
                db_path: String::from_str(db_path),
                coordination_revision: Some(coordination_revision),
            },
        ),
    }
}

/// One entry of the SQLite authority's mutation log.
#[derive(Debug, Clone, PartialEq, Eq)]
pub struct CoordinationMutationLogEntry {
    pub sequence: u64,
    pub revision: u64,
    pub inserted_events: usize,
    pub applied: bool,
    pub branch_ref: Option<String>,
    pub worktree_id: String,
}

/// How a mutation-log entry is summarized in the history.
pub open spec fn history_summary(
    applied: bool,
    inserted_events: usize,
    branch_ref: Option<String>,
    worktree_id: String,
) -> Seq<char> {
    let scope = match branch_ref {
        Some(b) => b@,
        None => worktree_id@,
    };
    if applied {
        "applied "@ + decimal(inserted_events as nat) + " coordination event(s) for "@ + scope
    } else {
        "replayed coordination mutation for "@ + scope
    }
}

/// Summarizes one mutation-log entry.
pub fn history_entry_summary(entry: &CoordinationMutationLogEntry) -> (s: String)
    ensures
        s@ == history_summary(
            entry.applied,
            entry.inserted_events,
            entry.branch_ref,
            entry.worktree_id,
        ),
{
    let scope: &str = match &entry.branch_ref {
        Some(b) => b.as_str(),
        None => entry.worktree_id.as_str(),
    };
    if entry.applied {
        let mut s = String::from_str("applied ");
        append_decimal(&mut s, entry.inserted_events as u64);
        s.append(" coordination event(s) for ");
        s.append(scope);
        s
    } else {
        let mut s = String::from_str("replayed coordination mutation for ");
        s.append(scope);
        s
    }
}

/// The history entry for one mutation-log entry.
pub fn history_entry(entry: &CoordinationMutationLogEntry) -> (h: CoordinationHistoryEntry)
    ensures
        opt_str_view(h.transaction_id) == Some(
            "sqlite-mutation:"@ + decimal(entry.sequence as nat),
        ),
        opt_str_view(h.snapshot_id) == Some(sqlite_revision_id(entry.revision)),
        h.committed_at is None,
        h.summary@ == history_summary(
            entry.applied,
            entry.inserted_events,
            entry.branch_ref,
            entry.worktree_id,
        ),
{
    let mut transaction_id = String::from_str("sqlite-mutation:");
    append_decimal(&mut transaction_id, entry.sequence);
    let mut snapshot_id = String::from_str("sqlite-revision:");
    append_decimal(&mut snapshot_id, entry.revision);
    CoordinationHistoryEntry {
        transaction_id: Some(transaction_id),
        snapshot_id: Some(snapshot_id),
        committed_at: None,
        summary: history_entry_summary(entry),
    }
}

/// The history envelope for the mutation-log entries loaded under `limit`:
/// one entry per log entry, in order, truncated when the limit was reached.
pub fn history_envelope(entries: &Vec<CoordinationMutationLogEntry>, limit: Option<u64>) -> (r:
    CoordinationHistoryEnvelope)
    ensures
        r.backend_kind == CoordinationAuthorityBackendKind::Sqlite,
        r.entries@.len() == entries@.len(),
        forall|i: int|
            0 <= i < entries@.len() ==> {
                &&& opt_str_view(#[trigger] r.entries@[i].transaction_id) == Some(
                    "sqlite-mutation:"@ + decimal(entries@[i].sequence as nat),
                )
                &&& opt_str_view(r.entries@[i].snapshot_id) == Some(
                    sqlite_revision_id(entries@[i].revision),
                )
                &&& r.entries@[i].committed_at is None
                &&& r.entries@[i].summary@ == history_summary(
                    entries@[i].applied,
                    entries@[i].inserted_events,
                    entries@[i].branch_ref,
                    entries@[i].worktree_id,
                )
            },
        r.truncated == match limit {
            Some(l) => entries@.len() >= l,
            None => false,
        },
{
    let mut out: Vec<CoordinationHistoryEntry> = Vec::new();
    let mut i: usize = 0;
    while i < entries.len()
        invariant
            i <= entries@.len(),
            out@.len() == i,
            forall|k: int|
                0 <= k < i ==> {
                    &&& opt_str_view(#[trigger] out@[k].transaction_id) == Some(
                        "sqlite-mutation:"@ + decimal(entries@[k].sequence as nat),
                    )
                    &&& opt_str_view(out@[k].snapshot_id) == Some(
                        sqlite_revision_id(entries@[k].revision),
                    )
                    &&& out@[k].committed_at is None
                    &&& out@[k].summary@ == history_summary(
                        entries@[k].applied,
                        entries@[k].inserted_events,
                        entries@[k].branch_ref,
                        entries@[k].worktree_id,
                    )
                },
        decreases entries@.len() - i,
    {
        out.push(history_entry(&entries[i]));
        i = i + 1;
    }
    let truncated = match limit {
        Some(l) => entries.len() as u64 >= l,
        None => false,
    };
    CoordinationHistoryEnvelope {
        backend_kind: CoordinationAuthorityBackendKind::Sqlite,
        entries: out,
        truncated,
    }
}

/// The value of the state a runtime-descriptor write starts from: the
/// current state, or an empty one.
pub open spec fn state_or_default_view(current: Option<CoordinationCurrentState>) -> CurrentStateView {
    match current {
        Some(c) => c@,
        None => CurrentStateView {
            snapshot: CoordinationSnapshot::empty_view(),
            canonical_snapshot_v2: crate::coordination::CoordinationSnapshotV2View {
                events: Seq::empty(),
            },
            runtime_descriptors: Seq::empty(),
        },
    }
}

/// The state a runtime-descriptor write starts from.
pub fn descriptor_state_or_default(current: Option<CoordinationCurrentState>) -> (r:
    CoordinationCurrentState)
    ensures
        r@ == state_or_default_view(current),
{
    match current {
        Some(c) => c,
        None => {
            let snapshot = CoordinationSnapshot::empty();
            let canonical_snapshot_v2 = snapshot.to_canonical_snapshot_v2();
            let r = CoordinationCurrentState {
                snapshot,
                canonical_snapshot_v2,
                runtime_descriptors: Vec::new(),
            };
            assert(descriptors_view(r.runtime_descriptors@) =~= Seq::empty());
            assert(r@.canonical_snapshot_v2.events =~= Seq::empty());
            r
        },
    }
}

/// The state to persist after publishing `descriptor`: the coordination
/// state is kept, and the descriptor list is the other runtimes'
/// descriptors followed by `descriptor`, stably ordered by runtime id.
pub fn state_after_publishing(
    current: Option<CoordinationCurrentState>,
    descriptor: RuntimeDescriptor,
) -> (r: CoordinationCurrentState)
    ensures
        r@.snapshot == state_or_default_view(current).snapshot,
        r@.canonical_snapshot_v2 == state_or_default_view(current).canonical_snapshot_v2,
        sorted_by_runtime_id(r@.runtime_descriptors),
        r@.runtime_descriptors.to_multiset() =~= without_runtime(
            state_or_default_view(current).runtime_descriptors,
            descriptor.runtime_id@,
        ).push(descriptor@).to_multiset(),
        r@.runtime_descriptors == stable_sorted_by_runtime_id(
            without_runtime(
                state_or_default_view(current).runtime_descriptors,
                descriptor.runtime_id@,
            ).push(descriptor@),
        ),
{
    let state = descriptor_state_or_default(current);
    let runtime_descriptors = published_runtime_descriptors(&state.runtime_descriptors, descriptor);
    CoordinationCurrentState {
        snapshot: state.snapshot,
        canonical_snapshot_v2: state.canonical_snapshot_v2,
        runtime_descriptors,
    }
}

/// The state to persist after clearing `runtime_id`: the coordination state
/// is kept and the descriptor is dropped.
pub fn state_after_clearing(current: Option<CoordinationCurrentState>, runtime_id: &String) -> (r:
    CoordinationCurrentState)
    ensures
        r@.snapshot == state_or_default_view(current).snapshot,
        r@.canonical_snapshot_v2 == state_or_default_view(current).canonical_snapshot_v2,
        r@.runtime_descriptors == without_runtime(
            state_or_default_view(current).runtime_descriptors,
            runtime_id@,
        ),
{
    let state = descriptor_state_or_default(current);
    let runtime_descriptors = cleared_runtime_descriptors(&state.runtime_descriptors, runtime_id);
    CoordinationCurrentState {
        snapshot: state.snapshot,
        canonical_snapshot_v2: state.canonical_snapshot_v2,
        runtime_descriptors,
    }
}


/// Whether a path, by its components, is absolute: it starts at the root.
pub open spec fn is_absolute_path(path: Seq<Seq<char>>) -> bool {
    path.len() > 0 && path[0] == "/"@
}

/// Where the SQLite authority database lies: `None` when no path is
/// configured (the workspace's default database is used), the configured
/// path when it is absolute, else the configured path under the root.
pub fn resolve_db_path(root: &Vec<String>, db_path: &Vec<String>) -> (r: Option<Vec<String>>)
    ensures
        db_path@.len() == 0 ==> r is None,
        db_path@.len() > 0 ==> r is Some && ids_view(r->0@) == if is_absolute_path(
            ids_view(db_path@),
        ) {
            ids_view(db_path@)
        } else {
            ids_view(root@) + ids_view(db_path@)
        },
{
    if db_path.len() == 0 {
        return None;
    }
    let absolute = str_eq(db_path[0].as_str(), "/");
    assert(ids_view(db_path@)[0] == db_path@[0]@);
    if absolute {
        let r = db_path.clone();
        assert(ids_view(r@) =~= ids_view(db_path@));
        return Some(r);
    }
    let mut r = root.clone();
    assert(ids_view(r@) =~= ids_view(root@));
    let mut i: usize = 0;
    while i < db_path.len()
        invariant
            i <= db_path@.len(),
            ids_view(r@) == ids_view(root@) + ids_view(db_path@).subrange(0, i as int),
        decreases db_path@.len() - i,
    {
        let ghost before = ids_view(r@);
        r.push(db_path[i].clone());
        assert(ids_view(r@) =~= before.push(db_path@[i as int]@));
        assert(ids_view(db_path@).subrange(0, i + 1) =~= ids_view(db_path@).subrange(0, i as int).push(
            db_path@[i as int]@,
        ));
        i = i + 1;
    }
    assert(ids_view(db_path@).subrange(0, db_path@.len() as int) =~= ids_view(db_path@));
    Some(r)
}

/// Whether a storage error reports that the coordination revision moved.
pub fn revision_mismatch(error_message: &str) -> (r: bool)
    ensures
        r == contains_seq(error_message@, "coordination revision mismatch"@),
{
    str_contains(error_message, "coordination revision mismatch")
}


/// A row of the authority database's mutation log, as stored.
#[derive(Debug, Clone, Copy, PartialEq, Eq, Structural)]
pub struct MutationLogRow {
    pub sequence: i64,
    pub revision: i64,
    pub inserted_events: i64,
    pub applied: i64,
}

/// How many rows a history read asks the database for: one more than the
/// limit (to tell whether more exist), at most the largest `i64`.
pub fn history_query_limit(limit: u64) -> (r: i64)
    ensures
        r == if limit as int + 1 > i64::MAX {
            i64::MAX as int
        } else {
            limit as int + 1
        },
{
    let asked = limit.saturating_add(1);
    if asked > i64::MAX as u64 {
        i64::MAX
    } else {
        asked as i64
    }
}

/// The history summary of a mutation-log row: the events a revision
/// committed, or that it observed none (a row counts as applied unless its
/// flag is 0).
pub open spec fn row_summary(row: MutationLogRow) -> Seq<char> {
    if row.applied != 0 {
        "sqlite authority revision "@ + signed_decimal(row.revision as int) + " committed "@
            + signed_decimal(row.inserted_events as int) + " coordination event(s)"@
    } else {
        "sqlite authority revision "@ + signed_decimal(row.revision as int)
            + " observed no new coordination events"@
    }
}

/// The history entry of a mutation-log row.
pub fn history_entry_from_row(row: &MutationLogRow) -> (h: CoordinationHistoryEntry)
    ensures
        opt_str_view(h.transaction_id) == Some(
            "sqlite-sequence:"@ + signed_decimal(row.sequence as int),
        ),
        opt_str_view(h.snapshot_id) == Some("sqlite-revision:"@ + signed_decimal(row.revision as int)),
        h.committed_at is None,
        h.summary@ == row_summary(*row),
{
    let mut transaction_id = String::from_str("sqlite-sequence:");
    append_signed_decimal(&mut transaction_id, row.sequence);
    let mut snapshot_id = String::from_str("sqlite-revision:");
    append_signed_decimal(&mut snapshot_id, row.revision);
    let mut summary = String::from_str("sqlite authority revision ");
    append_signed_decimal(&mut summary, row.revision);
    if row.applied != 0 {
        summary.append(" committed ");
        append_signed_decimal(&mut summary, row.inserted_events);
        summary.append(" coordination event(s)");
    } else {
        summary.append(" observed no new coordination events");
    }
    CoordinationHistoryEntry {
        transaction_id: Some(transaction_id),
        snapshot_id: Some(snapshot_id),
        committed_at: None,
        summary,
    }
}

/// The retained history from mutation-log rows read newest first: one entry
/// per row, at most `limit` of them, truncated when more rows were read than
/// the limit.
pub fn db_history_envelope(rows: &Vec<MutationLogRow>, limit: Option<u64>) -> (r:
    CoordinationHistoryEnvelope)
    ensures
        r.backend_kind == CoordinationAuthorityBackendKind::Sqlite,
        r.truncated == match limit {
            Some(l) => rows@.len() > l,
            None => false,
        },
        r.entries@.len() == match limit {
            Some(l) => if rows@.len() > l {
                l as nat
            } else {
                rows@.len()
            },
            None => rows@.len(),
        },
        forall|i: int|
            0 <= i < r.entries@.len() ==> {
                &&& opt_str_view(#[trigger] r.entries@[i].transaction_id) == Some(
                    "sqlite-sequence:"@ + signed_decimal(rows@[i].sequence as int),
                )
                &&& opt_str_view(r.entries@[i].snapshot_id) == Some(
                    "sqlite-revision:"@ + signed_decimal(rows@[i].revision as int),
                )
                &&& r.entries@[i].committed_at is None
                &&& r.entries@[i].summary@ == row_summary(rows@[i])
            },
{
    let n = rows.len();
    let keep: usize = match limit {
        Some(l) => if (n as u64) > l {
            l as usize
        } else {
            n
        },
        None => n,
    };
    let mut entries: Vec<CoordinationHistoryEntry> = Vec::new();
    let mut i: usize = 0;
    while i < keep
        invariant
            keep <= rows@.len(),
            i <= keep,
            entries@.len() == i,
            forall|k: int|
                0 <= k < i ==> {
                    &&& opt_str_view(#[trigger] entries@[k].transaction_id) == Some(
                        "sqlite-sequence:"@ + signed_decimal(rows@[k].sequence as int),
                    )
                    &&& opt_str_view(entries@[k].snapshot_id) == Some(
                        "sqlite-revision:"@ + signed_decimal(rows@[k].revision as int),
                    )
                    &&& entries@[k].committed_at is None
                    &&& entries@[k].summary@ == row_summary(rows@[k])
                },
        decreases keep - i,
    {
        entries.push(history_entry_from_row(&rows[i]));
        i = i + 1;
    }
    let truncated = match limit {
        Some(l) => (n as u64) > l,
        None => false,
    };
    CoordinationHistoryEnvelope {
        backend_kind: CoordinationAuthorityBackendKind::Sqlite,
        entries,
        truncated,
    }
}

} // verus!
