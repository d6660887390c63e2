//! Decisions taken when a coordination mutation is persisted: which events
//! are new, how an uncommitted transaction becomes an error, what is kept in
//! the repo-semantic snapshot, which phases a mutation reports, how the read
//! models and the compaction are stored, and when the journal is compacted.
use vstd::prelude::*;

use crate::authority_types::{
    CoordinationCommitReceipt, CoordinationDerivedStateMode, CoordinationTransactionResult,
    CoordinationTransactionStatus,
};
use crate::coordination::{
    events_view, tasks_view, CoordinationEvent, CoordinationEventView, CoordinationSnapshot,
    CoordinationTask, CoordinationTaskView,
};
use crate::materialized::{
    CoordinationCompactionWriteRequest, CoordinationQueueReadModel, CoordinationReadModel,
    CoordinationReadModelsWriteRequest, MaterializedRecords, SqliteCoordinationMaterializedStore,
};
use crate::mutation_error::{CoordinationAuthorityMutationError, CoordinationAuthorityMutationStatus};

verus! {

/// The journal is compacted once this many events follow the last compaction.
pub const COORDINATION_COMPACTION_SUFFIX_THRESHOLD: usize = 128;

/// Whether `existing` is, event id by event id, a prefix of `next`.
pub open spec fn id_prefix(existing: Seq<CoordinationEventView>, next: Seq<CoordinationEventView>) -> bool {
    &&& existing.len() <= next.len()
    &&& forall|i: int| 0 <= i < existing.len() ==> existing[i].id == next[i].id
}

/// Whether some event of `s` has id `id`.
pub open spec fn has_event_id(s: Seq<CoordinationEventView>, id: Seq<char>) -> bool {
    exists|i: int| 0 <= i < s.len() && s[i].id == id
}

/// The events of `next` whose id occurs nowhere in `existing`, in order.
pub open spec fn events_not_in(
    next: Seq<CoordinationEventView>,
    existing: Seq<CoordinationEventView>,
) -> Seq<CoordinationEventView>
    decreases next.len(),
{
    if next.len() == 0 {
        next
    } else {
        let rest = events_not_in(next.drop_last(), existing);
        if has_event_id(existing, next.last().id) {
            rest
        } else {
            rest.push(next.last())
        }
    }
}

/// The events of `next` that are not yet in `existing`: the suffix when
/// `existing` is a prefix by id, else every event whose id is new.
pub open spec fn event_delta(
    existing: Seq<CoordinationEventView>,
    next: Seq<CoordinationEventView>,
) -> Seq<CoordinationEventView> {
    if existing.len() == 0 {
        next
    } else if id_prefix(existing, next) {
        next.skip(existing.len() as int)
    } else {
        events_not_in(next, existing)
    }
}

fn has_id(events: &Vec<CoordinationEvent>, id: &String) -> (r: bool)
    ensures
        r == has_event_id(events_view(events@), id@),
{
    let mut i: usize = 0;
    while i < events.len()
        invariant
            i <= events@.len(),
            forall|j: int| 0 <= j < i ==> events@[j].id@ != id@,
        decreases events@.len() - i,
    {
        if events[i].id.eq(id) {
            assert(events_view(events@)[i as int].id == id@);
            return true;
        }
        i = i + 1;
    }
    assert(!has_event_id(events_view(events@), id@)) by {
        if has_event_id(events_view(events@), id@) {
            let j = choose|j: int|
                0 <= j < events_view(events@).len() && events_view(events@)[j].id == id@;
            assert(events@[j].id@ == id@);
        }
    }
    false
}

/// The events of `next_events` that `existing_events` does not hold yet.
pub fn coordination_event_delta(
    existing_events: &Vec<CoordinationEvent>,
    next_events: &Vec<CoordinationEvent>,
) -> (r: Vec<CoordinationEvent>)
    ensures
        events_view(r@) == event_delta(events_view(existing_events@), events_view(next_events@)),
{
    let ghost ev = events_view(existing_events@);
    let ghost nv = events_view(next_events@);
    if existing_events.len() == 0 {
        let r = next_events.clone();
        assert(events_view(r@) =~= nv);
        return r;
    }
    if existing_events.len() <= next_events.len() {
        let mut prefix = true;
        let mut i: usize = 0;
        while i < existing_events.len()
            invariant
                existing_events@.len() <= next_events@.len(),
                i <= existing_events@.len(),
                prefix == (forall|j: int| 0 <= j < i ==> ev[j].id == nv[j].id),
                ev == events_view(existing_events@),
                nv == events_view(next_events@),
            decreases existing_events@.len() - i,
        {
            let same = existing_events[i].id.eq(&next_events[i].id);
            assert(same == (ev[i as int].id == nv[i as int].id));
            prefix = prefix && same;
            i = i + 1;
        }
        if prefix {
            let mut r: Vec<CoordinationEvent> = Vec::new();
            let mut k: usize = existing_events.len();
            while k < next_events.len()
                invariant
                    existing_events@.len() <= k <= next_events@.len(),
                    nv == events_view(next_events@),
                    events_view(r@) == nv.subrange(existing_events@.len() as int, k as int),
                decreases next_events@.len() - k,
            {
                let ghost prev = r@;
                let e = next_events[k].clone();
                assert(e@ == nv[k as int]);
                r.push(e);
                assert(events_view(r@) =~= events_view(prev).push(nv[k as int]));
                assert(events_view(r@) =~= nv.subrange(existing_events@.len() as int, k + 1));
                k = k + 1;
            }
            assert(nv.skip(existing_events@.len() as int) =~= nv.subrange(
                existing_events@.len() as int,
                nv.len() as int,
            ));
            return r;
        }
    }
    let mut r: Vec<CoordinationEvent> = Vec::new();
    let mut k: usize = 0;
    while k < next_events.len()
        invariant
            k <= next_events@.len(),
            nv == events_view(next_events@),
            ev == events_view(existing_events@),
            events_view(r@) == events_not_in(nv.take(k as int), ev),
        decreases next_events@.len() - k,
    {
        assert(nv.take(k + 1).drop_last() =~= nv.take(k as int));
        if !has_id(existing_events, &next_events[k].id) {
            let ghost prev = r@;
            r.push(next_events[k].clone());
            assert(events_view(r@) =~= events_view(prev).push(nv[k as int]));
        }
        k = k + 1;
    }
    assert(nv.take(nv.len() as int) =~= nv);
    r
}

/// The error that an uncommitted transaction `result` turns into, with
/// `fallback_message` where no diagnostic gives one: it keeps the
/// transaction's authority; a conflict carries the conflict's reason, a
/// rejection or an indeterminate outcome the first diagnostic's code and
/// message.
pub open spec fn is_transaction_error(
    result: CoordinationTransactionResult,
    fallback_message: Seq<char>,
    e: CoordinationAuthorityMutationError,
) -> bool {
    &&& e.authority == result.authority
    &&& {
        let d = result.diagnostics@;
        let code = if d.len() > 0 {
            d[0].code@
        } else {
            "authority_transaction_failed"@
        };
        let message = if d.len() > 0 {
            d[0].message@
        } else {
            fallback_message
        };
        match result.status {
            CoordinationTransactionStatus::Conflict => {
                &&& e.status == CoordinationAuthorityMutationStatus::Conflict
                &&& e.reason_code@ == "authority_transaction_conflict"@
                &&& e.message@ == match result.conflict {
                    Some(c) => c.reason@,
                    None => message,
                }
            },
            CoordinationTransactionStatus::Rejected => {
                &&& e.status == CoordinationAuthorityMutationStatus::Rejected
                &&& e.reason_code@ == code
                &&& e.message@ == message
            },
            CoordinationTransactionStatus::Indeterminate => {
                &&& e.status == CoordinationAuthorityMutationStatus::Indeterminate
                &&& e.reason_code@ == code
                &&& e.message@ == message
            },
            CoordinationTransactionStatus::Committed => {
                &&& e.status == CoordinationAuthorityMutationStatus::Rejected
                &&& e.reason_code@ == "authority_transaction_failed"@
                &&& e.message@ == fallback_message
            },
        }
    }
}

/// The error an uncommitted authority transaction turns into.  The first
/// diagnostic, when there is one, gives the code and the message.
pub fn authority_transaction_error(
    result: &CoordinationTransactionResult,
    fallback_message: &str,
) -> (e: CoordinationAuthorityMutationError)
    ensures
        is_transaction_error(*result, fallback_message@, e),
{
    let (code, message) = if result.diagnostics.len() > 0 {
        (result.diagnostics[0].code.clone(), result.diagnostics[0].message.clone())
    } else {
        (String::from_str("authority_transaction_failed"), String::from_str(fallback_message))
    };
    match result.status {
        CoordinationTransactionStatus::Conflict => {
            let reason = match &result.conflict {
                Some(c) => c.reason.clone(),
                None => message,
            };
            CoordinationAuthorityMutationError::conflict(
                String::from_str("authority_transaction_conflict"),
                reason,
                result.authority.clone(),
            )
        },
        CoordinationTransactionStatus::Rejected => CoordinationAuthorityMutationError::rejected(
            code,
            message,
            result.authority.clone(),
        ),
        CoordinationTransactionStatus::Indeterminate =>
            CoordinationAuthorityMutationError::indeterminate(
            code,
            message,
            result.authority.clone(),
        ),
        CoordinationTransactionStatus::Committed => CoordinationAuthorityMutationError::rejected(
            String::from_str("authority_transaction_failed"),
            String::from_str(fallback_message),
            result.authority.clone(),
        ),
    }
}

/// The receipt of a committed transaction: the authority's, or, when it
/// gave none, the next revision with every appended event applied.
pub open spec fn committed_receipt(
    transaction: CoordinationTransactionResult,
    expected_revision: u64,
    appended_event_count: usize,
) -> CoordinationCommitReceipt {
    match transaction.commit {
        Some(c) => c,
        None => CoordinationCommitReceipt {
            revision: if expected_revision == u64::MAX {
                u64::MAX
            } else {
                (expected_revision + 1) as u64
            },
            inserted_events: appended_event_count,
            applied: true,
        },
    }
}

/// What a committed mutation did: the authority's receipt, or, when the
/// authority gave none, the next revision with every appended event applied.
/// An uncommitted transaction is an error.
pub fn committed_mutation_receipt(
    transaction: &CoordinationTransactionResult,
    expected_revision: u64,
    appended_event_count: usize,
) -> (r: Result<CoordinationCommitReceipt, CoordinationAuthorityMutationError>)
    ensures
        transaction.status == CoordinationTransactionStatus::Committed <==> r is Ok,
        r matches Ok(receipt) ==> receipt == committed_receipt(
            *transaction,
            expected_revision,
            appended_event_count,
        ),
        r matches Err(e) ==> is_transaction_error(
            *transaction,
            "coordination authority transaction did not commit successfully"@,
            e,
        ),
{
    match transaction.status {
        CoordinationTransactionStatus::Committed => {
            match transaction.commit {
                Some(c) => Ok(c),
                None => Ok(
                    CoordinationCommitReceipt {
                        revision: expected_revision.saturating_add(1),
                        inserted_events: appended_event_count,
                        applied: true,
                    },
                ),
            }
        },
        _ => Err(
            authority_transaction_error(
                transaction,
                "coordination authority transaction did not commit successfully",
            ),
        ),
    }
}

/// What happens to derived coordination state after a commit.
#[derive(Debug, Clone, Copy, PartialEq, Eq, Structural)]
pub enum CoordinationDerivedSyncAction {
    /// Nothing was applied: derived state stays as it is.
    SkipUnapplied,
    /// Derived state is refreshed now.
    SyncInline,
    /// Derived state is left to a later pass.
    Defer,
}

/// Derived state is refreshed only for an applied commit, inline or later as
/// the mode says.
pub fn derived_sync_action(applied: bool, mode: CoordinationDerivedStateMode) -> (a:
    CoordinationDerivedSyncAction)
    ensures
        !applied ==> a == CoordinationDerivedSyncAction::SkipUnapplied,
        applied && mode == CoordinationDerivedStateMode::Inline ==> a
            == CoordinationDerivedSyncAction::SyncInline,
        applied && mode == CoordinationDerivedStateMode::Deferred ==> a
            == CoordinationDerivedSyncAction::Defer,
{
    if !applied {
        CoordinationDerivedSyncAction::SkipUnapplied
    } else {
        match mode {
            CoordinationDerivedStateMode::Inline => CoordinationDerivedSyncAction::SyncInline,
            CoordinationDerivedStateMode::Deferred => CoordinationDerivedSyncAction::Defer,
        }
    }
}

/// What a reported mutation phase says beyond its name.
#[derive(Debug, Clone, Copy, PartialEq, Eq, Structural)]
pub enum CoordinationPhaseNote {
    /// Skipped, because the commit applied nothing.
    SkippedUnapplied,
    /// Left to a later pass, and the commit applied nothing.
    DeferredUnapplied,
    /// Left to a later pass.
    Deferred,
    /// Derived state needed no work.
    Noop,
    /// Only the authority was written.
    AuthorityOnly,
    /// The authority transaction ran: whether it committed, the status it
    /// ended in, and how many events it appended.
    Transaction { committed: bool, status: CoordinationTransactionStatus, appended_event_count: usize },
    /// Skipped, because materialization is disabled.
    SkippedMaterializationDisabled,
    /// The read model was built from this many appended events, over a
    /// journal of this many events.
    ReadModelBuilt { appended_event_count: usize, event_count: usize },
    /// The queue read model was built from this many appended events, over
    /// this many tasks.
    QueueReadModelBuilt { appended_event_count: usize, task_count: usize },
    /// Both read models were saved, for a journal of this many events and
    /// this many tasks.
    ReadModelsSaved { event_count: usize, task_count: usize },
    /// The journal was compacted.
    Compacted,
    /// Compaction was skipped, because the commit applied nothing.
    CompactionSkippedUnapplied,
}

/// A phase of a coordination mutation as it is reported: every phase
/// reported here took no time and succeeded.
#[derive(Debug, Clone, PartialEq, Eq)]
pub struct CoordinationPhaseReport {
    pub operation: String,
    pub note: CoordinationPhaseNote,
}

pub open spec fn phase_view(p: CoordinationPhaseReport) -> (Seq<char>, CoordinationPhaseNote) {
    (p.operation@, p.note)
}

pub open spec fn phases_view(ps: Seq<CoordinationPhaseReport>) -> Seq<(Seq<char>, CoordinationPhaseNote)> {
    ps.map_values(|p: CoordinationPhaseReport| phase_view(p))
}

/// The phases a committed mutation reports after its authority transaction,
/// unless it syncs derived state inline (the inline sync reports its own):
/// for a commit that applied nothing, the tracked-snapshot sync and the
/// startup checkpoint are reported skipped (inline) or deferred, and the
/// derived-state sync as a no-op; for a deferred applied commit the first
/// two are reported deferred and the derived-state sync as authority-only.
pub open spec fn derived_state_phases(applied: bool, mode: CoordinationDerivedStateMode) -> Seq<
    (Seq<char>, CoordinationPhaseNote),
> {
    if !applied {
        let note = if mode == CoordinationDerivedStateMode::Inline {
            CoordinationPhaseNote::SkippedUnapplied
        } else {
            CoordinationPhaseNote::DeferredUnapplied
        };
        seq![
            ("mutation.coordination.publishedPlans.syncTrackedSnapshot"@, note),
            ("mutation.coordination.publishedPlans.saveStartupCheckpoint"@, note),
            ("mutation.coordination.syncDerivedState"@, CoordinationPhaseNote::Noop),
        ]
    } else if mode == CoordinationDerivedStateMode::Inline {
        Seq::empty()
    } else {
        seq![
            ("mutation.coordination.publishedPlans.syncTrackedSnapshot"@, CoordinationPhaseNote::Deferred),
            ("mutation.coordination.publishedPlans.saveStartupCheckpoint"@, CoordinationPhaseNote::Deferred),
            ("mutation.coordination.syncDerivedState"@, CoordinationPhaseNote::AuthorityOnly),
        ]
    }
}

fn phase_report(operation: &str, note: CoordinationPhaseNote) -> (p: CoordinationPhaseReport)
    ensures
        phase_view(p) == (operation@, note),
{
    CoordinationPhaseReport { operation: String::from_str(operation), note }
}

/// The phases a committed mutation reports after its authority transaction
/// (see `derived_state_phases`), in order.
pub fn derived_state_phase_reports(applied: bool, mode: CoordinationDerivedStateMode) -> (r: Vec<
    CoordinationPhaseReport,
>)
    ensures
        phases_view(r@) == derived_state_phases(applied, mode),
{
    let mut r: Vec<CoordinationPhaseReport> = Vec::new();
    if applied && mode == CoordinationDerivedStateMode::Inline {
        proof {
            assert(phases_view(r@) =~= derived_state_phases(applied, mode));
        }
        return r;
    }
    let (first, last) = if !applied {
        (
            if mode == CoordinationDerivedStateMode::Inline {
                CoordinationPhaseNote::SkippedUnapplied
            } else {
                CoordinationPhaseNote::DeferredUnapplied
            },
            CoordinationPhaseNote::Noop,
        )
    } else {
        (CoordinationPhaseNote::Deferred, CoordinationPhaseNote::AuthorityOnly)
    };
    r.push(phase_report("mutation.coordination.publishedPlans.syncTrackedSnapshot", first));
    r.push(phase_report("mutation.coordination.publishedPlans.saveStartupCheckpoint", first));
    r.push(phase_report("mutation.coordination.syncDerivedState", last));
    proof {
        assert(phases_view(r@) =~= derived_state_phases(applied, mode));
    }
    r
}

/// The phase the authority transaction reports: whether it committed, its
/// status, and how many events it appended.
pub open spec fn transaction_phase(
    transaction: CoordinationTransactionResult,
    appended_event_count: usize,
) -> (Seq<char>, CoordinationPhaseNote) {
    (
        "mutation.coordination.authority.applyTransaction"@,
        CoordinationPhaseNote::Transaction {
            committed: transaction.committed,
            status: transaction.status,
            appended_event_count,
        },
    )
}

/// The outcome of an authoritative coordination mutation once its
/// authority transaction returned: the phases it reports, in order, and the
/// receipt or the error of an uncommitted transaction.  The transaction's
/// own phase comes first, whatever its status; a committed transaction then
/// reports the phases of `derived_state_phases`.
pub fn authoritative_mutation_outcome(
    transaction: &CoordinationTransactionResult,
    expected_revision: u64,
    appended_event_count: usize,
    mode: CoordinationDerivedStateMode,
) -> (r: (Vec<CoordinationPhaseReport>, Result<CoordinationCommitReceipt, CoordinationAuthorityMutationError>))
    ensures
        transaction.status == CoordinationTransactionStatus::Committed <==> r.1 is Ok,
        r.1 matches Ok(receipt) ==> {
            &&& receipt == committed_receipt(*transaction, expected_revision, appended_event_count)
            &&& phases_view(r.0@) == seq![transaction_phase(*transaction, appended_event_count)]
                + derived_state_phases(receipt.applied, mode)
        },
        r.1 matches Err(e) ==> {
            &&& is_transaction_error(
                *transaction,
                "coordination authority transaction did not commit successfully"@,
                e,
            )
            &&& phases_view(r.0@) == seq![transaction_phase(*transaction, appended_event_count)]
        },
{
    let mut phases: Vec<CoordinationPhaseReport> = Vec::new();
    phases.push(
        phase_report(
            "mutation.coordination.authority.applyTransaction",
            CoordinationPhaseNote::Transaction {
                committed: transaction.committed,
                status: transaction.status,
                appended_event_count,
            },
        ),
    );
    let ghost first = phases_view(phases@);
    assert(first =~= seq![transaction_phase(*transaction, appended_event_count)]);
    match committed_mutation_receipt(transaction, expected_revision, appended_event_count) {
        Ok(receipt) => {
            let mut derived = derived_state_phase_reports(receipt.applied, mode);
            let ghost dv = derived@;
            phases.append(&mut derived);
            assert(phases_view(phases@) =~= first + phases_view(dv));
            (phases, Ok(receipt))
        },
        Err(e) => (phases, Err(e)),
    }
}

/// The phases of saving the read models and compacting the journal after a
/// mutation at `authoritative_revision`, for `appended_event_count` appended
/// events over `snapshot`: all four skipped when materialization is
/// disabled; otherwise the read model and the queue read model built and
/// saved, then the journal compacted, or that skipped when the commit
/// applied nothing.
pub open spec fn read_model_phases(
    materialization_enabled: bool,
    appended_event_count: usize,
    snapshot: CoordinationSnapshot,
    applied: bool,
) -> Seq<(Seq<char>, CoordinationPhaseNote)> {
    let events = snapshot.events@.len() as usize;
    let tasks = snapshot.tasks@.len() as usize;
    if !materialization_enabled {
        seq![
            ("mutation.coordination.buildReadModel"@, CoordinationPhaseNote::SkippedMaterializationDisabled),
            ("mutation.coordination.buildQueueReadModel"@, CoordinationPhaseNote::SkippedMaterializationDisabled),
            ("mutation.coordination.saveReadModels"@, CoordinationPhaseNote::SkippedMaterializationDisabled),
            ("mutation.coordination.compactEvents"@, CoordinationPhaseNote::SkippedMaterializationDisabled),
        ]
    } else {
        seq![
            (
                "mutation.coordination.buildReadModel"@,
                CoordinationPhaseNote::ReadModelBuilt { appended_event_count, event_count: events },
            ),
            (
                "mutation.coordination.buildQueueReadModel"@,
                CoordinationPhaseNote::QueueReadModelBuilt { appended_event_count, task_count: tasks },
            ),
            (
                "mutation.coordination.saveReadModels"@,
                CoordinationPhaseNote::ReadModelsSaved { event_count: events, task_count: tasks },
            ),
            (
                "mutation.coordination.compactEvents"@,
                if applied {
                    CoordinationPhaseNote::Compacted
                } else {
                    CoordinationPhaseNote::CompactionSkippedUnapplied
                },
            ),
        ]
    }
}

/// Saves the read models and compacts the journal after a mutation at
/// `authoritative_revision`: the read models built for it (`read_model`,
/// `queue_read_model`) are stamped with that revision and stored, and the
/// compacted `snapshot` is stored when the commit applied anything.  With
/// materialization disabled nothing is stored.  The startup checkpoint and
/// the journal revision stay as they were.  Returns the phases reported, as
/// `read_model_phases` says.
pub fn persist_read_models_and_compaction(
    store: &SqliteCoordinationMaterializedStore,
    records: &mut MaterializedRecords,
    materialization_enabled: bool,
    authoritative_revision: u64,
    appended_event_count: usize,
    read_model: CoordinationReadModel,
    queue_read_model: CoordinationQueueReadModel,
    snapshot: CoordinationSnapshot,
    applied: bool,
) -> (phases: Vec<CoordinationPhaseReport>)
    ensures
        phases_view(phases@) == read_model_phases(
            materialization_enabled,
            appended_event_count,
            snapshot,
            applied,
        ),
        !materialization_enabled ==> *final(records) == *old(records),
        materialization_enabled ==> {
            &&& final(records).read_model == Some(
                CoordinationReadModel { revision: authoritative_revision, ..read_model },
            )
            &&& final(records).queue_read_model == Some(
                CoordinationQueueReadModel { revision: authoritative_revision, ..queue_read_model },
            )
            &&& final(records).compaction == if applied {
                Some(snapshot)
            } else {
                old(records).compaction
            }
            &&& final(records).startup_checkpoint == old(records).startup_checkpoint
            &&& final(records).coordination_revision == old(records).coordination_revision
        },
{
    let mut phases: Vec<CoordinationPhaseReport> = Vec::new();
    if !materialization_enabled {
        let note = CoordinationPhaseNote::SkippedMaterializationDisabled;
        phases.push(phase_report("mutation.coordination.buildReadModel", note));
        phases.push(phase_report("mutation.coordination.buildQueueReadModel", note));
        phases.push(phase_report("mutation.coordination.saveReadModels", note));
        phases.push(phase_report("mutation.coordination.compactEvents", note));
        assert(phases_view(phases@) =~= read_model_phases(
            materialization_enabled,
            appended_event_count,
            snapshot,
            applied,
        ));
        return phases;
    }
    let event_count = snapshot.events.len();
    let task_count = snapshot.tasks.len();
    let mut read_model = read_model;
    read_model.revision = authoritative_revision;
    phases.push(
        phase_report(
            "mutation.coordination.buildReadModel",
            CoordinationPhaseNote::ReadModelBuilt { appended_event_count, event_count },
        ),
    );
    let mut queue_read_model = queue_read_model;
    queue_read_model.revision = authoritative_revision;
    phases.push(
        phase_report(
            "mutation.coordination.buildQueueReadModel",
            CoordinationPhaseNote::QueueReadModelBuilt { appended_event_count, task_count },
        ),
    );
    let _ = store.write_read_models(
        records,
        CoordinationReadModelsWriteRequest { read_model, queue_read_model },
    );
    phases.push(
        phase_report(
            "mutation.coordination.saveReadModels",
            CoordinationPhaseNote::ReadModelsSaved { event_count, task_count },
        ),
    );
    let ghost snap = snapshot;
    if applied {
        let _ = store.write_compaction(records, CoordinationCompactionWriteRequest { snapshot });
        phases.push(phase_report("mutation.coordination.compactEvents", CoordinationPhaseNote::Compacted));
    } else {
        phases.push(
            phase_report(
                "mutation.coordination.compactEvents",
                CoordinationPhaseNote::CompactionSkippedUnapplied,
            ),
        );
    }
    assert(phases_view(phases@) =~= read_model_phases(
        materialization_enabled,
        appended_event_count,
        snap,
        applied,
    ));
    phases
}

/// Whether the journal has grown enough past its last compaction.
pub fn should_compact_coordination_events(suffix_event_count: usize) -> (r: bool)
    ensures
        r == (suffix_event_count >= COORDINATION_COMPACTION_SUFFIX_THRESHOLD),
{
    suffix_event_count >= COORDINATION_COMPACTION_SUFFIX_THRESHOLD
}

/// A task without the fields that belong to one session or worktree.
pub open spec fn repo_semantic_task(t: CoordinationTaskView) -> CoordinationTaskView {
    CoordinationTaskView {
        pending_handoff_to: None,
        session: None,
        worktree_id: None,
        branch_ref: None,
        ..t
    }
}

/// The snapshot as the repository records it: every task loses its pending
/// handoff, session, worktree and branch.
pub fn repo_semantic_coordination_snapshot(snapshot: CoordinationSnapshot) -> (r:
    CoordinationSnapshot)
    ensures
        r@.tasks == snapshot@.tasks.map_values(|t: CoordinationTaskView| repo_semantic_task(t)),
        r@.plans == snapshot@.plans,
        r@.claims == snapshot@.claims,
        r@.artifacts == snapshot@.artifacts,
        r@.reviews == snapshot@.reviews,
        r@.events == snapshot@.events,
        r@.next_plan == snapshot@.next_plan,
        r@.next_task == snapshot@.next_task,
        r@.next_claim == snapshot@.next_claim,
        r@.next_artifact == snapshot@.next_artifact,
        r@.next_review == snapshot@.next_review,
{
    let mut snapshot = snapshot;
    let ghost orig = tasks_view(snapshot.tasks@);
    let mut tasks: Vec<CoordinationTask> = Vec::new();
    let mut i: usize = 0;
    while i < snapshot.tasks.len()
        invariant
            i <= snapshot.tasks@.len(),
            orig == tasks_view(snapshot.tasks@),
            tasks_view(tasks@) == orig.take(i as int).map_values(
                |t: CoordinationTaskView| repo_semantic_task(t),
            ),
        decreases snapshot.tasks@.len() - i,
    {
        let mut t = snapshot.tasks[i].clone();
        t.pending_handoff_to = None;
        t.session = None;
        t.worktree_id = None;
        t.branch_ref = None;
        let ghost prev = tasks@;
        assert(t@ == repo_semantic_task(orig[i as int]));
        tasks.push(t);
        assert(tasks_view(tasks@) =~= tasks_view(prev).push(repo_semantic_task(orig[i as int])));
        assert(tasks_view(tasks@) =~= orig.take(i + 1).map_values(
            |t: CoordinationTaskView| repo_semantic_task(t),
        ));
        i = i + 1;
    }
    assert(orig.take(orig.len() as int) =~= orig);
    snapshot.tasks = tasks;
    snapshot
}


/// Whether mutations are published to the coordination authority: unless
/// the disabling flag is on (its value is the first of the two disabling
/// variables that is set), in which case only when the workspace holds an
/// opt-in marker.
pub fn coordination_authority_publication_enabled(
    disable_flag_value: Option<&str>,
    opt_in_marker_exists: bool,
) -> (r: bool)
    ensures
        r == (!crate::refresh::flag_value_enabled(
            match disable_flag_value {
                Some(v) => Some(v@),
                None => None,
            },
        ) || opt_in_marker_exists),
{
    let disabled = crate::refresh::env_flag_enabled(disable_flag_value);
    !disabled || opt_in_marker_exists
}

} // verus!
