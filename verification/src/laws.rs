//! Laws of the library that relate several of its operations.
use vstd::prelude::*;

use crate::authority_types::{
    CoordinationAuthorityStamp, CoordinationTransactionBase, EventExecutionTransitionKind,
    EventExecutionTransitionRequest,
};
use crate::coordination::{opt_str_view, EventExecutionRecord, EventExecutionStatus};
use crate::curator::{outcome_trigger, CuratorTrigger, OutcomeKind, OutcomeResult};
use crate::refresh::{change_requires_edge_resolution, ObservedChangeSummary};
use crate::sqlite_authority::base_conflict;
use crate::checkpoint::merged_counters;
use crate::coordination::{CoordinationEventView, CoordinationSnapshotView, RuntimeDescriptorView};
use crate::event_execution::{precondition_failure, transitioned_record, EventExecutionTable};
use crate::execution_substrate::EventRecordView;
use crate::layout::{
    ascii_lower, collapsed, identifier_char, identifier_shaped, is_ascii_alnum,
    normalized_identifier, strip_leading, strip_trailing, deepest_package, package_index_for,
    root_contains, PackageView,
};
use crate::materialized::{metadata_of, MaterializedRecords};
use crate::materializer::{recorded, MaterializerMessage, PendingMaterializations};
use crate::persistence::{event_delta, id_prefix};
use crate::refresh::{combined_work, WorkspaceRefreshWork};
use crate::sqlite_authority::loaded_current_state;
use crate::authority_types::CurrentStateView;
use crate::runtime_registry::without_runtime;

verus! {

broadcast use vstd::seq_lib::group_to_multiset_ensures;

/// How often `x` occurs in `without_runtime(s, id)`: never when it belongs to
/// runtime `id`, else as often as in `s`.
proof fn lemma_without_runtime_count(s: Seq<RuntimeDescriptorView>, id: Seq<char>, x: RuntimeDescriptorView)
    ensures
        without_runtime(s, id).to_multiset().count(x) == if x.runtime_id == id {
            0
        } else {
            s.to_multiset().count(x)
        },
    decreases s.len(),
{
    if s.len() == 0 {
    } else {
        let init = s.drop_last();
        lemma_without_runtime_count(init, id, x);
        assert(init.push(s.last()) =~= s);
    }
}

/// Publishing a runtime descriptor makes it the one descriptor of its
/// runtime: whatever order the published list has, `d` occurs in it once
/// and no other descriptor of the same runtime remains.
pub proof fn lemma_published_descriptor_is_sole_for_runtime(
    current: Seq<RuntimeDescriptorView>,
    published: Seq<RuntimeDescriptorView>,
    d: RuntimeDescriptorView,
)
    requires
        published.to_multiset() =~= without_runtime(current, d.runtime_id).push(d).to_multiset(),
    ensures
        published.contains(d),
        published.to_multiset().count(d) == 1,
        forall|i: int|
            0 <= i < published.len() && #[trigger] published[i].runtime_id == d.runtime_id
                ==> published[i] == d,
{
    let base = without_runtime(current, d.runtime_id);
    lemma_without_runtime_count(current, d.runtime_id, d);
    assert(published.to_multiset().count(d) == 1);
    assert forall|i: int|
        0 <= i < published.len() && #[trigger] published[i].runtime_id == d.runtime_id implies
        published[i] == d by {
        let x = published[i];
        lemma_without_runtime_count(current, d.runtime_id, x);
        assert(published.contains(x));
        if x != d {
            assert(base.push(d).to_multiset().count(x) == base.to_multiset().count(x));
        }
    }
}

/// Publishing a descriptor leaves every descriptor of another runtime as
/// often as it was.
pub proof fn lemma_publish_keeps_other_runtimes(
    current: Seq<RuntimeDescriptorView>,
    published: Seq<RuntimeDescriptorView>,
    d: RuntimeDescriptorView,
    x: RuntimeDescriptorView,
)
    requires
        published.to_multiset() =~= without_runtime(current, d.runtime_id).push(d).to_multiset(),
        x.runtime_id != d.runtime_id,
    ensures
        published.to_multiset().count(x) == current.to_multiset().count(x),
{
    lemma_without_runtime_count(current, d.runtime_id, x);
}

/// Clearing a runtime after publishing a descriptor for it gives what
/// clearing it alone gives.
pub proof fn lemma_clear_after_publish(
    current: Seq<RuntimeDescriptorView>,
    published: Seq<RuntimeDescriptorView>,
    d: RuntimeDescriptorView,
)
    requires
        published.to_multiset() =~= without_runtime(current, d.runtime_id).push(d).to_multiset(),
    ensures
        without_runtime(published, d.runtime_id).to_multiset() =~= without_runtime(
            current,
            d.runtime_id,
        ).to_multiset(),
{
    let id = d.runtime_id;
    assert forall|x: RuntimeDescriptorView|
        #[trigger] without_runtime(published, id).to_multiset().count(x) == without_runtime(
            current,
            id,
        ).to_multiset().count(x) by {
        lemma_without_runtime_count(published, id, x);
        lemma_without_runtime_count(current, id, x);
        if x.runtime_id != id {
            lemma_without_runtime_count(current, id, x);
        }
    }
}

/// Clearing a runtime removes every descriptor of it, and clearing it again
/// changes nothing.
pub proof fn lemma_clear_runtime_idempotent(s: Seq<RuntimeDescriptorView>, id: Seq<char>)
    ensures
        forall|i: int|
            0 <= i < without_runtime(s, id).len() ==> #[trigger] without_runtime(s, id)[i].runtime_id
                != id,
        without_runtime(without_runtime(s, id), id) == without_runtime(s, id),
    decreases s.len(),
{
    if s.len() > 0 {
        lemma_clear_runtime_idempotent(s.drop_last(), id);
        let rest = without_runtime(s.drop_last(), id);
        if s.last().runtime_id != id {
            assert(rest.push(s.last()).drop_last() =~= rest);
        }
    }
}

/// Raising a snapshot's id counters to a checkpoint's a second time changes
/// nothing, and every counter ends at least as high as both.
pub proof fn lemma_merge_checkpoint_counters_idempotent(
    snapshot: CoordinationSnapshotView,
    checkpoint: CoordinationSnapshotView,
)
    ensures
        merged_counters(merged_counters(snapshot, checkpoint), checkpoint) == merged_counters(
            snapshot,
            checkpoint,
        ),
        merged_counters(snapshot, checkpoint).next_plan >= snapshot.next_plan,
        merged_counters(snapshot, checkpoint).next_plan >= checkpoint.next_plan,
        merged_counters(snapshot, checkpoint).next_task >= snapshot.next_task,
        merged_counters(snapshot, checkpoint).next_task >= checkpoint.next_task,
        merged_counters(snapshot, checkpoint).next_claim >= snapshot.next_claim,
        merged_counters(snapshot, checkpoint).next_claim >= checkpoint.next_claim,
        merged_counters(snapshot, checkpoint).next_artifact >= snapshot.next_artifact,
        merged_counters(snapshot, checkpoint).next_artifact >= checkpoint.next_artifact,
        merged_counters(snapshot, checkpoint).next_review >= snapshot.next_review,
        merged_counters(snapshot, checkpoint).next_review >= checkpoint.next_review,
{
}

/// The event delta of a journal against itself is empty, and against an
/// empty journal it is the whole journal.
pub proof fn lemma_event_delta_of_same_and_empty(events: Seq<CoordinationEventView>)
    ensures
        event_delta(Seq::empty(), events) == events,
        event_delta(events, events).len() == 0,
{
    if events.len() > 0 {
        assert(id_prefix(events, events));
    }
}

/// When the stored events are a prefix (by id) of the next events, the
/// stored events followed by the delta give back the next events.
pub proof fn lemma_event_delta_completes_prefix(
    existing: Seq<CoordinationEventView>,
    next: Seq<CoordinationEventView>,
)
    requires
        id_prefix(existing, next),
    ensures
        next.subrange(0, existing.len() as int) + event_delta(existing, next) == next,
{
    if existing.len() == 0 {
        assert(next.subrange(0, 0) + next =~= next);
    } else {
        assert(next.subrange(0, existing.len() as int) + next.skip(existing.len() as int) =~= next);
    }
}


/// A record stored by an upsert is what a read of its id gives back, and
/// the records under other ids are untouched.
pub proof fn lemma_upsert_then_get(table: EventExecutionTable, id: Seq<char>, record: EventRecordView, other: Seq<char>)
    requires
        record.id == id,
        other != id,
    ensures
        table.contents().insert(id, record).get(id) == Some(record),
        table.contents().insert(id, record).get(other) == table.contents().get(other),
{
}

/// Claims are exclusive: once a claim of an execution has been applied, a
/// second claim of it that requires the record to be missing is refused.
pub proof fn lemma_claim_is_exclusive(
    before: Map<Seq<char>, EventRecordView>,
    first: EventExecutionTransitionRequest,
    second: EventExecutionTransitionRequest,
)
    requires
        first.transition is Claim,
        second.event_execution_id@ == first.transition->Claim_record.id@,
        precondition_failure(first.preconditions, before.get(first.event_execution_id@)) is None,
        second.preconditions.require_missing,
    ensures
        ({
            let next = transitioned_record(before.get(first.event_execution_id@), first.transition);
            let after = before.insert(next.id, next);
            precondition_failure(second.preconditions, after.get(second.event_execution_id@))
                is Some
        }),
{
    let next = transitioned_record(before.get(first.event_execution_id@), first.transition);
    let after = before.insert(next.id, next);
    assert(after.get(second.event_execution_id@) == Some(next));
}

/// A transition other than a claim keeps the stored record's identity,
/// trigger, owner and claim time, and sets the status it names.
pub proof fn lemma_transition_keeps_identity(current: EventRecordView, t: EventExecutionTransitionKind)
    requires
        !(t is Claim),
    ensures
        ({
            let next = transitioned_record(Some(current), t);
            &&& next.id == current.id
            &&& next.trigger_kind == current.trigger_kind
            &&& next.owner == current.owner
            &&& next.claimed_at == current.claimed_at
            &&& next.status == crate::event_execution::transition_status(t)
        }),
{
}


/// Adding up refresh work does not depend on order or grouping, and adding
/// no work changes nothing.
pub proof fn lemma_refresh_work_sum_laws(
    a: WorkspaceRefreshWork,
    b: WorkspaceRefreshWork,
    c: WorkspaceRefreshWork,
)
    ensures
        combined_work(a, b) == combined_work(b, a),
        combined_work(combined_work(a, b), c) == combined_work(a, combined_work(b, c)),
        combined_work(
            a,
            WorkspaceRefreshWork {
                loaded_bytes: 0,
                replay_volume: 0,
                full_rebuild_count: 0,
                workspace_reloaded: false,
            },
        ) == a,
{
}


proof fn lemma_lower_is_small(c: char)
    ensures
        is_ascii_alnum(ascii_lower(c)) ==> ascii_lower(ascii_lower(c)) == ascii_lower(c),
{
    if 'A' <= c && c <= 'Z' {
        let n = (c as u32) + 32;
        assert(97 <= n <= 122);
        assert((n as char) as u32 == n);
    }
}

proof fn lemma_collapsed_shaped(s: Seq<char>)
    ensures
        identifier_shaped(collapsed(s).0),
        collapsed(s).1 == (collapsed(s).0.len() > 0 && collapsed(s).0.last() == '_'),
    decreases s.len(),
{
    if s.len() > 0 {
        lemma_collapsed_shaped(s.drop_last());
        lemma_lower_is_small(s.last());
        let (out, sep) = collapsed(s.drop_last());
        let c = ascii_lower(s.last());
        let next = collapsed(s).0;
        if is_ascii_alnum(c) {
            assert forall|i: int| 0 <= i < next.len() implies identifier_char(#[trigger] next[i]) by {
                if i < out.len() {
                    assert(next[i] == out[i]);
                }
            }
            assert forall|i: int| 0 <= i < next.len() - 1 implies !(#[trigger] next[i] == '_'
                && next[i + 1] == '_') by {
                assert(next[i] == out[i]);
            }
        } else if !sep {
            assert forall|i: int| 0 <= i < next.len() implies identifier_char(#[trigger] next[i]) by {
                if i < out.len() {
                    assert(next[i] == out[i]);
                }
            }
            assert forall|i: int| 0 <= i < next.len() - 1 implies !(#[trigger] next[i] == '_'
                && next[i + 1] == '_') by {
                assert(next[i] == out[i]);
                if i + 1 < out.len() {
                    assert(next[i + 1] == out[i + 1]);
                } else {
                    assert(out.len() > 0 ==> out.last() != '_');
                    assert(out[out.len() - 1] == out.last());
                }
            }
        }
    }
}

proof fn lemma_collapsed_fixed(u: Seq<char>)
    requires
        identifier_shaped(u),
    ensures
        collapsed(u) == (u, u.len() > 0 && u.last() == '_'),
    decreases u.len(),
{
    if u.len() > 0 {
        let init = u.drop_last();
        assert(identifier_shaped(init)) by {
            assert forall|i: int| 0 <= i < init.len() implies identifier_char(#[trigger] init[i]) by {
                assert(init[i] == u[i]);
            }
            assert forall|i: int| 0 <= i < init.len() - 1 implies !(#[trigger] init[i] == '_'
                && init[i + 1] == '_') by {
                assert(init[i] == u[i] && init[i + 1] == u[i + 1]);
            }
        }
        lemma_collapsed_fixed(init);
        let c = u.last();
        assert(identifier_char(u[u.len() - 1]));
        if c == '_' && init.len() > 0 {
            assert(!(u[u.len() - 2] == '_' && u[u.len() - 1] == '_'));
            assert(init.last() == u[u.len() - 2]);
        }
        assert(init.push(c) =~= u);
    }
}

proof fn lemma_strip_leading_shape(u: Seq<char>, c: char) -> (k: int)
    ensures
        0 <= k <= u.len(),
        strip_leading(u, c) == u.subrange(k, u.len() as int),
        k < u.len() ==> u[k] != c,
    decreases u.len(),
{
    if u.len() > 0 && u[0] == c {
        let j = lemma_strip_leading_shape(u.drop_first(), c);
        assert(u.drop_first().subrange(j, u.len() - 1) =~= u.subrange(j + 1, u.len() as int));
        j + 1
    } else {
        assert(u.subrange(0, u.len() as int) =~= u);
        0
    }
}

proof fn lemma_strip_trailing_shape(u: Seq<char>, c: char) -> (m: int)
    ensures
        0 <= m <= u.len(),
        strip_trailing(u, c) == u.subrange(0, m),
        m > 0 ==> u[m - 1] != c,
    decreases u.len(),
{
    if u.len() > 0 && u.last() == c {
        let j = lemma_strip_trailing_shape(u.drop_last(), c);
        assert(u.drop_last().subrange(0, j) =~= u.subrange(0, j));
        j
    } else {
        assert(u.subrange(0, u.len() as int) =~= u);
        if u.len() > 0 {
            assert(u[u.len() - 1] == u.last());
        }
        u.len() as int
    }
}

proof fn lemma_shaped_subrange(u: Seq<char>, a: int, b: int)
    requires
        identifier_shaped(u),
        0 <= a <= b <= u.len(),
    ensures
        identifier_shaped(u.subrange(a, b)),
{
    let v = u.subrange(a, b);
    assert forall|i: int| 0 <= i < v.len() implies identifier_char(#[trigger] v[i]) by {
        assert(v[i] == u[a + i]);
    }
    assert forall|i: int| 0 <= i < v.len() - 1 implies !(#[trigger] v[i] == '_' && v[i + 1]
        == '_') by {
        assert(v[i] == u[a + i] && v[i + 1] == u[a + i + 1]);
    }
}

/// Normalizing an identifier that is identifier-shaped, starts and ends
/// with no `_` and is not empty gives it back.
proof fn lemma_normalized_fixed(u: Seq<char>)
    requires
        identifier_shaped(u),
        u.len() > 0,
        u[0] != '_',
        u.last() != '_',
    ensures
        normalized_identifier(u) == u,
{
    lemma_collapsed_fixed(u);
    assert(strip_leading(u, '_') == u);
    assert(strip_trailing(u, '_') == u);
}

/// Normalizing a name twice gives what normalizing it once gives; the
/// result is never empty and holds only small ASCII letters, digits and
/// single `_` separators, with none at either end.
pub proof fn lemma_normalize_identifier_idempotent(s: Seq<char>)
    ensures
        normalized_identifier(normalized_identifier(s)) == normalized_identifier(s),
        normalized_identifier(s).len() > 0,
        identifier_shaped(normalized_identifier(s)),
        normalized_identifier(s)[0] != '_',
        normalized_identifier(s).last() != '_',
{
    let out = collapsed(s).0;
    lemma_collapsed_shaped(s);
    let k = lemma_strip_leading_shape(out, '_');
    let lead = strip_leading(out, '_');
    let m = lemma_strip_trailing_shape(lead, '_');
    let t = strip_trailing(lead, '_');
    lemma_shaped_subrange(out, k, out.len() as int);
    lemma_shaped_subrange(lead, 0, m);
    if t.len() == 0 {
        reveal_strlit("workspace");
        let w = "workspace"@;
        assert(identifier_shaped(w)) by {
            assert forall|i: int| 0 <= i < w.len() implies identifier_char(#[trigger] w[i]) by {}
        }
        lemma_normalized_fixed(w);
    } else {
        assert(t[0] == lead[0]);
        assert(lead[0] == out[k]);
        assert(t.last() == lead[m - 1]);
        lemma_normalized_fixed(t);
    }
}


proof fn lemma_deepest_package(pkgs: Seq<PackageView>, path: Seq<Seq<char>>)
    ensures
        match deepest_package(pkgs, path) {
            Some(i) => 0 <= i < pkgs.len() && root_contains(pkgs[i].root, path) && forall|j: int|
                0 <= j < pkgs.len() && root_contains(#[trigger] pkgs[j].root, path)
                    ==> pkgs[j].root.len() <= pkgs[i].root.len(),
            None => forall|j: int|
                0 <= j < pkgs.len() ==> !root_contains(#[trigger] pkgs[j].root, path),
        },
    decreases pkgs.len(),
{
    if pkgs.len() > 0 {
        let init = pkgs.drop_last();
        let last_index = pkgs.len() - 1;
        lemma_deepest_package(init, path);
        assert(pkgs[last_index] == pkgs.last());
        assert forall|j: int| 0 <= j < init.len() implies #[trigger] init[j] == pkgs[j] by {}
        let best = deepest_package(init, path);
        let last = pkgs.last();
        if root_contains(last.root, path) && (best is None || pkgs[best->0].root.len()
            <= last.root.len()) {
            assert(deepest_package(pkgs, path) == Some(last_index));
            assert forall|j: int|
                0 <= j < pkgs.len() && root_contains(#[trigger] pkgs[j].root, path) implies
                pkgs[j].root.len() <= pkgs[last_index].root.len() by {
                if j < last_index {
                    assert(init[j] == pkgs[j]);
                    if let Some(b) = best {
                        assert(init[b] == pkgs[b]);
                    }
                }
            }
        } else {
            assert(deepest_package(pkgs, path) == best);
            match best {
                Some(b) => {
                    assert(init[b] == pkgs[b]);
                    assert forall|j: int|
                        0 <= j < pkgs.len() && root_contains(#[trigger] pkgs[j].root, path) implies
                        pkgs[j].root.len() <= pkgs[b].root.len() by {
                        if j < last_index {
                            assert(init[j] == pkgs[j]);
                        }
                    }
                },
                None => {
                    assert forall|j: int| 0 <= j < pkgs.len() implies !root_contains(
                        #[trigger] pkgs[j].root,
                        path,
                    ) by {
                        if j < last_index {
                            assert(init[j] == pkgs[j]);
                        }
                    }
                },
            }
        }
    }
}

/// A path that lies under some package root is given a package whose root
/// contains it, and no containing root is deeper; any path is given one of
/// the packages.
pub proof fn lemma_package_for_picks_deepest_root(pkgs: Seq<PackageView>, path: Seq<Seq<char>>)
    requires
        pkgs.len() > 0,
    ensures
        0 <= package_index_for(pkgs, path) < pkgs.len(),
        (exists|j: int| 0 <= j < pkgs.len() && root_contains(#[trigger] pkgs[j].root, path)) ==> {
            let i = package_index_for(pkgs, path);
            &&& root_contains(pkgs[i].root, path)
            &&& forall|j: int|
                0 <= j < pkgs.len() && root_contains(#[trigger] pkgs[j].root, path)
                    ==> pkgs[j].root.len() <= pkgs[i].root.len()
        },
{
    lemma_deepest_package(pkgs, path);
}


/// Once the materialization is cleared of its checkpoint and read models,
/// its metadata reports no snapshot, no read model and no checkpoint, only
/// the journal revision.
pub proof fn lemma_cleared_materialization_metadata(records: MaterializedRecords)
    requires
        records.startup_checkpoint is None,
        records.read_model is None,
        records.queue_read_model is None,
    ensures
        ({
            let m = metadata_of(records);
            &&& m.coordination_revision == Some(records.coordination_revision)
            &&& !m.has_snapshot && !m.has_canonical_snapshot_v2
            &&& !m.has_read_model && !m.has_queue_read_model
            &&& m.runtime_descriptor_count == 0
            &&& m.startup_checkpoint_coordination_revision is None
            &&& m.startup_checkpoint_version is None
            &&& m.startup_checkpoint_materialized_at is None
            &&& m.startup_checkpoint_authority is None
        }),
{
}

/// Stored read models are reported in the metadata.
pub proof fn lemma_written_read_models_reported(records: MaterializedRecords)
    requires
        records.read_model is Some,
        records.queue_read_model is Some,
    ensures
        metadata_of(records).has_read_model,
        metadata_of(records).has_queue_read_model,
{
}


/// Of two graph snapshots sent to the materializer before a flush, the
/// later one is what waits.
pub proof fn lemma_latest_snapshot_wins<T>(
    p0: PendingMaterializations<T>,
    p1: PendingMaterializations<T>,
    p2: PendingMaterializations<T>,
    a: T,
    b: T,
)
    requires
        recorded(p0, p1, MaterializerMessage::GraphSnapshot(a)),
        recorded(p1, p2, MaterializerMessage::GraphSnapshot(b)),
    ensures
        p2.graph_snapshot == Some(b),
        p2.validation_deltas@ == p0.validation_deltas@,
{
}

/// Validation deltas sent to the materializer before a flush all wait, in
/// the order they were sent.
pub proof fn lemma_deltas_accumulate_in_order<T>(
    p0: PendingMaterializations<T>,
    p1: PendingMaterializations<T>,
    p2: PendingMaterializations<T>,
    a: Vec<T>,
    b: Vec<T>,
)
    requires
        recorded(p0, p1, MaterializerMessage::ValidationDeltas(a)),
        recorded(p1, p2, MaterializerMessage::ValidationDeltas(b)),
    ensures
        p2.validation_deltas@ == p0.validation_deltas@ + a@ + b@,
        p2.co_change_deltas@ == p0.co_change_deltas@,
{
}


/// The current state loaded from the journal keeps the replayed events,
/// tasks and plans; only the id counters are raised to the checkpoint's,
/// and the runtime descriptors are the checkpoint's (none without one).
/// With nothing to replay, the current state is the checkpointed state as
/// it was written.
pub proof fn lemma_loaded_state_keeps_replay(
    replayed: Option<CoordinationSnapshotView>,
    checkpoint: Option<CurrentStateView>,
    checkpoint_revision: Option<u64>,
    effective: u64,
)
    ensures
        replayed matches Some(r) ==> {
            let loaded = loaded_current_state(replayed, checkpoint, checkpoint_revision, effective)->0;
            &&& loaded.snapshot.events == r.events
            &&& loaded.snapshot.tasks == r.tasks
            &&& loaded.snapshot.plans == r.plans
            &&& loaded.snapshot.next_plan >= r.next_plan
            &&& loaded.runtime_descriptors == match checkpoint {
                Some(c) => c.runtime_descriptors,
                None => Seq::empty(),
            }
        },
        replayed is None ==> loaded_current_state(replayed, checkpoint, checkpoint_revision, effective)
            == checkpoint,
{
}


/// Every transition but a claim that carries a summary leaves that summary
/// on the record, and one that carries none keeps the stored summary; a
/// start sets the start time and the running status, a finishing
/// transition the finish time and its own status, and nothing else of the
/// stored record changes but these.
pub proof fn lemma_transition_summary_replaces(
    current: EventRecordView,
    at: u64,
    summary: Option<String>,
)
    ensures
        ({
            let given = match summary {
                Some(s) => Some(s@),
                None => current.summary,
            };
            let started = transitioned_record(
                Some(current),
                EventExecutionTransitionKind::Start { started_at: at, summary },
            );
            let succeeded = transitioned_record(
                Some(current),
                EventExecutionTransitionKind::Succeed { finished_at: at, summary },
            );
            let failed = transitioned_record(
                Some(current),
                EventExecutionTransitionKind::Fail { finished_at: at, summary },
            );
            let expired = transitioned_record(
                Some(current),
                EventExecutionTransitionKind::Expire { finished_at: at, summary },
            );
            let abandoned = transitioned_record(
                Some(current),
                EventExecutionTransitionKind::Abandon { finished_at: at, summary },
            );
            &&& started.summary == given
            &&& started.started_at == Some(at)
            &&& started.status == EventExecutionStatus::Running
            &&& started.finished_at == current.finished_at
            &&& succeeded.summary == given
            &&& succeeded.finished_at == Some(at)
            &&& succeeded.status == EventExecutionStatus::Succeeded
            &&& failed.summary == given
            &&& failed.finished_at == Some(at)
            &&& failed.status == EventExecutionStatus::Failed
            &&& expired.summary == given
            &&& expired.finished_at == Some(at)
            &&& expired.status == EventExecutionStatus::Expired
            &&& abandoned.summary == given
            &&& abandoned.finished_at == Some(at)
            &&& abandoned.status == EventExecutionStatus::Abandoned
            &&& succeeded.started_at == current.started_at
            &&& (EventRecordView { summary: current.summary, finished_at: current.finished_at,
                status: current.status, ..succeeded }) == current
        }),
{
}

/// A write based on an expected authority stamp may proceed exactly when
/// the authority's current stamp is that stamp, field for field: the
/// backend, the repository, the snapshot, the transaction, the commit time
/// and the provenance; whatever the current revision is.
pub proof fn lemma_expected_stamp_must_match(
    expected: CoordinationAuthorityStamp,
    current_revision: u64,
    current_authority: Option<CoordinationAuthorityStamp>,
)
    ensures
        base_conflict(
            CoordinationTransactionBase::ExpectedAuthorityStamp(expected),
            current_revision,
            current_authority,
        ) is None <==> {
            &&& current_authority is Some
            &&& current_authority->0.backend_kind == expected.backend_kind
            &&& current_authority->0.logical_repo_id@ == expected.logical_repo_id@
            &&& current_authority->0.snapshot_id@ == expected.snapshot_id@
            &&& opt_str_view(current_authority->0.transaction_id) == opt_str_view(
                expected.transaction_id,
            )
            &&& current_authority->0.committed_at == expected.committed_at
            &&& opt_str_view(current_authority->0.provenance.ref_name) == opt_str_view(
                expected.provenance.ref_name,
            )
            &&& opt_str_view(current_authority->0.provenance.head_commit) == opt_str_view(
                expected.provenance.head_commit,
            )
            &&& opt_str_view(current_authority->0.provenance.manifest_digest) == opt_str_view(
                expected.provenance.manifest_digest,
            )
        },
        forall|other_revision: u64|
            #[trigger] base_conflict(
                CoordinationTransactionBase::ExpectedAuthorityStamp(expected),
                other_revision,
                current_authority,
            ) == base_conflict(
                CoordinationTransactionBase::ExpectedAuthorityStamp(expected),
                current_revision,
                current_authority,
            ),
{
}

/// A finished build or test calls for a repeated-failure job exactly when
/// it failed, the same for builds as for tests, however many failures were
/// recalled.
pub proof fn lemma_failed_runs_call_for_curation(result: OutcomeResult, recalled: nat, other: nat)
    ensures
        outcome_trigger(OutcomeKind::BuildRan, result, recalled) == outcome_trigger(
            OutcomeKind::TestRan,
            result,
            other,
        ),
        outcome_trigger(OutcomeKind::BuildRan, result, recalled) is Some <==> result
            == OutcomeResult::Failure,
        outcome_trigger(OutcomeKind::BuildRan, OutcomeResult::Failure, recalled) == Some(
            CuratorTrigger::RepeatedFailure,
        ),
{
}

/// An update that gives a node another id, name or kind makes the change set
/// require the edges of dependent files to be resolved again; a change set
/// that adds and removes nothing and whose updates keep every node's id,
/// name and kind does not.
pub proof fn lemma_identity_changes_need_edge_resolution(change: ObservedChangeSummary, i: int)
    ensures
        0 <= i < change.updated@.len() && (change.updated@[i].0.id@ != change.updated@[i].1.id@
            || change.updated@[i].0.name@ != change.updated@[i].1.name@
            || change.updated@[i].0.kind@ != change.updated@[i].1.kind@)
            ==> change_requires_edge_resolution(change),
        (change.added == 0 && change.removed == 0 && forall|j: int|
            0 <= j < change.updated@.len() ==> {
                &&& (#[trigger] change.updated@[j]).0.id@ == change.updated@[j].1.id@
                &&& change.updated@[j].0.name@ == change.updated@[j].1.name@
                &&& change.updated@[j].0.kind@ == change.updated@[j].1.kind@
            }) ==> !change_requires_edge_resolution(change),
{
    if 0 <= i < change.updated@.len() && (change.updated@[i].0.id@ != change.updated@[i].1.id@
        || change.updated@[i].0.name@ != change.updated@[i].1.name@
        || change.updated@[i].0.kind@ != change.updated@[i].1.kind@) {
        assert(crate::refresh::node_identity_changed(change.updated@[i].0, change.updated@[i].1));
    }
}

/// A name made of small ASCII letters and digits only normalizes to itself:
/// digits are kept like letters.
pub proof fn lemma_lowercase_alphanumeric_name_is_kept(s: Seq<char>)
    requires
        s.len() > 0,
        forall|i: int| 0 <= i < s.len() ==> ('a' <= #[trigger] s[i] <= 'z') || ('0' <= s[i] <= '9'),
    ensures
        normalized_identifier(s) == s,
{
    assert forall|i: int| 0 <= i < s.len() implies identifier_char(#[trigger] s[i]) by {
        assert(is_ascii_alnum(s[i]));
        assert(ascii_lower(s[i]) == s[i]);
    }
    lemma_normalized_fixed(s);
}

/// The small form of an ASCII letter; any other character as it is.
pub open spec fn lowered(c: char) -> char {
    if 'A' <= c <= 'Z' {
        ((c as u32) + 32) as char
    } else {
        c
    }
}

proof fn lemma_collapsed_alphanumeric(s: Seq<char>)
    requires
        forall|i: int|
            0 <= i < s.len() ==> ('a' <= #[trigger] s[i] <= 'z') || ('A' <= s[i] <= 'Z') || (
            '0' <= s[i] <= '9'),
    ensures
        collapsed(s).0 == Seq::new(s.len(), |i: int| lowered(s[i])),
    decreases s.len(),
{
    if s.len() > 0 {
        let init = s.drop_last();
        assert forall|i: int| 0 <= i < init.len() implies ('a' <= #[trigger] init[i] <= 'z') || (
        'A' <= init[i] <= 'Z') || ('0' <= init[i] <= '9') by {
            assert(init[i] == s[i]);
        }
        lemma_collapsed_alphanumeric(init);
        let c = s.last();
        assert(ascii_lower(c) == lowered(c));
        assert(('a' <= lowered(c) <= 'z') || ('0' <= lowered(c) <= '9'));
        assert(collapsed(s).0 =~= Seq::new(s.len(), |i: int| lowered(s[i])));
    }
}

/// A name made of ASCII letters and digits normalizes to itself with its
/// letters made small: every letter and digit is kept, in order.
pub proof fn lemma_alphanumeric_name_is_lowered(s: Seq<char>)
    requires
        s.len() > 0,
        forall|i: int|
            0 <= i < s.len() ==> ('a' <= #[trigger] s[i] <= 'z') || ('A' <= s[i] <= 'Z') || (
            '0' <= s[i] <= '9'),
    ensures
        normalized_identifier(s) == Seq::new(s.len(), |i: int| lowered(s[i])),
{
    lemma_collapsed_alphanumeric(s);
    let out = collapsed(s).0;
    assert(out[0] == lowered(s[0]));
    assert(out[0] != '_');
    assert(strip_leading(out, '_') == out);
    assert(out.last() == lowered(s[s.len() - 1]));
    assert(strip_trailing(out, '_') == out);
}

/// Failures and regressions call for a repeated-failure job once at least
/// two failures were recalled for their anchors; a validated fix always
/// calls for a task-completed job; other outcomes call for none, whatever
/// their result.
pub proof fn lemma_outcome_triggers(result: OutcomeResult, recalled: nat)
    ensures
        outcome_trigger(OutcomeKind::FailureObserved, result, recalled) == if recalled >= 2 {
            Some(CuratorTrigger::RepeatedFailure)
        } else {
            None
        },
        outcome_trigger(OutcomeKind::RegressionObserved, result, recalled) == outcome_trigger(
            OutcomeKind::FailureObserved,
            result,
            recalled,
        ),
        outcome_trigger(OutcomeKind::FixValidated, result, recalled) == Some(
            CuratorTrigger::TaskCompleted,
        ),
        outcome_trigger(OutcomeKind::Other, result, recalled) is None,
{
}

/// A write on the latest state always proceeds; one on an expected revision
/// proceeds exactly when that is the current revision, whatever the stamp.
pub proof fn lemma_revision_bases(
    expected: u64,
    current_revision: u64,
    current_authority: Option<CoordinationAuthorityStamp>,
)
    ensures
        base_conflict(CoordinationTransactionBase::LatestStrong, current_revision, current_authority)
            is None,
        base_conflict(
            CoordinationTransactionBase::ExpectedRevision(expected),
            current_revision,
            current_authority,
        ) is None <==> expected == current_revision,
{
}

/// A claim stores the claimed record as it is, whatever was stored before.
pub proof fn lemma_claim_stores_claimed_record(
    current: Option<EventRecordView>,
    record: EventExecutionRecord,
)
    ensures
        transitioned_record(current, EventExecutionTransitionKind::Claim { record }) == record@,
{
}

} // verus!
