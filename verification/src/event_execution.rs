//! Event-execution records held by an authority: the preconditions a
//! transition checks, how each transition changes a record, and the table of
//! records with its compare-and-set transition.
use vstd::prelude::*;

use crate::authority_types::{
    CoordinationAuthorityStamp, CoordinationConflictInfo, EventExecutionOwnerExpectation,
    EventExecutionRecordWriteResult, EventExecutionTransitionKind,
    EventExecutionTransitionPreconditions, EventExecutionTransitionRequest,
    EventExecutionTransitionResult, EventExecutionTransitionStatus,
};
use crate::coordination::{EventExecutionRecord, EventExecutionStatus};
use crate::execution_substrate::EventRecordView;

verus! {

/// The name under which a status is printed.
pub open spec fn status_name(s: EventExecutionStatus) -> Seq<char> {
    match s {
        EventExecutionStatus::Claimed => "Claimed"@,
        EventExecutionStatus::Running => "Running"@,
        EventExecutionStatus::Succeeded => "Succeeded"@,
        EventExecutionStatus::Failed => "Failed"@,
        EventExecutionStatus::Expired => "Expired"@,
        EventExecutionStatus::Abandoned => "Abandoned"@,
    }
}

pub fn status_name_str(s: EventExecutionStatus) -> (r: &'static str)
    ensures
        r@ == status_name(s),
{
    match s {
        EventExecutionStatus::Claimed => "Claimed",
        EventExecutionStatus::Running => "Running",
        EventExecutionStatus::Succeeded => "Succeeded",
        EventExecutionStatus::Failed => "Failed",
        EventExecutionStatus::Expired => "Expired",
        EventExecutionStatus::Abandoned => "Abandoned",
    }
}

/// Why the stored record `current` fails the preconditions, or `None` when it
/// meets them.
pub open spec fn precondition_failure(
    pre: EventExecutionTransitionPreconditions,
    current: Option<EventRecordView>,
) -> Option<Seq<char>> {
    if pre.require_missing {
        if current is Some {
            Some("event execution record already exists"@)
        } else {
            None
        }
    } else if current is None {
        Some("event execution record does not exist"@)
    } else {
        let c = current->0;
        if pre.expected_status is Some && c.status != pre.expected_status->0 {
            Some(
                "event execution status no longer matches: expected `"@ + status_name(
                    pre.expected_status->0,
                ) + "`, found `"@ + status_name(c.status) + "`"@,
            )
        } else {
            match pre.expected_owner {
                EventExecutionOwnerExpectation::Any => None,
                EventExecutionOwnerExpectation::Missing => if c.owner is Some {
                    Some("event execution owner is already set"@)
                } else {
                    None
                },
                EventExecutionOwnerExpectation::Exact(o) => if c.owner == Some(o@) {
                    None
                } else {
                    Some("event execution owner no longer matches the expected owner"@)
                },
            }
        }
    }
}

pub open spec fn opt_record_view(o: Option<EventExecutionRecord>) -> Option<EventRecordView> {
    match o {
        Some(r) => Some(r@),
        None => None,
    }
}

/// A conflict answer carrying the stored record and the reason.
pub fn conflict_event_transition_result(
    authority: Option<CoordinationAuthorityStamp>,
    record: Option<EventExecutionRecord>,
    reason: String,
) -> (r: EventExecutionTransitionResult)
    ensures
        r.status == EventExecutionTransitionStatus::Conflict,
        r.authority == authority,
        r.record == record,
        r.conflict is Some && r.conflict->0.reason == reason,
        r.diagnostics@.len() == 0,
{
    EventExecutionTransitionResult {
        status: EventExecutionTransitionStatus::Conflict,
        authority,
        record,
        conflict: Some(CoordinationConflictInfo { reason }),
        diagnostics: Vec::new(),
    }
}

fn clone_opt_record(r: Option<&EventExecutionRecord>) -> (o: Option<EventExecutionRecord>)
    ensures
        opt_record_view(o) == match r {
            Some(x) => Some(x@),
            None => None::<EventRecordView>,
        },
{
    match r {
        Some(x) => Some(x.clone()),
        None => None,
    }
}

/// Checks the stored record `current` against the transition preconditions;
/// `None` when they hold, else the conflict answer.
pub fn validate_event_transition_preconditions(
    preconditions: &EventExecutionTransitionPreconditions,
    current: Option<&EventExecutionRecord>,
    authority: &Option<CoordinationAuthorityStamp>,
) -> (r: Option<EventExecutionTransitionResult>)
    ensures
        ({
            let cur = match current {
                Some(x) => Some(x@),
                None => None::<EventRecordView>,
            };
            &&& r.is_some() == precondition_failure(*preconditions, cur).is_some()
            &&& r matches Some(res) ==> {
                &&& res.status == EventExecutionTransitionStatus::Conflict
                &&& res.authority == *authority
                &&& opt_record_view(res.record) == cur
                &&& res.conflict is Some
                &&& res.conflict->0.reason@ == precondition_failure(*preconditions, cur)->0
                &&& res.diagnostics@.len() == 0
            }
        }),
{
    if preconditions.require_missing {
        if current.is_some() {
            return Some(
                conflict_event_transition_result(
                    authority.clone(),
                    clone_opt_record(current),
                    String::from_str("event execution record already exists"),
                ),
            );
        }
        return None;
    }
    let cur = match current {
        Some(c) => c,
        None => {
            return Some(
                conflict_event_transition_result(
                    authority.clone(),
                    None,
                    String::from_str("event execution record does not exist"),
                ),
            );
        },
    };
    if let Some(expected_status) = preconditions.expected_status {
        if cur.status != expected_status {
            let mut reason = String::from_str(
                "event execution status no longer matches: expected `",
            );
            reason.append(status_name_str(expected_status));
            reason.append("`, found `");
            reason.append(status_name_str(cur.status));
            reason.append("`");
            return Some(
                conflict_event_transition_result(authority.clone(), Some(cur.clone()), reason),
            );
        }
    }
    match &preconditions.expected_owner {
        EventExecutionOwnerExpectation::Any => None,
        EventExecutionOwnerExpectation::Missing => {
            if cur.owner.is_some() {
                Some(
                    conflict_event_transition_result(
                        authority.clone(),
                        Some(cur.clone()),
                        String::from_str("event execution owner is already set"),
                    ),
                )
            } else {
                None
            }
        },
        EventExecutionOwnerExpectation::Exact(expected_owner) => {
            let matches = match &cur.owner {
                Some(o) => o.same_as(expected_owner),
                None => false,
            };
            if matches {
                None
            } else {
                Some(
                    conflict_event_transition_result(
                        authority.clone(),
                        Some(cur.clone()),
                        String::from_str(
                            "event execution owner no longer matches the expected owner",
                        ),
                    ),
                )
            }
        },
    }
}

/// The status a transition moves a record to.
pub open spec fn transition_status(t: EventExecutionTransitionKind) -> EventExecutionStatus {
    match t {
        EventExecutionTransitionKind::Claim { record } => record.status,
        EventExecutionTransitionKind::Start { .. } => EventExecutionStatus::Running,
        EventExecutionTransitionKind::Succeed { .. } => EventExecutionStatus::Succeeded,
        EventExecutionTransitionKind::Fail { .. } => EventExecutionStatus::Failed,
        EventExecutionTransitionKind::Expire { .. } => EventExecutionStatus::Expired,
        EventExecutionTransitionKind::Abandon { .. } => EventExecutionStatus::Abandoned,
    }
}

/// A finishing transition: its time and summary.
pub open spec fn finishing(t: EventExecutionTransitionKind) -> Option<(u64, Option<String>)> {
    match t {
        EventExecutionTransitionKind::Succeed { finished_at, summary } => Some(
            (finished_at, summary),
        ),
        EventExecutionTransitionKind::Fail { finished_at, summary } => Some(
            (finished_at, summary),
        ),
        EventExecutionTransitionKind::Expire { finished_at, summary } => Some(
            (finished_at, summary),
        ),
        EventExecutionTransitionKind::Abandon { finished_at, summary } => Some(
            (finished_at, summary),
        ),
        _ => None,
    }
}

/// The summary after a transition: the new one if given, else the old one.
pub open spec fn next_summary(old: Option<Seq<char>>, given: Option<String>) -> Option<Seq<char>> {
    match given {
        Some(s) => Some(s@),
        None => old,
    }
}

/// The record a transition leaves behind, given the stored record `current`.
pub open spec fn transitioned_record(
    current: Option<EventRecordView>,
    t: EventExecutionTransitionKind,
) -> EventRecordView {
    match t {
        EventExecutionTransitionKind::Claim { record } => record@,
        EventExecutionTransitionKind::Start { started_at, summary } => {
            let c = current->0;
            EventRecordView {
                status: EventExecutionStatus::Running,
                started_at: Some(started_at),
                summary: next_summary(c.summary, summary),
                ..c
            }
        },
        _ => {
            let c = current->0;
            let (finished_at, summary) = finishing(t)->0;
            EventRecordView {
                status: transition_status(t),
                finished_at: Some(finished_at),
                summary: next_summary(c.summary, summary),
                ..c
            }
        },
    }
}

/// Applies a transition to the stored record.  Every transition but `Claim`
/// acts on an existing record.
pub fn apply_event_execution_transition_to_record(
    current: Option<&EventExecutionRecord>,
    transition: EventExecutionTransitionKind,
) -> (r: EventExecutionRecord)
    requires
        transition is Claim || current.is_some(),
    ensures
        r@ == transitioned_record(
            match current {
                Some(x) => Some(x@),
                None => None::<EventRecordView>,
            },
            transition,
        ),
{
    match transition {
        EventExecutionTransitionKind::Claim { record } => record,
        EventExecutionTransitionKind::Start { started_at, summary } => {
            let mut record = current.unwrap().clone();
            record.status = EventExecutionStatus::Running;
            record.started_at = Some(started_at);
            if let Some(summary) = summary {
                record.summary = Some(summary);
            }
            record
        },
        EventExecutionTransitionKind::Succeed { finished_at, summary } => {
            finish_record(current.unwrap(), EventExecutionStatus::Succeeded, finished_at, summary)
        },
        EventExecutionTransitionKind::Fail { finished_at, summary } => {
            finish_record(current.unwrap(), EventExecutionStatus::Failed, finished_at, summary)
        },
        EventExecutionTransitionKind::Expire { finished_at, summary } => {
            finish_record(current.unwrap(), EventExecutionStatus::Expired, finished_at, summary)
        },
        EventExecutionTransitionKind::Abandon { finished_at, summary } => {
            finish_record(current.unwrap(), EventExecutionStatus::Abandoned, finished_at, summary)
        },
    }
}

fn finish_record(
    current: &EventExecutionRecord,
    status: EventExecutionStatus,
    finished_at: u64,
    summary: Option<String>,
) -> (r: EventExecutionRecord)
    ensures
        r@ == (EventRecordView {
            status,
            finished_at: Some(finished_at),
            summary: next_summary(current@.summary, summary),
            ..current@
        }),
{
    let mut record = current.clone();
    record.status = status;
    record.finished_at = Some(finished_at);
    if let Some(summary) = summary {
        record.summary = Some(summary);
    }
    record
}

/// The records of a sequence keyed by id; a later record replaces an
/// earlier one with the same id.
pub open spec fn records_map(s: Seq<EventExecutionRecord>) -> Map<Seq<char>, EventRecordView>
    decreases s.len(),
{
    if s.len() == 0 {
        Map::empty()
    } else {
        records_map(s.drop_last()).insert(s.last().id@, s.last()@)
    }
}

/// No two records share an id.
pub open spec fn unique_ids(s: Seq<EventExecutionRecord>) -> bool {
    forall|i: int, j: int| 0 <= i < j < s.len() ==> s[i].id@ != s[j].id@
}

proof fn lemma_records_map_contains(s: Seq<EventExecutionRecord>, k: Seq<char>)
    ensures
        records_map(s).contains_key(k) <==> exists|i: int| 0 <= i < s.len() && s[i].id@ == k,
    decreases s.len(),
{
    if s.len() > 0 {
        lemma_records_map_contains(s.drop_last(), k);
        if records_map(s).contains_key(k) {
            if k != s.last().id@ {
                let i = choose|i: int| 0 <= i < s.drop_last().len() && s.drop_last()[i].id@ == k;
                assert(s[i].id@ == k);
            } else {
                assert(s[s.len() - 1].id@ == k);
            }
        }
        if exists|i: int| 0 <= i < s.len() && s[i].id@ == k {
            let i = choose|i: int| 0 <= i < s.len() && s[i].id@ == k;
            if i < s.len() - 1 {
                assert(s.drop_last()[i].id@ == k);
            }
        }
    }
}

proof fn lemma_records_map_index(s: Seq<EventExecutionRecord>, i: int)
    requires
        unique_ids(s),
        0 <= i < s.len(),
    ensures
        records_map(s).contains_key(s[i].id@),
        records_map(s)[s[i].id@] == s[i]@,
    decreases s.len(),
{
    if i < s.len() - 1 {
        lemma_records_map_index(s.drop_last(), i);
        assert(s.drop_last()[i] == s[i]);
        assert(s[i].id@ != s.last().id@);
    }
}

proof fn lemma_records_map_update(s: Seq<EventExecutionRecord>, i: int, r: EventExecutionRecord)
    requires
        unique_ids(s),
        0 <= i < s.len(),
        s[i].id@ == r.id@,
    ensures
        records_map(s.update(i, r)) =~= records_map(s).insert(r.id@, r@),
        unique_ids(s.update(i, r)),
    decreases s.len(),
{
    let u = s.update(i, r);
    assert forall|a: int, b: int| 0 <= a < b < u.len() implies u[a].id@ != u[b].id@ by {
        assert(s[a].id@ != s[b].id@);
    }
    if i == s.len() - 1 {
        assert(u.drop_last() =~= s.drop_last());
    } else {
        assert(u.drop_last() =~= s.drop_last().update(i, r));
        lemma_records_map_update(s.drop_last(), i, r);
        assert(s.last().id@ != r.id@);
    }
}

proof fn lemma_records_map_push(s: Seq<EventExecutionRecord>, r: EventExecutionRecord)
    requires
        unique_ids(s),
        forall|i: int| 0 <= i < s.len() ==> s[i].id@ != r.id@,
    ensures
        records_map(s.push(r)) == records_map(s).insert(r.id@, r@),
        unique_ids(s.push(r)),
{
    assert(s.push(r).drop_last() =~= s);
}

proof fn lemma_records_map_keys(s: Seq<EventExecutionRecord>)
    ensures
        forall|k: Seq<char>| #[trigger]
            records_map(s).contains_key(k) ==> records_map(s)[k].id == k,
    decreases s.len(),
{
    if s.len() > 0 {
        lemma_records_map_keys(s.drop_last());
    }
}

/// The authority's table of event-execution records, keyed by record id.
pub struct EventExecutionTable {
    records: Vec<EventExecutionRecord>,
}

impl EventExecutionTable {
    /// The records, keyed by id.
    pub closed spec fn contents(&self) -> Map<Seq<char>, EventRecordView> {
        records_map(self.records@)
    }

    /// Ids are unique.
    pub closed spec fn wf(&self) -> bool {
        unique_ids(self.records@)
    }

    /// Every record is stored under its own id.
    pub proof fn lemma_keyed_by_own_id(&self)
        ensures
            forall|k: Seq<char>| #[trigger]
                self.contents().contains_key(k) ==> self.contents()[k].id == k,
    {
        lemma_records_map_keys(self.records@);
    }

    /// An empty table.
    pub fn new() -> (t: Self)
        ensures
            t.wf(),
            t.contents() == Map::<Seq<char>, EventRecordView>::empty(),
    {
        EventExecutionTable { records: Vec::new() }
    }

    fn find(&self, id: &String) -> (r: Option<usize>)
        ensures
            match r {
                Some(i) => i < self.records@.len() && self.records@[i as int].id@ == id@,
                None => forall|i: int|
                    0 <= i < self.records@.len() ==> self.records@[i].id@ != id@,
            },
    {
        let mut i: usize = 0;
        while i < self.records.len()
            invariant
                i <= self.records@.len(),
                forall|j: int| 0 <= j < i ==> self.records@[j].id@ != id@,
            decreases self.records@.len() - i,
        {
            if self.records[i].id.eq(id) {
                return Some(i);
            }
            i = i + 1;
        }
        None
    }

    /// The record stored under `id`, if any.
    pub fn get(&self, id: &String) -> (r: Option<EventExecutionRecord>)
        requires
            self.wf(),
        ensures
            opt_record_view(r) == self.contents().get(id@),
    {
        proof {
            lemma_records_map_contains(self.records@, id@);
        }
        match self.find(id) {
            Some(i) => {
                proof {
                    lemma_records_map_index(self.records@, i as int);
                }
                Some(self.records[i].clone())
            },
            None => None,
        }
    }

    /// Stores `record` under its id, replacing any record with that id.
    pub fn upsert(&mut self, record: EventExecutionRecord)
        requires
            old(self).wf(),
        ensures
            final(self).wf(),
            final(self).contents() == old(self).contents().insert(record.id@, record@),
    {
        match self.find(&record.id) {
            Some(i) => {
                proof {
                    lemma_records_map_update(self.records@, i as int, record);
                }
                self.records.set(i, record);
            },
            None => {
                proof {
                    lemma_records_map_push(self.records@, record);
                }
                self.records.push(record);
            },
        }
    }

    /// Up to `limit` stored records (all of them with no limit), each once,
    /// in no promised order.
    pub fn list(&self, limit: Option<usize>) -> (r: Vec<EventExecutionRecord>)
        requires
            self.wf(),
        ensures
            r@.len() == match limit {
                Some(l) => if (l as nat) < self.contents().dom().len() {
                    l as nat
                } else {
                    self.contents().dom().len()
                },
                None => self.contents().dom().len(),
            },
            forall|i: int| 0 <= i < r@.len() ==> self.contents().get(#[trigger] r@[i].id@) == Some(r@[i]@),
            forall|i: int, j: int| 0 <= i < j < r@.len() ==> r@[i].id@ != r@[j].id@,
    {
        proof {
            lemma_records_map_len(self.records@);
        }
        let n = match limit {
            Some(l) => if l < self.records.len() {
                l
            } else {
                self.records.len()
            },
            None => self.records.len(),
        };
        let mut out: Vec<EventExecutionRecord> = Vec::new();
        let mut i: usize = 0;
        while i < n
            invariant
                n <= self.records@.len(),
                unique_ids(self.records@),
                i <= n,
                out@.len() == i,
                forall|k: int| 0 <= k < i ==> #[trigger] out@[k]@ == self.records@[k]@,
            decreases n - i,
        {
            out.push(self.records[i].clone());
            i = i + 1;
        }
        proof {
            assert forall|k: int| 0 <= k < out@.len() implies self.contents().get(
                #[trigger] out@[k].id@,
            ) == Some(out@[k]@) by {
                assert(out@[k]@ == self.records@[k]@);
                lemma_records_map_index(self.records@, k);
            }
            assert forall|a: int, b: int| 0 <= a < b < out@.len() implies out@[a].id@
                != out@[b].id@ by {
                assert(out@[a]@ == self.records@[a]@);
                assert(out@[b]@ == self.records@[b]@);
            }
        }
        out
    }

    /// Number of stored records.
    pub fn len(&self) -> (n: usize)
        requires
            self.wf(),
        ensures
            n as nat == self.contents().dom().len(),
    {
        proof {
            lemma_records_map_len(self.records@);
        }
        self.records.len()
    }
}

proof fn lemma_records_map_len(s: Seq<EventExecutionRecord>)
    requires
        unique_ids(s),
    ensures
        records_map(s).dom().finite(),
        records_map(s).dom().len() == s.len(),
    decreases s.len(),
{
    if s.len() > 0 {
        let d = s.drop_last();
        assert(unique_ids(d)) by {
            assert forall|a: int, b: int| 0 <= a < b < d.len() implies d[a].id@ != d[b].id@ by {
                assert(d[a] == s[a] && d[b] == s[b]);
            }
        }
        lemma_records_map_len(d);
        lemma_records_map_contains(d, s.last().id@);
        assert(!records_map(d).contains_key(s.last().id@)) by {
            if records_map(d).contains_key(s.last().id@) {
                let i = choose|i: int| 0 <= i < d.len() && d[i].id@ == s.last().id@;
                assert(s[i].id@ != s[s.len() - 1].id@);
            }
        }
    }
}

/// Applies a transition request to the table: the stored record under the
/// request's id is checked against the preconditions; on success the
/// transitioned record is stored under its own id and returned, on conflict
/// the table is left as it was.  A transition other than `Claim` that asks
/// for a missing record must find one: there is no record to transition.
pub fn apply_event_execution_transition(
    table: &mut EventExecutionTable,
    authority: Option<CoordinationAuthorityStamp>,
    request: EventExecutionTransitionRequest,
) -> (r: EventExecutionTransitionResult)
    requires
        old(table).wf(),
        request.preconditions.require_missing && !(request.transition is Claim) ==> old(
            table,
        ).contents().contains_key(request.event_execution_id@),
    ensures
        final(table).wf(),
        ({
            let cur = old(table).contents().get(request.event_execution_id@);
            let failure = precondition_failure(request.preconditions, cur);
            let next = transitioned_record(cur, request.transition);
            &&& r.authority == authority
            &&& r.diagnostics@.len() == 0
            &&& failure is Some ==> {
                &&& r.status == EventExecutionTransitionStatus::Conflict
                &&& opt_record_view(r.record) == cur
                &&& r.conflict is Some && r.conflict->0.reason@ == failure->0
                &&& final(table).contents() == old(table).contents()
            }
            &&& failure is None ==> {
                &&& r.status == EventExecutionTransitionStatus::Applied
                &&& opt_record_view(r.record) == Some(next)
                &&& r.conflict is None
                &&& final(table).contents() == old(table).contents().insert(next.id, next)
                &&& !(request.transition is Claim) ==> final(table).contents().get(
                    request.event_execution_id@,
                ) == Some(next)
            }
        }),
{
    proof {
        table.lemma_keyed_by_own_id();
    }
    let current = table.get(&request.event_execution_id);
    let conflict = match &current {
        Some(c) => validate_event_transition_preconditions(
            &request.preconditions,
            Some(c),
            &authority,
        ),
        None => validate_event_transition_preconditions(&request.preconditions, None, &authority),
    };
    if let Some(conflict) = conflict {
        return conflict;
    }
    let record = match &current {
        Some(c) => apply_event_execution_transition_to_record(Some(c), request.transition),
        None => apply_event_execution_transition_to_record(None, request.transition),
    };
    table.upsert(record.clone());
    EventExecutionTransitionResult {
        status: EventExecutionTransitionStatus::Applied,
        authority,
        record: Some(record),
        conflict: None,
        diagnostics: Vec::new(),
    }
}

/// Stores a record as given and answers with it.
pub fn upsert_event_execution_record(
    table: &mut EventExecutionTable,
    authority: Option<CoordinationAuthorityStamp>,
    record: EventExecutionRecord,
) -> (r: EventExecutionRecordWriteResult)
    requires
        old(table).wf(),
    ensures
        final(table).wf(),
        final(table).contents() == old(table).contents().insert(record.id@, record@),
        r.authority == authority,
        r.record@ == record@,
{
    table.upsert(record.clone());
    EventExecutionRecordWriteResult { authority, record }
}

} // verus!
