//! The shared execution substrate kept in the authority's event-execution
//! records.
use vstd::prelude::*;

use crate::authority_types::{
    CoordinationAuthorityStamp, CoordinationReadEnvelope, EventExecutionTransitionKind,
    EventExecutionTransitionStatus,
};
use crate::event_execution::{
    apply_event_execution_transition, precondition_failure, transitioned_record,
    upsert_event_execution_record, EventExecutionTable,
};
use crate::execution_substrate::{
    event_from_shared_view, opt_shared_view, preconditions_of, shared_from_event_view,
    shared_records_of, shared_records_view, transition_storable, unsupported_source_message,
    EventRecordView, SharedExecutionRecord, SharedExecutionRecordQuery,
    SharedExecutionRecordWriteResult, SharedExecutionTransitionKind,
    SharedExecutionTransitionRequest, SharedExecutionTransitionResult,
};
use crate::execution_substrate::shared_execution_records_from_event_envelope;
use crate::reads::CoordinationReadFreshness;

verus! {

/// `listed` is a listing of `contents` under `limit`: up to `limit` of its
/// records (all of them with no limit), each once.
pub open spec fn is_listing(
    contents: Map<Seq<char>, EventRecordView>,
    limit: Option<usize>,
    listed: Seq<EventRecordView>,
) -> bool {
    &&& listed.len() == match limit {
        Some(l) => if (l as nat) < contents.dom().len() {
            l as nat
        } else {
            contents.dom().len()
        },
        None => contents.dom().len(),
    }
    &&& forall|i: int| 0 <= i < listed.len() ==> contents.get(#[trigger] listed[i].id) == Some(listed[i])
    &&& forall|i: int, j: int| 0 <= i < j < listed.len() ==> listed[i].id != listed[j].id
}

/// The record a shared transition leaves behind, given the stored record.
pub open spec fn shared_transitioned_record(
    current: Option<EventRecordView>,
    t: SharedExecutionTransitionKind,
) -> EventRecordView {
    match t {
        SharedExecutionTransitionKind::Claim { record } => event_from_shared_view(record@),
        SharedExecutionTransitionKind::Start { started_at, summary } => transitioned_record(
            current,
            EventExecutionTransitionKind::Start { started_at, summary },
        ),
        SharedExecutionTransitionKind::Succeed { finished_at, summary } => transitioned_record(
            current,
            EventExecutionTransitionKind::Succeed { finished_at, summary },
        ),
        SharedExecutionTransitionKind::Fail { finished_at, summary } => transitioned_record(
            current,
            EventExecutionTransitionKind::Fail { finished_at, summary },
        ),
        SharedExecutionTransitionKind::Expire { finished_at, summary } => transitioned_record(
            current,
            EventExecutionTransitionKind::Expire { finished_at, summary },
        ),
        SharedExecutionTransitionKind::Abandon { finished_at, summary } => transitioned_record(
            current,
            EventExecutionTransitionKind::Abandon { finished_at, summary },
        ),
    }
}

pub open spec fn opt_shared_of(o: Option<EventRecordView>) -> Option<
    crate::execution_substrate::SharedRecordView,
> {
    match o {
        Some(r) => Some(shared_from_event_view(r)),
        None => None,
    }
}

/// The shared execution substrate kept in an authority's event-execution
/// records, answering at the authority's stamp.
pub struct AuthorityBackedSharedExecutionSubstrateStore {
    event_execution_store: EventExecutionTable,
    authority: Option<CoordinationAuthorityStamp>,
}

impl AuthorityBackedSharedExecutionSubstrateStore {
    /// The stored event-execution records, by id.
    pub closed spec fn contents(&self) -> Map<Seq<char>, EventRecordView> {
        self.event_execution_store.contents()
    }

    pub closed spec fn wf(&self) -> bool {
        self.event_execution_store.wf()
    }

    pub closed spec fn spec_authority(&self) -> Option<CoordinationAuthorityStamp> {
        self.authority
    }

    /// The substrate over an authority's event-execution records.
    pub fn new(
        event_execution_store: EventExecutionTable,
        authority: Option<CoordinationAuthorityStamp>,
    ) -> (s: Self)
        requires
            event_execution_store.wf(),
        ensures
            s.wf(),
            s.contents() == event_execution_store.contents(),
            s.spec_authority() == authority,
    {
        AuthorityBackedSharedExecutionSubstrateStore { event_execution_store, authority }
    }

    /// Reads shared records: the one with the asked id (if stored), or a
    /// listing of up to `limit` records; kept when of the asked family.
    pub fn read_execution_records(&self, request: SharedExecutionRecordQuery) -> (r:
        CoordinationReadEnvelope<Vec<SharedExecutionRecord>>)
        requires
            self.wf(),
        ensures
            r.consistency == request.consistency,
            r.freshness == CoordinationReadFreshness::VerifiedCurrent,
            r.authority == self.spec_authority(),
            r.refresh_error is None,
            r.value is Some,
            match request.execution_id {
                Some(id) => shared_records_view(r.value->0@) == shared_records_of(
                    match self.contents().get(id@) {
                        Some(x) => seq![x],
                        None => Seq::empty(),
                    },
                    request.family,
                ),
                None => exists|listed: Seq<EventRecordView>|
                    is_listing(self.contents(), request.limit, listed) && shared_records_view(
                        r.value->0@,
                    ) == shared_records_of(listed, request.family),
            },
    {
        let records = match &request.execution_id {
            Some(id) => {
                let found = self.event_execution_store.get(id);
                let mut v: Vec<crate::coordination::EventExecutionRecord> = Vec::new();
                match found {
                    Some(rec) => {
                        v.push(rec);
                    },
                    None => {},
                }
                v
            },
            None => self.event_execution_store.list(request.limit),
        };
        let ghost listed = crate::execution_substrate::event_records_view(records@);
        proof {
            match request.execution_id {
                Some(id) => {
                    assert(listed =~= match self.contents().get(id@) {
                        Some(x) => seq![x],
                        None => Seq::<EventRecordView>::empty(),
                    });
                },
                None => {
                    assert(is_listing(self.contents(), request.limit, listed));
                },
            }
        }
        let envelope = CoordinationReadEnvelope::verified_current(
            request.consistency,
            self.authority.clone(),
            records,
        );
        shared_execution_records_from_event_envelope(envelope, request.family)
    }

    /// Stores a shared record through its event-execution record; records
    /// not sourced from an event trigger are refused.
    pub fn upsert_execution_record(&mut self, record: SharedExecutionRecord) -> (r: Result<
        SharedExecutionRecordWriteResult,
        String,
    >)
        requires
            old(self).wf(),
        ensures
            final(self).wf(),
            final(self).spec_authority() == old(self).spec_authority(),
            record@.source is EventTrigger ==> {
                &&& r is Ok
                &&& final(self).contents() == old(self).contents().insert(
                    record@.execution_id,
                    event_from_shared_view(record@),
                )
                &&& r->Ok_0.authority == old(self).spec_authority()
                &&& r->Ok_0.record@ == shared_from_event_view(event_from_shared_view(record@))
            },
            !(record@.source is EventTrigger) ==> {
                &&& r is Err
                &&& r->Err_0@ == unsupported_source_message()
                &&& final(self).contents() == old(self).contents()
            },
    {
        match record.into_event_execution_record() {
            Ok(stored) => {
                let write = upsert_event_execution_record(
                    &mut self.event_execution_store,
                    self.authority.clone(),
                    stored,
                );
                Ok(SharedExecutionRecordWriteResult::from_event_execution_record_write_result(write))
            },
            Err(e) => Err(e),
        }
    }

    /// Applies a shared transition through the event-execution records: the
    /// stored record is checked against the preconditions; on success the
    /// transitioned record is stored and returned, on conflict nothing
    /// changes.  A claim of a record not sourced from an event trigger is
    /// refused.  A transition other than a claim that asks for a missing
    /// record must find one.
    pub fn apply_execution_transition(&mut self, request: SharedExecutionTransitionRequest) -> (r:
        Result<SharedExecutionTransitionResult, String>)
        requires
            old(self).wf(),
            request.preconditions.require_missing && !(request.transition is Claim) ==> old(
                self,
            ).contents().contains_key(request.execution_id@),
        ensures
            final(self).wf(),
            final(self).spec_authority() == old(self).spec_authority(),
            !transition_storable(request.transition) ==> {
                &&& r is Err
                &&& r->Err_0@ == unsupported_source_message()
                &&& final(self).contents() == old(self).contents()
            },
            transition_storable(request.transition) ==> ({
                let cur = old(self).contents().get(request.execution_id@);
                let failure = precondition_failure(preconditions_of(request.preconditions), cur);
                let next = shared_transitioned_record(cur, request.transition);
                &&& r is Ok
                &&& r->Ok_0.authority == old(self).spec_authority()
                &&& failure is Some ==> {
                    &&& r->Ok_0.status == EventExecutionTransitionStatus::Conflict
                    &&& opt_shared_view(r->Ok_0.record) == opt_shared_of(cur)
                    &&& r->Ok_0.conflict is Some && r->Ok_0.conflict->0.reason@ == failure->0
                    &&& final(self).contents() == old(self).contents()
                }
                &&& failure is None ==> {
                    &&& r->Ok_0.status == EventExecutionTransitionStatus::Applied
                    &&& opt_shared_view(r->Ok_0.record) == Some(shared_from_event_view(next))
                    &&& r->Ok_0.conflict is None
                    &&& final(self).contents() == old(self).contents().insert(next.id, next)
                }
            }),
    {
        let ghost t = request.transition;
        let ghost id = request.execution_id;
        let ghost pre = request.preconditions;
        match request.into_event_execution_transition_request() {
            Ok(event_request) => {
                proof {
                    assert(event_request.event_execution_id@ == id@);
                    assert(transitioned_record(self.contents().get(id@), event_request.transition)
                        == shared_transitioned_record(self.contents().get(id@), t));
                }
                let result = apply_event_execution_transition(
                    &mut self.event_execution_store,
                    self.authority.clone(),
                    event_request,
                );
                Ok(SharedExecutionTransitionResult::from_event_execution_transition_result(result))
            },
            Err(e) => Err(e),
        }
    }
}

} // verus!
