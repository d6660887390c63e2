//! The shared execution substrate: execution records of every family, stored
//! through the authority's event-execution records.  A shared record keeps
//! its substrate-specific fields in the record metadata under the key
//! `executionSubstrate`.
use vstd::prelude::*;

use crate::authority_types::{
    CoordinationAuthorityStamp, CoordinationConflictInfo, CoordinationReadEnvelope,
    CoordinationTransactionDiagnostic, EventExecutionOwnerExpectation,
    EventExecutionRecordWriteResult, EventExecutionTransitionKind,
    EventExecutionTransitionPreconditions, EventExecutionTransitionRequest,
    EventExecutionTransitionResult, EventExecutionTransitionStatus,
};
use crate::coordination::{
    opt_str_view, EventExecutionOwner, EventExecutionOwnerView, EventExecutionRecord,
    EventExecutionStatus, EventTriggerKind, NodeRef,
};
use crate::reads::CoordinationReadConsistency;

verus! {

/// The metadata key under which substrate fields are stored.
pub open spec fn substrate_key() -> Seq<char> {
    "executionSubstrate"@
}

#[derive(Debug, Clone, Copy, PartialEq, Eq, Structural)]
pub enum SharedExecutionFamily {
    EventJob,
    Validation,
    Action,
}

#[derive(Debug, Clone, Copy, PartialEq, Eq, Structural)]
pub enum SharedExecutionRunnerCategory {
    EventRunner,
    ValidationRunner,
    ActionRunner,
}

#[derive(Debug, PartialEq, Eq)]
pub struct SharedExecutionRunnerRef {
    pub category: SharedExecutionRunnerCategory,
    pub kind: String,
}

#[derive(Debug, PartialEq, Eq)]
pub struct SharedExecutionCapabilityClassRef {
    pub name: String,
}

#[derive(Debug, PartialEq, Eq)]
pub enum SharedExecutionTargetRef {
    Service { worktree_id: Option<String>, service_instance_id: Option<String> },
    Runtime { runtime_id: String },
}

#[derive(Debug, PartialEq)]
pub enum SharedExecutionSourceRef {
    EventTrigger {
        trigger_kind: EventTriggerKind,
        trigger_target: Option<NodeRef>,
        hook_id: Option<String>,
        hook_version_digest: Option<String>,
        authoritative_revision: Option<u64>,
    },
    Validation { task_id: String },
    Action { action_id: String },
}

#[derive(Debug, Clone, Copy, PartialEq, Eq, Structural)]
pub enum SharedExecutionStatus {
    Claimed,
    Running,
    Succeeded,
    Failed,
    Expired,
    Abandoned,
}

/// The outcome of a finished execution; `details_json` is JSON text.
#[derive(Debug, PartialEq)]
pub struct SharedExecutionResultEnvelope {
    pub status: SharedExecutionStatus,
    pub summary: Option<String>,
    pub duration_ms: Option<u64>,
    pub details_json: String,
    pub evidence_refs: Vec<String>,
    pub diagnostics_refs: Vec<String>,
}

/// The substrate-specific fields kept in an event-execution record's metadata.
#[derive(Debug, PartialEq)]
pub struct SharedExecutionMetadata {
    pub family: SharedExecutionFamily,
    pub runner: SharedExecutionRunnerRef,
    pub capability_class: Option<SharedExecutionCapabilityClassRef>,
    pub target: Option<SharedExecutionTargetRef>,
    pub result: Option<SharedExecutionResultEnvelope>,
}

/// The value of one metadata entry: decoded substrate fields, or any other
/// JSON value as its text.
#[derive(Debug, PartialEq)]
pub enum MetadataEntryValue {
    Substrate(SharedExecutionMetadata),
    Json(String),
}

/// One `key: value` entry of a metadata object.
#[derive(Debug, PartialEq)]
pub struct MetadataEntry {
    pub key: String,
    pub value: MetadataEntryValue,
}

/// A record's metadata: JSON `null`, a JSON object (entries with distinct
/// keys, in no meaningful order), or any other JSON value as its text.
#[derive(Debug, PartialEq)]
pub enum MetadataValue {
    Null,
    Object(Vec<MetadataEntry>),
    Other(String),
}

// ---------------------------------------------------------------------------
// Views
// ---------------------------------------------------------------------------
pub struct RunnerRefView {
    pub category: SharedExecutionRunnerCategory,
    pub kind: Seq<char>,
}

pub enum TargetRefView {
    Service { worktree_id: Option<Seq<char>>, service_instance_id: Option<Seq<char>> },
    Runtime { runtime_id: Seq<char> },
}

pub struct NodeRefView {
    pub kind: Seq<char>,
    pub id: Seq<char>,
}

pub enum SourceRefView {
    EventTrigger {
        trigger_kind: EventTriggerKind,
        trigger_target: Option<NodeRefView>,
        hook_id: Option<Seq<char>>,
        hook_version_digest: Option<Seq<char>>,
        authoritative_revision: Option<u64>,
    },
    Validation { task_id: Seq<char> },
    Action { action_id: Seq<char> },
}

pub struct ResultEnvelopeView {
    pub status: SharedExecutionStatus,
    pub summary: Option<Seq<char>>,
    pub duration_ms: Option<u64>,
    pub details_json: Seq<char>,
    pub evidence_refs: Seq<Seq<char>>,
    pub diagnostics_refs: Seq<Seq<char>>,
}

pub struct SubstrateMetadataView {
    pub family: SharedExecutionFamily,
    pub runner: RunnerRefView,
    pub capability_class: Option<Seq<char>>,
    pub target: Option<TargetRefView>,
    pub result: Option<ResultEnvelopeView>,
}

pub enum EntryValueView {
    Substrate(SubstrateMetadataView),
    Json(Seq<char>),
}

pub enum MetadataView {
    Null,
    Object(Seq<(Seq<char>, EntryValueView)>),
    Other(Seq<char>),
}

pub struct EventRecordView {
    pub id: Seq<char>,
    pub trigger_kind: EventTriggerKind,
    pub trigger_target: Option<NodeRefView>,
    pub hook_id: Option<Seq<char>>,
    pub hook_version_digest: Option<Seq<char>>,
    pub authoritative_revision: Option<u64>,
    pub status: EventExecutionStatus,
    pub owner: Option<EventExecutionOwnerView>,
    pub claimed_at: u64,
    pub started_at: Option<u64>,
    pub finished_at: Option<u64>,
    pub expires_at: Option<u64>,
    pub summary: Option<Seq<char>>,
    pub metadata: MetadataView,
}

pub struct SharedRecordView {
    pub execution_id: Seq<char>,
    pub family: SharedExecutionFamily,
    pub source: SourceRefView,
    pub runner: RunnerRefView,
    pub capability_class: Option<Seq<char>>,
    pub target: Option<TargetRefView>,
    pub status: SharedExecutionStatus,
    pub owner: Option<EventExecutionOwnerView>,
    pub claimed_at: u64,
    pub started_at: Option<u64>,
    pub finished_at: Option<u64>,
    pub expires_at: Option<u64>,
    pub summary: Option<Seq<char>>,
    pub result: Option<ResultEnvelopeView>,
    pub details: MetadataView,
}

pub open spec fn strs_view(v: Seq<String>) -> Seq<Seq<char>> {
    v.map_values(|s: String| s@)
}

impl View for SharedExecutionRunnerRef {
    type V = RunnerRefView;

    open spec fn view(&self) -> RunnerRefView {
        RunnerRefView { category: self.category, kind: self.kind@ }
    }
}

impl View for SharedExecutionTargetRef {
    type V = TargetRefView;

    open spec fn view(&self) -> TargetRefView {
        match self {
            SharedExecutionTargetRef::Service { worktree_id, service_instance_id } =>
                TargetRefView::Service {
                worktree_id: opt_str_view(*worktree_id),
                service_instance_id: opt_str_view(*service_instance_id),
            },
            SharedExecutionTargetRef::Runtime { runtime_id } => TargetRefView::Runtime {
                runtime_id: runtime_id@,
            },
        }
    }
}

impl View for NodeRef {
    type V = NodeRefView;

    open spec fn view(&self) -> NodeRefView {
        NodeRefView { kind: self.kind@, id: self.id@ }
    }
}

pub open spec fn opt_node_view(o: Option<NodeRef>) -> Option<NodeRefView> {
    match o {
        Some(n) => Some(n@),
        None => None,
    }
}

pub open spec fn opt_owner_view(o: Option<EventExecutionOwner>) -> Option<EventExecutionOwnerView> {
    match o {
        Some(n) => Some(n@),
        None => None,
    }
}

pub open spec fn opt_target_view(o: Option<SharedExecutionTargetRef>) -> Option<TargetRefView> {
    match o {
        Some(n) => Some(n@),
        None => None,
    }
}

pub open spec fn opt_capability_view(o: Option<SharedExecutionCapabilityClassRef>) -> Option<
    Seq<char>,
> {
    match o {
        Some(n) => Some(n.name@),
        None => None,
    }
}

pub open spec fn opt_result_view(o: Option<SharedExecutionResultEnvelope>) -> Option<
    ResultEnvelopeView,
> {
    match o {
        Some(n) => Some(n@),
        None => None,
    }
}

impl View for SharedExecutionSourceRef {
    type V = SourceRefView;

    open spec fn view(&self) -> SourceRefView {
        match self {
            SharedExecutionSourceRef::EventTrigger {
                trigger_kind,
                trigger_target,
                hook_id,
                hook_version_digest,
                authoritative_revision,
            } => SourceRefView::EventTrigger {
                trigger_kind: *trigger_kind,
                trigger_target: opt_node_view(*trigger_target),
                hook_id: opt_str_view(*hook_id),
                hook_version_digest: opt_str_view(*hook_version_digest),
                authoritative_revision: *authoritative_revision,
            },
            SharedExecutionSourceRef::Validation { task_id } => SourceRefView::Validation {
                task_id: task_id@,
            },
            SharedExecutionSourceRef::Action { action_id } => SourceRefView::Action {
                action_id: action_id@,
            },
        }
    }
}

impl View for SharedExecutionResultEnvelope {
    type V = ResultEnvelopeView;

    open spec fn view(&self) -> ResultEnvelopeView {
        ResultEnvelopeView {
            status: self.status,
            summary: opt_str_view(self.summary),
            duration_ms: self.duration_ms,
            details_json: self.details_json@,
            evidence_refs: strs_view(self.evidence_refs@),
            diagnostics_refs: strs_view(self.diagnostics_refs@),
        }
    }
}

impl View for SharedExecutionMetadata {
    type V = SubstrateMetadataView;

    open spec fn view(&self) -> SubstrateMetadataView {
        SubstrateMetadataView {
            family: self.family,
            runner: self.runner@,
            capability_class: opt_capability_view(self.capability_class),
            target: opt_target_view(self.target),
            result: opt_result_view(self.result),
        }
    }
}

impl View for MetadataEntryValue {
    type V = EntryValueView;

    open spec fn view(&self) -> EntryValueView {
        match self {
            MetadataEntryValue::Substrate(m) => EntryValueView::Substrate(m@),
            MetadataEntryValue::Json(t) => EntryValueView::Json(t@),
        }
    }
}

impl View for MetadataEntry {
    type V = (Seq<char>, EntryValueView);

    open spec fn view(&self) -> (Seq<char>, EntryValueView) {
        (self.key@, self.value@)
    }
}

pub open spec fn entries_view(v: Seq<MetadataEntry>) -> Seq<(Seq<char>, EntryValueView)> {
    v.map_values(|e: MetadataEntry| e@)
}

impl View for MetadataValue {
    type V = MetadataView;

    open spec fn view(&self) -> MetadataView {
        match self {
            MetadataValue::Null => MetadataView::Null,
            MetadataValue::Object(entries) => MetadataView::Object(entries_view(entries@)),
            MetadataValue::Other(t) => MetadataView::Other(t@),
        }
    }
}

impl View for EventExecutionRecord {
    type V = EventRecordView;

    open spec fn view(&self) -> EventRecordView {
        EventRecordView {
            id: self.id@,
            trigger_kind: self.trigger_kind,
            trigger_target: opt_node_view(self.trigger_target),
            hook_id: opt_str_view(self.hook_id),
            hook_version_digest: opt_str_view(self.hook_version_digest),
            authoritative_revision: self.authoritative_revision,
            status: self.status,
            owner: opt_owner_view(self.owner),
            claimed_at: self.claimed_at,
            started_at: self.started_at,
            finished_at: self.finished_at,
            expires_at: self.expires_at,
            summary: opt_str_view(self.summary),
            metadata: self.metadata@,
        }
    }
}

// ---------------------------------------------------------------------------
// Cloning
// ---------------------------------------------------------------------------
impl Clone for SharedExecutionRunnerRef {
    fn clone(&self) -> (r: Self)
        ensures
            r == *self,
    {
        SharedExecutionRunnerRef { category: self.category, kind: self.kind.clone() }
    }
}

impl Clone for SharedExecutionCapabilityClassRef {
    fn clone(&self) -> (r: Self)
        ensures
            r == *self,
    {
        SharedExecutionCapabilityClassRef { name: self.name.clone() }
    }
}

impl Clone for SharedExecutionTargetRef {
    fn clone(&self) -> (r: Self)
        ensures
            r == *self,
    {
        match self {
            SharedExecutionTargetRef::Service { worktree_id, service_instance_id } =>
                SharedExecutionTargetRef::Service {
                worktree_id: worktree_id.clone(),
                service_instance_id: service_instance_id.clone(),
            },
            SharedExecutionTargetRef::Runtime { runtime_id } => SharedExecutionTargetRef::Runtime {
                runtime_id: runtime_id.clone(),
            },
        }
    }
}

impl Clone for SharedExecutionResultEnvelope {
    fn clone(&self) -> (r: Self)
        ensures
            r@ == self@,
    {
        let evidence_refs = self.evidence_refs.clone();
        let diagnostics_refs = self.diagnostics_refs.clone();
        assert(strs_view(evidence_refs@) =~= strs_view(self.evidence_refs@));
        assert(strs_view(diagnostics_refs@) =~= strs_view(self.diagnostics_refs@));
        SharedExecutionResultEnvelope {
            status: self.status,
            summary: self.summary.clone(),
            duration_ms: self.duration_ms,
            details_json: self.details_json.clone(),
            evidence_refs,
            diagnostics_refs,
        }
    }
}

impl Clone for SharedExecutionMetadata {
    fn clone(&self) -> (r: Self)
        ensures
            r@ == self@,
    {
        let capability_class = match &self.capability_class {
            Some(c) => Some(c.clone()),
            None => None,
        };
        let target = match &self.target {
            Some(t) => Some(t.clone()),
            None => None,
        };
        let result = match &self.result {
            Some(t) => Some(t.clone()),
            None => None,
        };
        SharedExecutionMetadata {
            family: self.family,
            runner: self.runner.clone(),
            capability_class,
            target,
            result,
        }
    }
}

impl Clone for MetadataEntryValue {
    fn clone(&self) -> (r: Self)
        ensures
            r@ == self@,
    {
        match self {
            MetadataEntryValue::Substrate(m) => MetadataEntryValue::Substrate(m.clone()),
            MetadataEntryValue::Json(t) => MetadataEntryValue::Json(t.clone()),
        }
    }
}

impl Clone for MetadataEntry {
    fn clone(&self) -> (r: Self)
        ensures
            r@ == self@,
    {
        MetadataEntry { key: self.key.clone(), value: self.value.clone() }
    }
}

impl Clone for MetadataValue {
    fn clone(&self) -> (r: Self)
        ensures
            r@ == self@,
    {
        match self {
            MetadataValue::Null => MetadataValue::Null,
            MetadataValue::Object(entries) => {
                let e = entries.clone();
                assert(entries_view(e@) =~= entries_view(entries@));
                MetadataValue::Object(e)
            },
            MetadataValue::Other(t) => MetadataValue::Other(t.clone()),
        }
    }
}


// ---------------------------------------------------------------------------
// Shared execution records
// ---------------------------------------------------------------------------
/// An execution of any family, as the substrate sees it.
#[derive(Debug, PartialEq)]
pub struct SharedExecutionRecord {
    pub execution_id: String,
    pub family: SharedExecutionFamily,
    pub source: SharedExecutionSourceRef,
    pub runner: SharedExecutionRunnerRef,
    pub capability_class: Option<SharedExecutionCapabilityClassRef>,
    pub target: Option<SharedExecutionTargetRef>,
    pub status: SharedExecutionStatus,
    pub owner: Option<EventExecutionOwner>,
    pub claimed_at: u64,
    pub started_at: Option<u64>,
    pub finished_at: Option<u64>,
    pub expires_at: Option<u64>,
    pub summary: Option<String>,
    pub result: Option<SharedExecutionResultEnvelope>,
    pub details: MetadataValue,
}

impl View for SharedExecutionRecord {
    type V = SharedRecordView;

    open spec fn view(&self) -> SharedRecordView {
        SharedRecordView {
            execution_id: self.execution_id@,
            family: self.family,
            source: self.source@,
            runner: self.runner@,
            capability_class: opt_capability_view(self.capability_class),
            target: opt_target_view(self.target),
            status: self.status,
            owner: opt_owner_view(self.owner),
            claimed_at: self.claimed_at,
            started_at: self.started_at,
            finished_at: self.finished_at,
            expires_at: self.expires_at,
            summary: opt_str_view(self.summary),
            result: opt_result_view(self.result),
            details: self.details@,
        }
    }
}

impl Clone for SharedExecutionSourceRef {
    fn clone(&self) -> (r: Self)
        ensures
            r == *self,
    {
        match self {
            SharedExecutionSourceRef::EventTrigger {
                trigger_kind,
                trigger_target,
                hook_id,
                hook_version_digest,
                authoritative_revision,
            } => {
                let trigger_target = match trigger_target {
                    Some(t) => Some(t.clone()),
                    None => None,
                };
                SharedExecutionSourceRef::EventTrigger {
                    trigger_kind: *trigger_kind,
                    trigger_target,
                    hook_id: hook_id.clone(),
                    hook_version_digest: hook_version_digest.clone(),
                    authoritative_revision: *authoritative_revision,
                }
            },
            SharedExecutionSourceRef::Validation { task_id } => SharedExecutionSourceRef::Validation {
                task_id: task_id.clone(),
            },
            SharedExecutionSourceRef::Action { action_id } => SharedExecutionSourceRef::Action {
                action_id: action_id.clone(),
            },
        }
    }
}

impl Clone for SharedExecutionRecord {
    fn clone(&self) -> (r: Self)
        ensures
            r@ == self@,
    {
        let capability_class = match &self.capability_class {
            Some(c) => Some(c.clone()),
            None => None,
        };
        let target = match &self.target {
            Some(t) => Some(t.clone()),
            None => None,
        };
        let owner = match &self.owner {
            Some(o) => Some(o.clone()),
            None => None,
        };
        let result = match &self.result {
            Some(x) => Some(x.clone()),
            None => None,
        };
        SharedExecutionRecord {
            execution_id: self.execution_id.clone(),
            family: self.family,
            source: self.source.clone(),
            runner: self.runner.clone(),
            capability_class,
            target,
            status: self.status,
            owner,
            claimed_at: self.claimed_at,
            started_at: self.started_at,
            finished_at: self.finished_at,
            expires_at: self.expires_at,
            summary: self.summary.clone(),
            result,
            details: self.details.clone(),
        }
    }
}

pub open spec fn shared_status_of(s: EventExecutionStatus) -> SharedExecutionStatus {
    match s {
        EventExecutionStatus::Claimed => SharedExecutionStatus::Claimed,
        EventExecutionStatus::Running => SharedExecutionStatus::Running,
        EventExecutionStatus::Succeeded => SharedExecutionStatus::Succeeded,
        EventExecutionStatus::Failed => SharedExecutionStatus::Failed,
        EventExecutionStatus::Expired => SharedExecutionStatus::Expired,
        EventExecutionStatus::Abandoned => SharedExecutionStatus::Abandoned,
    }
}

pub open spec fn event_status_of(s: SharedExecutionStatus) -> EventExecutionStatus {
    match s {
        SharedExecutionStatus::Claimed => EventExecutionStatus::Claimed,
        SharedExecutionStatus::Running => EventExecutionStatus::Running,
        SharedExecutionStatus::Succeeded => EventExecutionStatus::Succeeded,
        SharedExecutionStatus::Failed => EventExecutionStatus::Failed,
        SharedExecutionStatus::Expired => EventExecutionStatus::Expired,
        SharedExecutionStatus::Abandoned => EventExecutionStatus::Abandoned,
    }
}

impl From<SharedExecutionStatus> for EventExecutionStatus {
    fn from(value: SharedExecutionStatus) -> (r: Self) {
        match value {
            SharedExecutionStatus::Claimed => EventExecutionStatus::Claimed,
            SharedExecutionStatus::Running => EventExecutionStatus::Running,
            SharedExecutionStatus::Succeeded => EventExecutionStatus::Succeeded,
            SharedExecutionStatus::Failed => EventExecutionStatus::Failed,
            SharedExecutionStatus::Expired => EventExecutionStatus::Expired,
            SharedExecutionStatus::Abandoned => EventExecutionStatus::Abandoned,
        }
    }
}

impl vstd::std_specs::convert::FromSpecImpl<SharedExecutionStatus> for EventExecutionStatus {
    open spec fn obeys_from_spec() -> bool {
        true
    }

    open spec fn from_spec(v: SharedExecutionStatus) -> EventExecutionStatus {
        event_status_of(v)
    }
}

impl From<EventExecutionStatus> for SharedExecutionStatus {
    fn from(value: EventExecutionStatus) -> (r: Self) {
        match value {
            EventExecutionStatus::Claimed => SharedExecutionStatus::Claimed,
            EventExecutionStatus::Running => SharedExecutionStatus::Running,
            EventExecutionStatus::Succeeded => SharedExecutionStatus::Succeeded,
            EventExecutionStatus::Failed => SharedExecutionStatus::Failed,
            EventExecutionStatus::Expired => SharedExecutionStatus::Expired,
            EventExecutionStatus::Abandoned => SharedExecutionStatus::Abandoned,
        }
    }
}

impl vstd::std_specs::convert::FromSpecImpl<EventExecutionStatus> for SharedExecutionStatus {
    open spec fn obeys_from_spec() -> bool {
        true
    }

    open spec fn from_spec(v: EventExecutionStatus) -> SharedExecutionStatus {
        shared_status_of(v)
    }
}

/// The runner kind named after a trigger, used when a record names no hook.
pub open spec fn runner_kind_name(kind: EventTriggerKind) -> Seq<char> {
    match kind {
        EventTriggerKind::TaskBecameActionable => "task_became_actionable"@,
        EventTriggerKind::ClaimExpired => "claim_expired"@,
        EventTriggerKind::RecurringPlanTick => "recurring_plan_tick"@,
        EventTriggerKind::RuntimeBecameStale => "runtime_became_stale"@,
        EventTriggerKind::HookRequested => "hook_requested"@,
    }
}

/// The runner of an event record that carries no substrate metadata: an
/// event runner named by the record's hook, else by its trigger.
pub open spec fn default_runner_view(r: EventRecordView) -> RunnerRefView {
    RunnerRefView {
        category: SharedExecutionRunnerCategory::EventRunner,
        kind: match r.hook_id {
            Some(h) => h,
            None => runner_kind_name(r.trigger_kind),
        },
    }
}

/// The service target an owner points at, when it names a worktree or a
/// service instance.
pub open spec fn inferred_target(owner: Option<EventExecutionOwnerView>) -> Option<TargetRefView> {
    match owner {
        Some(o) => if o.worktree_id.is_some() || o.service_instance_id.is_some() {
            Some(
                TargetRefView::Service {
                    worktree_id: o.worktree_id,
                    service_instance_id: o.service_instance_id,
                },
            )
        } else {
            None
        },
        None => None,
    }
}

/// The substrate fields stored in `entries` from index `i` on: those of the
/// first entry under the substrate key, when it decodes as such.
pub open spec fn substrate_from(entries: Seq<(Seq<char>, EntryValueView)>, i: int) -> Option<
    SubstrateMetadataView,
>
    decreases entries.len() - i,
{
    if i < 0 || i >= entries.len() {
        None
    } else if entries[i].0 == substrate_key() {
        match entries[i].1 {
            EntryValueView::Substrate(m) => Some(m),
            EntryValueView::Json(_) => None,
        }
    } else {
        substrate_from(entries, i + 1)
    }
}

/// The substrate fields a record's metadata carries, if any.
pub open spec fn substrate_metadata_view(m: MetadataView) -> Option<SubstrateMetadataView> {
    match m {
        MetadataView::Object(entries) => substrate_from(entries, 0),
        _ => None,
    }
}

/// `entries` without those under the substrate key, in order.
pub open spec fn without_substrate(entries: Seq<(Seq<char>, EntryValueView)>) -> Seq<
    (Seq<char>, EntryValueView),
>
    decreases entries.len(),
{
    if entries.len() == 0 {
        entries
    } else {
        let rest = without_substrate(entries.drop_last());
        if entries.last().0 == substrate_key() {
            rest
        } else {
            rest.push(entries.last())
        }
    }
}

/// Metadata with the substrate entry taken out of an object.
pub open spec fn stripped_view(m: MetadataView) -> MetadataView {
    match m {
        MetadataView::Object(entries) => MetadataView::Object(without_substrate(entries)),
        other => other,
    }
}

/// Metadata with `meta` stored under the substrate key: added to an object
/// (replacing any earlier substrate entry), as the only entry in place of
/// `null`, and beside the former value, kept under `details`, otherwise.
pub open spec fn attached_view(m: MetadataView, meta: SubstrateMetadataView) -> MetadataView {
    let entry = (substrate_key(), EntryValueView::Substrate(meta));
    match m {
        MetadataView::Object(entries) => MetadataView::Object(without_substrate(entries).push(entry)),
        MetadataView::Null => MetadataView::Object(seq![entry]),
        MetadataView::Other(t) => MetadataView::Object(
            seq![("details"@, EntryValueView::Json(t)), entry],
        ),
    }
}

pub open spec fn opt_metadata_view(o: Option<SharedExecutionMetadata>) -> Option<
    SubstrateMetadataView,
> {
    match o {
        Some(m) => Some(m@),
        None => None,
    }
}

/// The shared view of a stored event-execution record.
pub open spec fn shared_from_event_view(r: EventRecordView) -> SharedRecordView {
    let meta = substrate_metadata_view(r.metadata);
    SharedRecordView {
        execution_id: r.id,
        family: match meta {
            Some(m) => m.family,
            None => SharedExecutionFamily::EventJob,
        },
        source: SourceRefView::EventTrigger {
            trigger_kind: r.trigger_kind,
            trigger_target: r.trigger_target,
            hook_id: r.hook_id,
            hook_version_digest: r.hook_version_digest,
            authoritative_revision: r.authoritative_revision,
        },
        runner: match meta {
            Some(m) => m.runner,
            None => default_runner_view(r),
        },
        capability_class: match meta {
            Some(m) => m.capability_class,
            None => None,
        },
        target: match meta {
            Some(m) => match m.target {
                Some(t) => Some(t),
                None => inferred_target(r.owner),
            },
            None => inferred_target(r.owner),
        },
        status: shared_status_of(r.status),
        owner: r.owner,
        claimed_at: r.claimed_at,
        started_at: r.started_at,
        finished_at: r.finished_at,
        expires_at: r.expires_at,
        summary: r.summary,
        result: match meta {
            Some(m) => m.result,
            None => None,
        },
        details: stripped_view(r.metadata),
    }
}

/// The substrate fields of a shared record.
pub open spec fn metadata_of_shared(s: SharedRecordView) -> SubstrateMetadataView {
    SubstrateMetadataView {
        family: s.family,
        runner: s.runner,
        capability_class: s.capability_class,
        target: s.target,
        result: s.result,
    }
}

/// The event-execution record that stores a shared record whose source is an
/// event trigger.
pub open spec fn event_from_shared_view(s: SharedRecordView) -> EventRecordView
    recommends
        s.source is EventTrigger,
{
    EventRecordView {
        id: s.execution_id,
        trigger_kind: s.source->trigger_kind,
        trigger_target: s.source->trigger_target,
        hook_id: s.source->hook_id,
        hook_version_digest: s.source->hook_version_digest,
        authoritative_revision: s.source->authoritative_revision,
        status: event_status_of(s.status),
        owner: s.owner,
        claimed_at: s.claimed_at,
        started_at: s.started_at,
        finished_at: s.finished_at,
        expires_at: s.expires_at,
        summary: s.summary,
        metadata: attached_view(s.details, metadata_of_shared(s)),
    }
}

/// The refusal given for a shared record whose source is not an event trigger.
pub open spec fn unsupported_source_message() -> Seq<char> {
    "shared execution source cannot yet persist through the current authority-backed event execution store"@
}

/// The runner kind named after a trigger.
pub fn default_event_runner_kind(kind: EventTriggerKind) -> (s: String)
    ensures
        s@ == runner_kind_name(kind),
{
    let name = match kind {
        EventTriggerKind::TaskBecameActionable => "task_became_actionable",
        EventTriggerKind::ClaimExpired => "claim_expired",
        EventTriggerKind::RecurringPlanTick => "recurring_plan_tick",
        EventTriggerKind::RuntimeBecameStale => "runtime_became_stale",
        EventTriggerKind::HookRequested => "hook_requested",
    };
    String::from_str(name)
}

/// The runner of a record that carries no substrate metadata.
pub fn default_event_runner_ref(record: &EventExecutionRecord) -> (r: SharedExecutionRunnerRef)
    ensures
        r@ == default_runner_view(record@),
{
    let kind = match &record.hook_id {
        Some(h) => h.clone(),
        None => default_event_runner_kind(record.trigger_kind),
    };
    SharedExecutionRunnerRef { category: SharedExecutionRunnerCategory::EventRunner, kind }
}

/// The service target named by an owner's worktree or service instance.
pub fn infer_target_from_owner(owner: Option<&EventExecutionOwner>) -> (r: Option<
    SharedExecutionTargetRef,
>)
    ensures
        opt_target_view(r) == inferred_target(
            match owner {
                Some(o) => Some(o@),
                None => None,
            },
        ),
{
    match owner {
        Some(o) => {
            if o.worktree_id.is_some() || o.service_instance_id.is_some() {
                Some(
                    SharedExecutionTargetRef::Service {
                        worktree_id: o.worktree_id.clone(),
                        service_instance_id: o.service_instance_id.clone(),
                    },
                )
            } else {
                None
            }
        },
        None => None,
    }
}

fn is_substrate_key(key: &String) -> (r: bool)
    ensures
        r == (key@ == substrate_key()),
{
    let expected = String::from_str("executionSubstrate");
    key.eq(&expected)
}

/// The substrate fields stored in a record's metadata, if it carries them.
pub fn shared_execution_metadata_from_value(value: &MetadataValue) -> (r: Option<
    SharedExecutionMetadata,
>)
    ensures
        opt_metadata_view(r) == substrate_metadata_view(value@),
{
    match value {
        MetadataValue::Object(entries) => {
            let ghost ev = entries_view(entries@);
            let mut i: usize = 0;
            while i < entries.len()
                invariant
                    i <= entries@.len(),
                    ev == entries_view(entries@),
                    value@ == MetadataView::Object(ev),
                    substrate_from(ev, 0) == substrate_from(ev, i as int),
                decreases entries@.len() - i,
            {
                let entry = &entries[i];
                if is_substrate_key(&entry.key) {
                    proof {
                        assert(ev[i as int] == entry@);
                        assert(substrate_from(ev, i as int) == match entry.value@ {
                            EntryValueView::Substrate(m) => Some(m),
                            EntryValueView::Json(_) => None,
                        });
                    }
                    match &entry.value {
                        MetadataEntryValue::Substrate(m) => {
                            let c = m.clone();
                            return Some(c);
                        },
                        MetadataEntryValue::Json(_) => {
                            return None;
                        },
                    }
                }
                i = i + 1;
            }
            None
        },
        _ => None,
    }
}

fn entries_without_substrate(entries: Vec<MetadataEntry>) -> (r: Vec<MetadataEntry>)
    ensures
        entries_view(r@) == without_substrate(entries_view(entries@)),
{
    let mut out: Vec<MetadataEntry> = Vec::new();
    let mut i: usize = 0;
    while i < entries.len()
        invariant
            i <= entries@.len(),
            entries_view(out@) == without_substrate(entries_view(entries@).subrange(0, i as int)),
        decreases entries@.len() - i,
    {
        let ghost ev = entries_view(entries@);
        proof {
            assert(ev.subrange(0, i + 1).drop_last() =~= ev.subrange(0, i as int));
        }
        if !is_substrate_key(&entries[i].key) {
            let e = entries[i].clone();
            out.push(e);
            proof {
                assert(entries_view(out@) =~= without_substrate(ev.subrange(0, i as int)).push(
                    ev[i as int],
                ));
            }
        }
        i = i + 1;
    }
    proof {
        assert(entries_view(entries@).subrange(0, entries@.len() as int) =~= entries_view(
            entries@,
        ));
    }
    out
}

/// Metadata with the substrate entry taken out.
pub fn strip_execution_substrate_metadata(value: MetadataValue) -> (r: MetadataValue)
    ensures
        r@ == stripped_view(value@),
{
    match value {
        MetadataValue::Object(entries) => MetadataValue::Object(entries_without_substrate(entries)),
        other => other,
    }
}

/// Metadata with `metadata` stored under the substrate key.
pub fn attach_execution_substrate_metadata(
    value: MetadataValue,
    metadata: SharedExecutionMetadata,
) -> (r: MetadataValue)
    ensures
        r@ == attached_view(value@, metadata@),
{
    let entry = MetadataEntry {
        key: String::from_str("executionSubstrate"),
        value: MetadataEntryValue::Substrate(metadata),
    };
    let ghost ev = entry@;
    match value {
        MetadataValue::Object(entries) => {
            let mut kept = entries_without_substrate(entries);
            let ghost before = entries_view(kept@);
            kept.push(entry);
            proof {
                assert(entries_view(kept@) =~= before.push(ev));
            }
            MetadataValue::Object(kept)
        },
        MetadataValue::Null => {
            let mut v: Vec<MetadataEntry> = Vec::new();
            v.push(entry);
            proof {
                assert(entries_view(v@) =~= seq![ev]);
            }
            MetadataValue::Object(v)
        },
        MetadataValue::Other(text) => {
            let mut v: Vec<MetadataEntry> = Vec::new();
            let details = MetadataEntry {
                key: String::from_str("details"),
                value: MetadataEntryValue::Json(text),
            };
            let ghost dv = details@;
            v.push(details);
            v.push(entry);
            proof {
                assert(entries_view(v@) =~= seq![dv, ev]);
            }
            MetadataValue::Object(v)
        },
    }
}

impl SharedExecutionRecord {
    /// The shared view of a stored event-execution record: substrate fields
    /// from its metadata where present, defaults derived from the record
    /// otherwise.
    pub fn from_event_execution_record(record: EventExecutionRecord) -> (r: Self)
        ensures
            r@ == shared_from_event_view(record@),
    {
        let metadata = shared_execution_metadata_from_value(&record.metadata);
        let runner_default = default_event_runner_ref(&record);
        let inferred = infer_target_from_owner(record.owner.as_ref());
        let (family, runner, capability_class, target, result) = match metadata {
            Some(m) => {
                let target = match m.target {
                    Some(t) => Some(t),
                    None => inferred,
                };
                (m.family, m.runner, m.capability_class, target, m.result)
            },
            None => (SharedExecutionFamily::EventJob, runner_default, None, inferred, None),
        };
        let EventExecutionRecord {
            id,
            trigger_kind,
            trigger_target,
            hook_id,
            hook_version_digest,
            authoritative_revision,
            status,
            owner,
            claimed_at,
            started_at,
            finished_at,
            expires_at,
            summary,
            metadata: stored,
        } = record;
        SharedExecutionRecord {
            execution_id: id,
            family,
            source: SharedExecutionSourceRef::EventTrigger {
                trigger_kind,
                trigger_target,
                hook_id,
                hook_version_digest,
                authoritative_revision,
            },
            runner,
            capability_class,
            target,
            status: SharedExecutionStatus::from(status),
            owner,
            claimed_at,
            started_at,
            finished_at,
            expires_at,
            summary,
            result,
            details: strip_execution_substrate_metadata(stored),
        }
    }

    /// The event-execution record that stores this record, with the substrate
    /// fields kept in its metadata.  Only records sourced from an event
    /// trigger can be stored this way.
    pub fn into_event_execution_record(self) -> (r: Result<EventExecutionRecord, String>)
        ensures
            self@.source is EventTrigger ==> (r is Ok && r->Ok_0@ == event_from_shared_view(self@)),
            !(self@.source is EventTrigger) ==> (r is Err && r->Err_0@
                == unsupported_source_message()),
    {
        let SharedExecutionRecord {
            execution_id,
            family,
            source,
            runner,
            capability_class,
            target,
            status,
            owner,
            claimed_at,
            started_at,
            finished_at,
            expires_at,
            summary,
            result,
            details,
        } = self;
        match source {
            SharedExecutionSourceRef::EventTrigger {
                trigger_kind,
                trigger_target,
                hook_id,
                hook_version_digest,
                authoritative_revision,
            } => {
                let metadata = SharedExecutionMetadata {
                    family,
                    runner,
                    capability_class,
                    target,
                    result,
                };
                Ok(
                    EventExecutionRecord {
                        id: execution_id,
                        trigger_kind,
                        trigger_target,
                        hook_id,
                        hook_version_digest,
                        authoritative_revision,
                        status: EventExecutionStatus::from(status),
                        owner,
                        claimed_at,
                        started_at,
                        finished_at,
                        expires_at,
                        summary,
                        metadata: attach_execution_substrate_metadata(details, metadata),
                    },
                )
            },
            _ => Err(
                String::from_str(
                    "shared execution source cannot yet persist through the current authority-backed event execution store",
                ),
            ),
        }
    }
}


/// No entry of `entries` is under the substrate key.
pub open spec fn free_of_substrate(entries: Seq<(Seq<char>, EntryValueView)>) -> bool {
    forall|i: int| 0 <= i < entries.len() ==> #[trigger] entries[i].0 != substrate_key()
}

proof fn lemma_without_substrate_identity(entries: Seq<(Seq<char>, EntryValueView)>)
    requires
        free_of_substrate(entries),
    ensures
        without_substrate(entries) == entries,
    decreases entries.len(),
{
    if entries.len() > 0 {
        let init = entries.drop_last();
        assert(free_of_substrate(init)) by {
            assert forall|i: int| 0 <= i < init.len() implies #[trigger] init[i].0
                != substrate_key() by {
                assert(init[i] == entries[i]);
            }
        }
        lemma_without_substrate_identity(init);
        assert(entries.last().0 != substrate_key()) by {
            assert(entries[entries.len() - 1] == entries.last());
        }
        assert(init.push(entries.last()) =~= entries);
    }
}

proof fn lemma_substrate_found_at_end(
    entries: Seq<(Seq<char>, EntryValueView)>,
    entry: (Seq<char>, EntryValueView),
    meta: SubstrateMetadataView,
    i: int,
)
    requires
        0 <= i <= entries.len(),
        free_of_substrate(entries),
        entry == (substrate_key(), EntryValueView::Substrate(meta)),
    ensures
        substrate_from(entries.push(entry), i) == Some(meta),
    decreases entries.len() - i,
{
    let all = entries.push(entry);
    if i < entries.len() {
        assert(all[i] == entries[i]);
        assert(entries[i].0 != substrate_key());
        lemma_substrate_found_at_end(entries, entry, meta, i + 1);
    } else {
        assert(all[i] == entry);
    }
}

/// Storing a shared record sourced from an event trigger and reading it back
/// gives the same record, when its details are a JSON object with no
/// substrate entry of its own and it names a target or its owner points at
/// none (otherwise the target read back is the one the owner points at).
pub proof fn lemma_shared_record_round_trip(record: SharedExecutionRecord)
    requires
        record@.source is EventTrigger,
        record@.details is Object,
        free_of_substrate(record@.details->Object_0),
        record@.target is Some || inferred_target(record@.owner) is None,
    ensures
        shared_from_event_view(event_from_shared_view(record@)) == record@,
{
    let s = record@;
    let entries = s.details->Object_0;
    let meta = metadata_of_shared(s);
    let entry = (substrate_key(), EntryValueView::Substrate(meta));
    lemma_without_substrate_identity(entries);
    let stored = entries.push(entry);
    lemma_substrate_found_at_end(entries, entry, meta, 0);
    assert(stored.drop_last() =~= entries);
    assert(without_substrate(stored) == entries);
    let e = event_from_shared_view(s);
    assert(e.metadata == MetadataView::Object(stored));
    assert(substrate_metadata_view(e.metadata) == Some(meta));
    let back = shared_from_event_view(e);
    assert(back.details == s.details);
    assert(back.source == s.source);
    assert(back.status == s.status);
}


// ---------------------------------------------------------------------------
// Queries, transitions and their results
// ---------------------------------------------------------------------------
/// Which shared execution records to read.
#[derive(Debug, PartialEq, Eq)]
pub struct SharedExecutionRecordQuery {
    pub consistency: CoordinationReadConsistency,
    pub family: Option<SharedExecutionFamily>,
    pub execution_id: Option<String>,
    pub limit: Option<usize>,
}

/// Which owner a shared transition expects the record to have.
#[derive(Debug, PartialEq, Eq)]
pub enum SharedExecutionOwnerExpectation {
    Any,
    Missing,
    Exact(EventExecutionOwner),
}

/// What must hold of the stored record for a shared transition to apply.
#[derive(Debug, PartialEq, Eq)]
pub struct SharedExecutionTransitionPreconditions {
    pub require_missing: bool,
    pub expected_status: Option<SharedExecutionStatus>,
    pub expected_owner: SharedExecutionOwnerExpectation,
}

impl Default for SharedExecutionTransitionPreconditions {
    fn default() -> (p: Self)
        ensures
            !p.require_missing,
            p.expected_status.is_none(),
            p.expected_owner == SharedExecutionOwnerExpectation::Any,
    {
        SharedExecutionTransitionPreconditions {
            require_missing: false,
            expected_status: None,
            expected_owner: SharedExecutionOwnerExpectation::Any,
        }
    }
}

pub open spec fn owner_expectation_of(e: SharedExecutionOwnerExpectation) -> EventExecutionOwnerExpectation {
    match e {
        SharedExecutionOwnerExpectation::Any => EventExecutionOwnerExpectation::Any,
        SharedExecutionOwnerExpectation::Missing => EventExecutionOwnerExpectation::Missing,
        SharedExecutionOwnerExpectation::Exact(o) => EventExecutionOwnerExpectation::Exact(o),
    }
}

pub open spec fn preconditions_of(p: SharedExecutionTransitionPreconditions) -> EventExecutionTransitionPreconditions {
    EventExecutionTransitionPreconditions {
        require_missing: p.require_missing,
        expected_status: match p.expected_status {
            Some(s) => Some(event_status_of(s)),
            None => None,
        },
        expected_owner: owner_expectation_of(p.expected_owner),
    }
}

impl From<SharedExecutionOwnerExpectation> for EventExecutionOwnerExpectation {
    fn from(value: SharedExecutionOwnerExpectation) -> (r: Self) {
        match value {
            SharedExecutionOwnerExpectation::Any => EventExecutionOwnerExpectation::Any,
            SharedExecutionOwnerExpectation::Missing => EventExecutionOwnerExpectation::Missing,
            SharedExecutionOwnerExpectation::Exact(owner) => EventExecutionOwnerExpectation::Exact(
                owner,
            ),
        }
    }
}

impl vstd::std_specs::convert::FromSpecImpl<SharedExecutionOwnerExpectation> for EventExecutionOwnerExpectation {
    open spec fn obeys_from_spec() -> bool {
        true
    }

    open spec fn from_spec(v: SharedExecutionOwnerExpectation) -> EventExecutionOwnerExpectation {
        owner_expectation_of(v)
    }
}

impl From<SharedExecutionTransitionPreconditions> for EventExecutionTransitionPreconditions {
    fn from(value: SharedExecutionTransitionPreconditions) -> (r: Self) {
        let expected_status = match value.expected_status {
            Some(s) => Some(EventExecutionStatus::from(s)),
            None => None,
        };
        EventExecutionTransitionPreconditions {
            require_missing: value.require_missing,
            expected_status,
            expected_owner: EventExecutionOwnerExpectation::from(value.expected_owner),
        }
    }
}

impl vstd::std_specs::convert::FromSpecImpl<SharedExecutionTransitionPreconditions> for EventExecutionTransitionPreconditions {
    open spec fn obeys_from_spec() -> bool {
        true
    }

    open spec fn from_spec(v: SharedExecutionTransitionPreconditions) -> EventExecutionTransitionPreconditions {
        preconditions_of(v)
    }
}

/// A step in the life of a shared execution.
#[derive(Debug, PartialEq)]
pub enum SharedExecutionTransitionKind {
    Claim { record: SharedExecutionRecord },
    Start { started_at: u64, summary: Option<String> },
    Succeed { finished_at: u64, summary: Option<String> },
    Fail { finished_at: u64, summary: Option<String> },
    Expire { finished_at: u64, summary: Option<String> },
    Abandon { finished_at: u64, summary: Option<String> },
}

#[derive(Debug, PartialEq)]
pub struct SharedExecutionTransitionRequest {
    pub execution_id: String,
    pub preconditions: SharedExecutionTransitionPreconditions,
    pub transition: SharedExecutionTransitionKind,
}

/// Whether a shared transition can go through the event-execution store: a
/// claim only of a record sourced from an event trigger.
pub open spec fn transition_storable(t: SharedExecutionTransitionKind) -> bool {
    match t {
        SharedExecutionTransitionKind::Claim { record } => record@.source is EventTrigger,
        _ => true,
    }
}

/// `e` is the event-execution form of the shared transition `t`.
pub open spec fn transition_converted(
    t: SharedExecutionTransitionKind,
    e: EventExecutionTransitionKind,
) -> bool {
    match t {
        SharedExecutionTransitionKind::Claim { record } => e matches EventExecutionTransitionKind::Claim {
            record: stored,
        } && stored@ == event_from_shared_view(record@),
        SharedExecutionTransitionKind::Start { started_at, summary } => e
            == EventExecutionTransitionKind::Start { started_at, summary },
        SharedExecutionTransitionKind::Succeed { finished_at, summary } => e
            == EventExecutionTransitionKind::Succeed { finished_at, summary },
        SharedExecutionTransitionKind::Fail { finished_at, summary } => e
            == EventExecutionTransitionKind::Fail { finished_at, summary },
        SharedExecutionTransitionKind::Expire { finished_at, summary } => e
            == EventExecutionTransitionKind::Expire { finished_at, summary },
        SharedExecutionTransitionKind::Abandon { finished_at, summary } => e
            == EventExecutionTransitionKind::Abandon { finished_at, summary },
    }
}

impl SharedExecutionTransitionRequest {
    /// The event-execution request that carries out this shared request.
    pub fn into_event_execution_transition_request(self) -> (r: Result<
        EventExecutionTransitionRequest,
        String,
    >)
        ensures
            transition_storable(self.transition) ==> (r is Ok && r->Ok_0.event_execution_id
                == self.execution_id && r->Ok_0.preconditions == preconditions_of(
                self.preconditions,
            ) && transition_converted(self.transition, r->Ok_0.transition)),
            !transition_storable(self.transition) ==> (r is Err && r->Err_0@
                == unsupported_source_message()),
    {
        let SharedExecutionTransitionRequest { execution_id, preconditions, transition } = self;
        let transition = match transition {
            SharedExecutionTransitionKind::Claim { record } => {
                match record.into_event_execution_record() {
                    Ok(stored) => EventExecutionTransitionKind::Claim { record: stored },
                    Err(e) => {
                        return Err(e);
                    },
                }
            },
            SharedExecutionTransitionKind::Start { started_at, summary } => {
                EventExecutionTransitionKind::Start { started_at, summary }
            },
            SharedExecutionTransitionKind::Succeed { finished_at, summary } => {
                EventExecutionTransitionKind::Succeed { finished_at, summary }
            },
            SharedExecutionTransitionKind::Fail { finished_at, summary } => {
                EventExecutionTransitionKind::Fail { finished_at, summary }
            },
            SharedExecutionTransitionKind::Expire { finished_at, summary } => {
                EventExecutionTransitionKind::Expire { finished_at, summary }
            },
            SharedExecutionTransitionKind::Abandon { finished_at, summary } => {
                EventExecutionTransitionKind::Abandon { finished_at, summary }
            },
        };
        Ok(
            EventExecutionTransitionRequest {
                event_execution_id: execution_id,
                preconditions: EventExecutionTransitionPreconditions::from(preconditions),
                transition,
            },
        )
    }
}

pub open spec fn opt_shared_view(o: Option<SharedExecutionRecord>) -> Option<SharedRecordView> {
    match o {
        Some(r) => Some(r@),
        None => None,
    }
}

/// The result of a shared transition.
#[derive(Debug, PartialEq)]
pub struct SharedExecutionTransitionResult {
    pub status: EventExecutionTransitionStatus,
    pub authority: Option<CoordinationAuthorityStamp>,
    pub record: Option<SharedExecutionRecord>,
    pub conflict: Option<CoordinationConflictInfo>,
    pub diagnostics: Vec<CoordinationTransactionDiagnostic>,
}

impl SharedExecutionTransitionResult {
    /// The shared form of an event-execution transition result.
    pub fn from_event_execution_transition_result(value: EventExecutionTransitionResult) -> (r:
        Self)
        ensures
            r.status == value.status,
            r.authority == value.authority,
            r.conflict == value.conflict,
            r.diagnostics == value.diagnostics,
            opt_shared_view(r.record) == match value.record {
                Some(e) => Some(shared_from_event_view(e@)),
                None => None,
            },
    {
        let EventExecutionTransitionResult { status, authority, record, conflict, diagnostics } =
            value;
        let record = match record {
            Some(e) => Some(SharedExecutionRecord::from_event_execution_record(e)),
            None => None,
        };
        SharedExecutionTransitionResult { status, authority, record, conflict, diagnostics }
    }
}

/// The result of writing a shared record.
#[derive(Debug, PartialEq)]
pub struct SharedExecutionRecordWriteResult {
    pub authority: Option<CoordinationAuthorityStamp>,
    pub record: SharedExecutionRecord,
}

impl SharedExecutionRecordWriteResult {
    /// The shared form of an event-execution write result.
    pub fn from_event_execution_record_write_result(value: EventExecutionRecordWriteResult) -> (r:
        Self)
        ensures
            r.authority == value.authority,
            r.record@ == shared_from_event_view(value.record@),
    {
        let EventExecutionRecordWriteResult { authority, record } = value;
        SharedExecutionRecordWriteResult {
            authority,
            record: SharedExecutionRecord::from_event_execution_record(record),
        }
    }
}

pub open spec fn event_records_view(v: Seq<EventExecutionRecord>) -> Seq<EventRecordView> {
    v.map_values(|r: EventExecutionRecord| r@)
}

pub open spec fn shared_records_view(v: Seq<SharedExecutionRecord>) -> Seq<SharedRecordView> {
    v.map_values(|r: SharedExecutionRecord| r@)
}

pub open spec fn family_selected(family: Option<SharedExecutionFamily>, f: SharedExecutionFamily) -> bool {
    match family {
        Some(expected) => f == expected,
        None => true,
    }
}

/// The shared views of `records`, in order, keeping those of the asked family.
pub open spec fn shared_records_of(
    records: Seq<EventRecordView>,
    family: Option<SharedExecutionFamily>,
) -> Seq<SharedRecordView>
    decreases records.len(),
{
    if records.len() == 0 {
        Seq::empty()
    } else {
        let rest = shared_records_of(records.drop_last(), family);
        let last = shared_from_event_view(records.last());
        if family_selected(family, last.family) {
            rest.push(last)
        } else {
            rest
        }
    }
}

/// A read of event-execution records as shared records of one family (or
/// of every family), with the envelope's consistency, freshness, authority
/// and refresh error unchanged.
pub fn shared_execution_records_from_event_envelope(
    envelope: CoordinationReadEnvelope<Vec<EventExecutionRecord>>,
    family: Option<SharedExecutionFamily>,
) -> (r: CoordinationReadEnvelope<Vec<SharedExecutionRecord>>)
    ensures
        r.consistency == envelope.consistency,
        r.freshness == envelope.freshness,
        r.authority == envelope.authority,
        r.refresh_error == envelope.refresh_error,
        envelope.value.is_none() ==> r.value.is_none(),
        envelope.value.is_some() ==> (r.value.is_some() && shared_records_view(r.value->Some_0@)
            == shared_records_of(event_records_view(envelope.value->Some_0@), family)),
{
    let CoordinationReadEnvelope { consistency, freshness, authority, value, refresh_error } =
        envelope;
    let value = match value {
        Some(records) => {
            let mut out: Vec<SharedExecutionRecord> = Vec::new();
            let ghost rv = event_records_view(records@);
            let mut i: usize = 0;
            while i < records.len()
                invariant
                    i <= records@.len(),
                    rv == event_records_view(records@),
                    shared_records_view(out@) == shared_records_of(rv.subrange(0, i as int), family),
                decreases records@.len() - i,
            {
                proof {
                    assert(rv.subrange(0, i + 1).drop_last() =~= rv.subrange(0, i as int));
                }
                let shared = SharedExecutionRecord::from_event_execution_record(records[i].clone());
                let keep = match family {
                    Some(expected) => shared.family == expected,
                    None => true,
                };
                if keep {
                    let ghost before = shared_records_view(out@);
                    out.push(shared);
                    proof {
                        assert(shared_records_view(out@) =~= before.push(out@.last()@));
                    }
                }
                i = i + 1;
            }
            proof {
                assert(rv.subrange(0, records@.len() as int) =~= rv);
            }
            Some(out)
        },
        None => None,
    };
    CoordinationReadEnvelope { consistency, freshness, authority, value, refresh_error }
}

} // verus!
