//! Coordination data model: runtime descriptors, event-execution records,
//! requirement declarations and the coordination snapshot.
use vstd::prelude::*;

use crate::execution_substrate::MetadataValue;

verus! {

/// Default discovery mode of a runtime descriptor.
pub fn default_runtime_discovery_mode() -> (m: RuntimeDiscoveryMode)
    ensures
        m == RuntimeDiscoveryMode::NoDiscovery,
{
    RuntimeDiscoveryMode::NoDiscovery
}

/// A task lease goes stale after thirty minutes by default.
pub fn default_lease_stale_after_seconds() -> (s: u64)
    ensures
        s == 30 * 60,
{
    30 * 60
}

/// A task lease expires after two hours by default.
pub fn default_lease_expires_after_seconds() -> (s: u64)
    ensures
        s == 2 * 60 * 60,
{
    2 * 60 * 60
}

/// A requirement asks for one item unless it says otherwise.
pub fn default_requirement_min_count() -> (n: u16)
    ensures
        n == 1,
{
    1
}

#[derive(Debug, Clone, Copy, PartialEq, Eq, Structural)]
pub enum ArtifactRequirementKind {
    CodeChange,
    TestEvidence,
    ExternalEvidence,
    Attestation,
    Note,
}

#[derive(Debug, Clone, Copy, PartialEq, Eq, Structural)]
pub enum ArtifactEvidenceType {
    GitCommit,
    GitRange,
    GitRef,
    ExternalRun,
    Attestation,
    Note,
}

#[derive(Debug, Clone, Copy, PartialEq, Eq, Structural)]
pub enum ReviewerClass {
    Agent,
    Human,
    Service,
    System,
    Ci,
    External,
}

#[derive(Debug, Clone, PartialEq, Eq)]
pub struct ArtifactRequirement {
    pub client_artifact_requirement_id: String,
    pub kind: ArtifactRequirementKind,
    pub min_count: u16,
    pub evidence_types: Vec<ArtifactEvidenceType>,
    pub stale_after_graph_change: bool,
    pub required_validations: Vec<String>,
}

#[derive(Debug, Clone, PartialEq, Eq)]
pub struct ReviewRequirement {
    pub client_review_requirement_id: String,
    pub artifact_requirement_ref: String,
    pub allowed_reviewer_classes: Vec<ReviewerClass>,
    pub min_review_count: u16,
}

#[derive(Debug, Clone, PartialEq, Eq)]
pub struct CoordinationSpecRef {
    pub spec_id: String,
    pub source_path: String,
    pub source_revision: Option<String>,
}

#[derive(Debug, Clone, PartialEq, Eq)]
pub struct CoordinationTaskSpecRef {
    pub spec_id: String,
    pub source_path: String,
    pub source_revision: Option<String>,
    pub sync_kind: String,
    pub covered_checklist_items: Vec<String>,
    pub covered_sections: Vec<String>,
}

#[derive(Debug, Clone, Copy, PartialEq, Eq, Structural)]
pub enum PolicyViolationCode {
    InvalidPlanTransition,
    InvalidTaskTransition,
    TerminalPlanEdit,
    TerminalTaskEdit,
    PlanClosed,
    MissingDependency,
    CrossPlanDependency,
    StaleRevision,
    ClaimConflict,
    ArtifactRequired,
    ReviewRequired,
    RiskReviewRequired,
    ValidationRequired,
    ArtifactStale,
    InvalidArtifactRequirement,
    InvalidReviewRequirement,
    ReviewerClassNotAllowed,
    IncompletePlanTasks,
    ActivePlanClaims,
    ClaimNotOwned,
    AgentIdentityRequired,
    HandoffPending,
    HandoffTargetMismatch,
    ExecutorMismatch,
    TaskLeaseHeldByOther,
    TaskResumeRequired,
    TaskReclaimRequired,
}

#[derive(Debug, Clone, Copy, PartialEq, Eq, Structural)]
pub enum BlockerKind {
    Dependency,
    ClaimConflict,
    ArtifactRequired,
    ReviewRequired,
    RiskReviewRequired,
    ValidationRequired,
    StaleRevision,
    ArtifactStale,
}

#[derive(Debug, Clone, Copy, PartialEq, Eq, Structural)]
pub enum RuntimeDiscoveryMode {
    NoDiscovery,
    LanDirect,
    PublicUrl,
    Full,
}

#[derive(Debug, Clone, Copy, PartialEq, Eq, Structural)]
pub enum RuntimeDescriptorCapability {
    CoordinationRefPublisher,
    BoundedPeerReads,
    BundleExports,
}

/// What a running prism runtime publishes about itself.
#[derive(Debug, PartialEq, Eq)]
pub struct RuntimeDescriptor {
    pub runtime_id: String,
    pub repo_id: String,
    pub worktree_id: String,
    pub principal_id: String,
    pub instance_started_at: u64,
    pub last_seen_at: u64,
    pub branch_ref: Option<String>,
    pub checked_out_commit: Option<String>,
    pub capabilities: Vec<RuntimeDescriptorCapability>,
    pub discovery_mode: RuntimeDiscoveryMode,
    pub peer_endpoint: Option<String>,
    pub public_endpoint: Option<String>,
    pub peer_transport_identity: Option<String>,
    pub blob_snapshot_head: Option<String>,
    pub export_policy: Option<String>,
}

pub struct RuntimeDescriptorView {
    pub runtime_id: Seq<char>,
    pub repo_id: Seq<char>,
    pub worktree_id: Seq<char>,
    pub principal_id: Seq<char>,
    pub instance_started_at: u64,
    pub last_seen_at: u64,
    pub branch_ref: Option<Seq<char>>,
    pub checked_out_commit: Option<Seq<char>>,
    pub capabilities: Seq<RuntimeDescriptorCapability>,
    pub discovery_mode: RuntimeDiscoveryMode,
    pub peer_endpoint: Option<Seq<char>>,
    pub public_endpoint: Option<Seq<char>>,
    pub peer_transport_identity: Option<Seq<char>>,
    pub blob_snapshot_head: Option<Seq<char>>,
    pub export_policy: Option<Seq<char>>,
}

impl View for RuntimeDescriptor {
    type V = RuntimeDescriptorView;

    open spec fn view(&self) -> RuntimeDescriptorView {
        RuntimeDescriptorView {
            runtime_id: self.runtime_id@,
            repo_id: self.repo_id@,
            worktree_id: self.worktree_id@,
            principal_id: self.principal_id@,
            instance_started_at: self.instance_started_at,
            last_seen_at: self.last_seen_at,
            branch_ref: opt_str_view(self.branch_ref),
            checked_out_commit: opt_str_view(self.checked_out_commit),
            capabilities: self.capabilities@,
            discovery_mode: self.discovery_mode,
            peer_endpoint: opt_str_view(self.peer_endpoint),
            public_endpoint: opt_str_view(self.public_endpoint),
            peer_transport_identity: opt_str_view(self.peer_transport_identity),
            blob_snapshot_head: opt_str_view(self.blob_snapshot_head),
            export_policy: opt_str_view(self.export_policy),
        }
    }
}

pub open spec fn descriptors_view(v: Seq<RuntimeDescriptor>) -> Seq<RuntimeDescriptorView> {
    v.map_values(|d: RuntimeDescriptor| d@)
}

impl Clone for RuntimeDescriptor {
    fn clone(&self) -> (r: Self)
        ensures
            r@ == self@,
    {
        let capabilities = self.capabilities.clone();
        assert(capabilities@ =~= self.capabilities@);
        RuntimeDescriptor {
            runtime_id: self.runtime_id.clone(),
            repo_id: self.repo_id.clone(),
            worktree_id: self.worktree_id.clone(),
            principal_id: self.principal_id.clone(),
            instance_started_at: self.instance_started_at,
            last_seen_at: self.last_seen_at,
            branch_ref: self.branch_ref.clone(),
            checked_out_commit: self.checked_out_commit.clone(),
            capabilities,
            discovery_mode: self.discovery_mode,
            peer_endpoint: self.peer_endpoint.clone(),
            public_endpoint: self.public_endpoint.clone(),
            peer_transport_identity: self.peer_transport_identity.clone(),
            blob_snapshot_head: self.blob_snapshot_head.clone(),
            export_policy: self.export_policy.clone(),
        }
    }
}

/// Status of an event execution.
#[derive(Debug, Clone, Copy, PartialEq, Eq, Structural)]
pub enum EventExecutionStatus {
    Claimed,
    Running,
    Succeeded,
    Failed,
    Expired,
    Abandoned,
}

/// What triggered an event execution.
#[derive(Debug, Clone, Copy, PartialEq, Eq, Structural)]
pub enum EventTriggerKind {
    TaskBecameActionable,
    ClaimExpired,
    RecurringPlanTick,
    RuntimeBecameStale,
    HookRequested,
}

#[derive(Debug, Clone, Copy, PartialEq, Eq, Structural)]
pub enum PrincipalKind {
    Agent,
    Human,
    Service,
    System,
}

/// A principal acting through an authority.
#[derive(Debug, PartialEq, Eq)]
pub struct PrincipalActor {
    pub authority_id: String,
    pub principal_id: String,
    pub kind: Option<PrincipalKind>,
    pub name: Option<String>,
}

/// The mathematical value of a principal: its text fields as character sequences.
pub struct PrincipalActorView {
    pub authority_id: Seq<char>,
    pub principal_id: Seq<char>,
    pub kind: Option<PrincipalKind>,
    pub name: Option<Seq<char>>,
}

pub open spec fn opt_str_view(o: Option<String>) -> Option<Seq<char>> {
    match o {
        Some(s) => Some(s@),
        None => None,
    }
}

impl View for PrincipalActor {
    type V = PrincipalActorView;

    open spec fn view(&self) -> PrincipalActorView {
        PrincipalActorView {
            authority_id: self.authority_id@,
            principal_id: self.principal_id@,
            kind: self.kind,
            name: opt_str_view(self.name),
        }
    }
}

impl Clone for PrincipalActor {
    fn clone(&self) -> (r: Self)
        ensures
            r == *self,
    {
        PrincipalActor {
            authority_id: self.authority_id.clone(),
            principal_id: self.principal_id.clone(),
            kind: self.kind,
            name: self.name.clone(),
        }
    }
}

/// Who holds an event execution.
#[derive(Debug, PartialEq, Eq)]
pub struct EventExecutionOwner {
    pub principal: Option<PrincipalActor>,
    pub session_id: Option<String>,
    pub worktree_id: Option<String>,
    pub service_instance_id: Option<String>,
}

pub struct EventExecutionOwnerView {
    pub principal: Option<PrincipalActorView>,
    pub session_id: Option<Seq<char>>,
    pub worktree_id: Option<Seq<char>>,
    pub service_instance_id: Option<Seq<char>>,
}

impl View for EventExecutionOwner {
    type V = EventExecutionOwnerView;

    open spec fn view(&self) -> EventExecutionOwnerView {
        EventExecutionOwnerView {
            principal: match self.principal {
                Some(p) => Some(p@),
                None => None,
            },
            session_id: opt_str_view(self.session_id),
            worktree_id: opt_str_view(self.worktree_id),
            service_instance_id: opt_str_view(self.service_instance_id),
        }
    }
}

impl Clone for EventExecutionOwner {
    fn clone(&self) -> (r: Self)
        ensures
            r == *self,
    {
        let principal = match &self.principal {
            Some(p) => Some(p.clone()),
            None => None,
        };
        EventExecutionOwner {
            principal,
            session_id: self.session_id.clone(),
            worktree_id: self.worktree_id.clone(),
            service_instance_id: self.service_instance_id.clone(),
        }
    }
}

/// Compares two optional strings by their characters.
pub fn opt_string_eq(a: &Option<String>, b: &Option<String>) -> (r: bool)
    ensures
        r == (opt_str_view(*a) == opt_str_view(*b)),
{
    match a {
        Some(x) => match b {
            Some(y) => x.eq(y),
            None => false,
        },
        None => b.is_none(),
    }
}

impl PrincipalActor {
    /// Two principals are the same when every field agrees.
    pub fn same_as(&self, other: &PrincipalActor) -> (r: bool)
        ensures
            r == (self@ == other@),
    {
        self.authority_id == other.authority_id && self.principal_id == other.principal_id
            && self.kind == other.kind && opt_string_eq(&self.name, &other.name)
    }
}

impl EventExecutionOwner {
    /// Two owners are the same when every field agrees.
    pub fn same_as(&self, other: &EventExecutionOwner) -> (r: bool)
        ensures
            r == (self@ == other@),
    {
        let principals = match (&self.principal, &other.principal) {
            (Some(a), Some(b)) => a.same_as(b),
            (None, None) => true,
            _ => false,
        };
        principals && opt_string_eq(&self.session_id, &other.session_id) && opt_string_eq(
            &self.worktree_id,
            &other.worktree_id,
        ) && opt_string_eq(&self.service_instance_id, &other.service_instance_id)
    }
}

/// A node of the coordination graph that an event targets, such as a plan.
#[derive(Debug, PartialEq, Eq)]
pub struct NodeRef {
    pub kind: String,
    pub id: String,
}

impl Clone for NodeRef {
    fn clone(&self) -> (r: Self)
        ensures
            r == *self,
    {
        NodeRef { kind: self.kind.clone(), id: self.id.clone() }
    }
}

impl NodeRef {
    /// A reference to the plan with the given id.
    pub fn plan(id: String) -> (r: NodeRef)
        ensures
            r.kind@ == "plan"@,
            r.id == id,
    {
        NodeRef { kind: String::from_str("plan"), id }
    }
}

/// One claimed run of an event hook.
#[derive(Debug, PartialEq)]
pub struct EventExecutionRecord {
    pub id: String,
    pub trigger_kind: EventTriggerKind,
    pub trigger_target: Option<NodeRef>,
    pub hook_id: Option<String>,
    pub hook_version_digest: Option<String>,
    pub authoritative_revision: Option<u64>,
    pub status: EventExecutionStatus,
    pub owner: Option<EventExecutionOwner>,
    pub claimed_at: u64,
    pub started_at: Option<u64>,
    pub finished_at: Option<u64>,
    pub expires_at: Option<u64>,
    pub summary: Option<String>,
    pub metadata: MetadataValue,
}

impl Clone for EventExecutionRecord {
    fn clone(&self) -> (r: Self)
        ensures
            r@ == self@,
    {
        let trigger_target = match &self.trigger_target {
            Some(t) => Some(t.clone()),
            None => None,
        };
        let owner = match &self.owner {
            Some(o) => Some(o.clone()),
            None => None,
        };
        EventExecutionRecord {
            id: self.id.clone(),
            trigger_kind: self.trigger_kind,
            trigger_target,
            hook_id: self.hook_id.clone(),
            hook_version_digest: self.hook_version_digest.clone(),
            authoritative_revision: self.authoritative_revision,
            status: self.status,
            owner,
            claimed_at: self.claimed_at,
            started_at: self.started_at,
            finished_at: self.finished_at,
            expires_at: self.expires_at,
            summary: self.summary.clone(),
            metadata: self.metadata.clone(),
        }
    }
}

/// One entry of the coordination event log, by identity.
#[derive(Debug, PartialEq, Eq)]
pub struct CoordinationEvent {
    pub id: String,
    pub ts: u64,
    pub summary: String,
}

pub struct CoordinationEventView {
    pub id: Seq<char>,
    pub ts: u64,
    pub summary: Seq<char>,
}

impl View for CoordinationEvent {
    type V = CoordinationEventView;

    open spec fn view(&self) -> CoordinationEventView {
        CoordinationEventView { id: self.id@, ts: self.ts, summary: self.summary@ }
    }
}

pub open spec fn events_view(v: Seq<CoordinationEvent>) -> Seq<CoordinationEventView> {
    v.map_values(|e: CoordinationEvent| e@)
}

impl Clone for CoordinationEvent {
    fn clone(&self) -> (r: Self)
        ensures
            r == *self,
    {
        CoordinationEvent { id: self.id.clone(), ts: self.ts, summary: self.summary.clone() }
    }
}

/// A coordination task, by the fields that carry session continuity.
#[derive(Debug, PartialEq, Eq)]
pub struct CoordinationTask {
    pub id: String,
    pub plan: String,
    pub title: String,
    pub assignee: Option<String>,
    pub pending_handoff_to: Option<String>,
    pub session: Option<String>,
    pub worktree_id: Option<String>,
    pub branch_ref: Option<String>,
}

pub struct CoordinationTaskView {
    pub id: Seq<char>,
    pub plan: Seq<char>,
    pub title: Seq<char>,
    pub assignee: Option<Seq<char>>,
    pub pending_handoff_to: Option<Seq<char>>,
    pub session: Option<Seq<char>>,
    pub worktree_id: Option<Seq<char>>,
    pub branch_ref: Option<Seq<char>>,
}

impl View for CoordinationTask {
    type V = CoordinationTaskView;

    open spec fn view(&self) -> CoordinationTaskView {
        CoordinationTaskView {
            id: self.id@,
            plan: self.plan@,
            title: self.title@,
            assignee: opt_str_view(self.assignee),
            pending_handoff_to: opt_str_view(self.pending_handoff_to),
            session: opt_str_view(self.session),
            worktree_id: opt_str_view(self.worktree_id),
            branch_ref: opt_str_view(self.branch_ref),
        }
    }
}

pub open spec fn tasks_view(v: Seq<CoordinationTask>) -> Seq<CoordinationTaskView> {
    v.map_values(|t: CoordinationTask| t@)
}

impl Clone for CoordinationTask {
    fn clone(&self) -> (r: Self)
        ensures
            r == *self,
    {
        CoordinationTask {
            id: self.id.clone(),
            plan: self.plan.clone(),
            title: self.title.clone(),
            assignee: self.assignee.clone(),
            pending_handoff_to: self.pending_handoff_to.clone(),
            session: self.session.clone(),
            worktree_id: self.worktree_id.clone(),
            branch_ref: self.branch_ref.clone(),
        }
    }
}

/// The coordination state: plans, tasks, claims, artifacts and reviews (by id
/// where the library does not read them), the event log and the id counters.
#[derive(Debug, PartialEq, Eq)]
pub struct CoordinationSnapshot {
    pub plans: Vec<String>,
    pub tasks: Vec<CoordinationTask>,
    pub claims: Vec<String>,
    pub artifacts: Vec<String>,
    pub reviews: Vec<String>,
    pub events: Vec<CoordinationEvent>,
    pub next_plan: u64,
    pub next_task: u64,
    pub next_claim: u64,
    pub next_artifact: u64,
    pub next_review: u64,
}

pub struct CoordinationSnapshotView {
    pub plans: Seq<Seq<char>>,
    pub tasks: Seq<CoordinationTaskView>,
    pub claims: Seq<Seq<char>>,
    pub artifacts: Seq<Seq<char>>,
    pub reviews: Seq<Seq<char>>,
    pub events: Seq<CoordinationEventView>,
    pub next_plan: u64,
    pub next_task: u64,
    pub next_claim: u64,
    pub next_artifact: u64,
    pub next_review: u64,
}

pub open spec fn ids_view(v: Seq<String>) -> Seq<Seq<char>> {
    v.map_values(|s: String| s@)
}

impl View for CoordinationSnapshot {
    type V = CoordinationSnapshotView;

    open spec fn view(&self) -> CoordinationSnapshotView {
        CoordinationSnapshotView {
            plans: ids_view(self.plans@),
            tasks: tasks_view(self.tasks@),
            claims: ids_view(self.claims@),
            artifacts: ids_view(self.artifacts@),
            reviews: ids_view(self.reviews@),
            events: events_view(self.events@),
            next_plan: self.next_plan,
            next_task: self.next_task,
            next_claim: self.next_claim,
            next_artifact: self.next_artifact,
            next_review: self.next_review,
        }
    }
}

impl Clone for CoordinationSnapshot {
    fn clone(&self) -> (r: Self)
        ensures
            r@ == self@,
    {
        let plans = self.plans.clone();
        let tasks = self.tasks.clone();
        let claims = self.claims.clone();
        let artifacts = self.artifacts.clone();
        let reviews = self.reviews.clone();
        let events = self.events.clone();
        assert(ids_view(plans@) =~= ids_view(self.plans@));
        assert(tasks_view(tasks@) =~= tasks_view(self.tasks@));
        assert(ids_view(claims@) =~= ids_view(self.claims@));
        assert(ids_view(artifacts@) =~= ids_view(self.artifacts@));
        assert(ids_view(reviews@) =~= ids_view(self.reviews@));
        assert(events_view(events@) =~= events_view(self.events@));
        CoordinationSnapshot {
            plans,
            tasks,
            claims,
            artifacts,
            reviews,
            events,
            next_plan: self.next_plan,
            next_task: self.next_task,
            next_claim: self.next_claim,
            next_artifact: self.next_artifact,
            next_review: self.next_review,
        }
    }
}

impl CoordinationSnapshot {
    /// The value of the empty snapshot.
    pub open spec fn empty_view() -> CoordinationSnapshotView {
        CoordinationSnapshotView {
            plans: Seq::empty(),
            tasks: Seq::empty(),
            claims: Seq::empty(),
            artifacts: Seq::empty(),
            reviews: Seq::empty(),
            events: Seq::empty(),
            next_plan: 0,
            next_task: 0,
            next_claim: 0,
            next_artifact: 0,
            next_review: 0,
        }
    }

    /// The empty snapshot.
    pub fn empty() -> (s: CoordinationSnapshot)
        ensures
            s@ == CoordinationSnapshot::empty_view(),
    {
        let s = CoordinationSnapshot {
            plans: Vec::new(),
            tasks: Vec::new(),
            claims: Vec::new(),
            artifacts: Vec::new(),
            reviews: Vec::new(),
            events: Vec::new(),
            next_plan: 0,
            next_task: 0,
            next_claim: 0,
            next_artifact: 0,
            next_review: 0,
        };
        assert(ids_view(s.plans@) =~= Seq::empty());
        assert(tasks_view(s.tasks@) =~= Seq::empty());
        assert(ids_view(s.claims@) =~= Seq::empty());
        assert(ids_view(s.artifacts@) =~= Seq::empty());
        assert(ids_view(s.reviews@) =~= Seq::empty());
        assert(events_view(s.events@) =~= Seq::empty());
        s
    }

    /// The canonical form of the snapshot: its event log.
    pub fn to_canonical_snapshot_v2(&self) -> (c: CoordinationSnapshotV2)
        ensures
            c@.events == self@.events,
    {
        let events = self.events.clone();
        assert(events_view(events@) =~= events_view(self.events@));
        CoordinationSnapshotV2 { events }
    }
}

/// The canonical coordination state, as its event log.
#[derive(Debug, PartialEq, Eq)]
pub struct CoordinationSnapshotV2 {
    pub events: Vec<CoordinationEvent>,
}

pub struct CoordinationSnapshotV2View {
    pub events: Seq<CoordinationEventView>,
}

impl View for CoordinationSnapshotV2 {
    type V = CoordinationSnapshotV2View;

    open spec fn view(&self) -> CoordinationSnapshotV2View {
        CoordinationSnapshotV2View { events: events_view(self.events@) }
    }
}

impl Clone for CoordinationSnapshotV2 {
    fn clone(&self) -> (r: Self)
        ensures
            r@ == self@,
    {
        let events = self.events.clone();
        assert(events_view(events@) =~= events_view(self.events@));
        CoordinationSnapshotV2 { events }
    }
}


impl Default for CoordinationSnapshot {
    /// The empty snapshot.
    fn default() -> (s: Self)
        ensures
            s@ == CoordinationSnapshot::empty_view(),
    {
        CoordinationSnapshot::empty()
    }
}

impl Default for CoordinationSnapshotV2 {
    /// The snapshot with no events.
    fn default() -> (s: Self)
        ensures
            s@.events.len() == 0,
    {
        CoordinationSnapshotV2 { events: Vec::new() }
    }
}

} // verus!
