//! Requests, results and envelopes exchanged with a coordination authority.
use vstd::prelude::*;

use crate::coordination::{
    descriptors_view, opt_str_view, opt_string_eq, CoordinationEvent, CoordinationSnapshot,
    CoordinationSnapshotV2, CoordinationSnapshotV2View, CoordinationSnapshotView, RuntimeDescriptorView,
    EventExecutionOwner, EventExecutionRecord, EventExecutionStatus, RuntimeDescriptor,
};
use crate::reads::{CoordinationReadConsistency, CoordinationReadFreshness};

verus! {

#[derive(Debug, Clone, Copy, PartialEq, Eq, Structural)]
pub enum CoordinationAuthorityBackendKind {
    GitSharedRefs,
    Sqlite,
    Postgres,
}

/// What an authority backend supports.
#[derive(Debug, Clone, Copy, PartialEq, Eq, Structural)]
pub struct CoordinationAuthorityCapabilities {
    pub supports_eventual_reads: bool,
    pub supports_transactions: bool,
    pub supports_runtime_descriptors: bool,
    pub supports_event_execution_records: bool,
    pub supports_retained_history: bool,
    pub supports_diagnostics: bool,
}

/// Where an authority state came from.
#[derive(Debug, PartialEq, Eq)]
pub struct CoordinationAuthorityProvenance {
    pub ref_name: Option<String>,
    pub head_commit: Option<String>,
    pub manifest_digest: Option<String>,
}

pub struct ProvenanceView {
    pub ref_name: Option<Seq<char>>,
    pub head_commit: Option<Seq<char>>,
    pub manifest_digest: Option<Seq<char>>,
}

impl View for CoordinationAuthorityProvenance {
    type V = ProvenanceView;

    open spec fn view(&self) -> ProvenanceView {
        ProvenanceView {
            ref_name: opt_str_view(self.ref_name),
            head_commit: opt_str_view(self.head_commit),
            manifest_digest: opt_str_view(self.manifest_digest),
        }
    }
}

impl Clone for CoordinationAuthorityProvenance {
    fn clone(&self) -> (r: Self)
        ensures
            r == *self,
    {
        CoordinationAuthorityProvenance {
            ref_name: self.ref_name.clone(),
            head_commit: self.head_commit.clone(),
            manifest_digest: self.manifest_digest.clone(),
        }
    }
}

/// Identifies one committed state of an authority.
#[derive(Debug, PartialEq, Eq)]
pub struct CoordinationAuthorityStamp {
    pub backend_kind: CoordinationAuthorityBackendKind,
    pub logical_repo_id: String,
    pub snapshot_id: String,
    pub transaction_id: Option<String>,
    pub committed_at: Option<u64>,
    pub provenance: CoordinationAuthorityProvenance,
}

pub struct StampView {
    pub backend_kind: CoordinationAuthorityBackendKind,
    pub logical_repo_id: Seq<char>,
    pub snapshot_id: Seq<char>,
    pub transaction_id: Option<Seq<char>>,
    pub committed_at: Option<u64>,
    pub provenance: ProvenanceView,
}

impl View for CoordinationAuthorityStamp {
    type V = StampView;

    open spec fn view(&self) -> StampView {
        StampView {
            backend_kind: self.backend_kind,
            logical_repo_id: self.logical_repo_id@,
            snapshot_id: self.snapshot_id@,
            transaction_id: opt_str_view(self.transaction_id),
            committed_at: self.committed_at,
            provenance: self.provenance@,
        }
    }
}

impl Clone for CoordinationAuthorityStamp {
    fn clone(&self) -> (r: Self)
        ensures
            r == *self,
    {
        CoordinationAuthorityStamp {
            backend_kind: self.backend_kind,
            logical_repo_id: self.logical_repo_id.clone(),
            snapshot_id: self.snapshot_id.clone(),
            transaction_id: self.transaction_id.clone(),
            committed_at: self.committed_at,
            provenance: self.provenance.clone(),
        }
    }
}

pub open spec fn opt_stamp_view(o: Option<CoordinationAuthorityStamp>) -> Option<StampView> {
    match o {
        Some(s) => Some(s@),
        None => None,
    }
}

impl CoordinationAuthorityStamp {
    /// Two stamps name the same authority state when every field agrees.
    pub fn same_as(&self, other: &CoordinationAuthorityStamp) -> (r: bool)
        ensures
            r == (self@ == other@),
    {
        self.backend_kind == other.backend_kind && self.logical_repo_id == other.logical_repo_id
            && self.snapshot_id == other.snapshot_id && opt_string_eq(
            &self.transaction_id,
            &other.transaction_id,
        ) && self.committed_at == other.committed_at && opt_string_eq(
            &self.provenance.ref_name,
            &other.provenance.ref_name,
        ) && opt_string_eq(&self.provenance.head_commit, &other.provenance.head_commit)
            && opt_string_eq(&self.provenance.manifest_digest, &other.provenance.manifest_digest)
    }
}

/// The current coordination state held by an authority.
#[derive(Debug, PartialEq, Eq)]
pub struct CoordinationCurrentState {
    pub snapshot: CoordinationSnapshot,
    pub canonical_snapshot_v2: CoordinationSnapshotV2,
    pub runtime_descriptors: Vec<RuntimeDescriptor>,
}

pub struct CurrentStateView {
    pub snapshot: CoordinationSnapshotView,
    pub canonical_snapshot_v2: CoordinationSnapshotV2View,
    pub runtime_descriptors: Seq<RuntimeDescriptorView>,
}

impl View for CoordinationCurrentState {
    type V = CurrentStateView;

    open spec fn view(&self) -> CurrentStateView {
        CurrentStateView {
            snapshot: self.snapshot@,
            canonical_snapshot_v2: self.canonical_snapshot_v2@,
            runtime_descriptors: descriptors_view(self.runtime_descriptors@),
        }
    }
}

impl Clone for CoordinationCurrentState {
    fn clone(&self) -> (r: Self)
        ensures
            r@ == self@,
    {
        let runtime_descriptors = self.runtime_descriptors.clone();
        assert(descriptors_view(runtime_descriptors@) =~= descriptors_view(self.runtime_descriptors@));
        CoordinationCurrentState {
            snapshot: self.snapshot.clone(),
            canonical_snapshot_v2: self.canonical_snapshot_v2.clone(),
            runtime_descriptors,
        }
    }
}

#[derive(Debug, Clone, Copy, PartialEq, Eq, Structural)]
pub enum CoordinationStateView {
    Snapshot,
    SnapshotV2,
    PlanState,
    RuntimeDescriptors,
    Summary,
}

#[derive(Debug, Clone, Copy, PartialEq, Eq, Structural)]
pub struct CoordinationReadRequest {
    pub consistency: CoordinationReadConsistency,
    pub view: CoordinationStateView,
}

/// A value read from an authority, with the authority state it was read at.
#[derive(Debug, PartialEq)]
pub struct CoordinationReadEnvelope<T> {
    pub consistency: CoordinationReadConsistency,
    pub freshness: CoordinationReadFreshness,
    pub authority: Option<CoordinationAuthorityStamp>,
    pub value: Option<T>,
    pub refresh_error: Option<String>,
}

impl<T> CoordinationReadEnvelope<T> {
    /// A value verified to be current at `authority`.
    pub fn verified_current(
        consistency: CoordinationReadConsistency,
        authority: Option<CoordinationAuthorityStamp>,
        value: T,
    ) -> (r: Self)
        ensures
            r.consistency == consistency,
            r.freshness == CoordinationReadFreshness::VerifiedCurrent,
            r.authority == authority,
            r.value == Some(value),
            r.refresh_error.is_none(),
    {
        Self {
            consistency,
            freshness: CoordinationReadFreshness::VerifiedCurrent,
            authority,
            value: Some(value),
            refresh_error: None,
        }
    }

    /// No value could be read at `authority`.
    pub fn unavailable(
        consistency: CoordinationReadConsistency,
        authority: Option<CoordinationAuthorityStamp>,
        refresh_error: Option<String>,
    ) -> (r: Self)
        ensures
            r.consistency == consistency,
            r.freshness == CoordinationReadFreshness::Unavailable,
            r.authority == authority,
            r.value.is_none(),
            r.refresh_error == refresh_error,
    {
        Self {
            consistency,
            freshness: CoordinationReadFreshness::Unavailable,
            authority,
            value: None,
            refresh_error,
        }
    }
}

#[derive(Debug, Clone, Copy, PartialEq, Eq, Structural)]
pub enum CoordinationDerivedStateMode {
    Inline,
    Deferred,
}

/// The authority state a write expects to build on.
#[derive(Debug, PartialEq, Eq)]
pub enum CoordinationTransactionBase {
    LatestStrong,
    ExpectedRevision(u64),
    ExpectedAuthorityStamp(CoordinationAuthorityStamp),
}

impl Clone for CoordinationTransactionBase {
    fn clone(&self) -> (r: Self)
        ensures
            r == *self,
    {
        match self {
            CoordinationTransactionBase::LatestStrong => CoordinationTransactionBase::LatestStrong,
            CoordinationTransactionBase::ExpectedRevision(n) =>
                CoordinationTransactionBase::ExpectedRevision(*n),
            CoordinationTransactionBase::ExpectedAuthorityStamp(s) =>
                CoordinationTransactionBase::ExpectedAuthorityStamp(s.clone()),
        }
    }
}

/// A write of a whole coordination state.
#[derive(Debug, Clone, PartialEq)]
pub struct CoordinationTransactionRequest {
    pub base: CoordinationTransactionBase,
    pub session_id: Option<String>,
    pub snapshot: CoordinationSnapshot,
    pub canonical_snapshot_v2: CoordinationSnapshotV2,
    pub appended_events: Vec<CoordinationEvent>,
    pub derived_state_mode: CoordinationDerivedStateMode,
}

/// An append of coordination events.
#[derive(Debug, Clone, PartialEq)]
pub struct CoordinationAppendRequest {
    pub base: CoordinationTransactionBase,
    pub session_id: Option<String>,
    pub appended_events: Vec<CoordinationEvent>,
}

/// A replacement of the whole current state.
#[derive(Debug, Clone, PartialEq)]
pub struct CoordinationReplaceCurrentStateRequest {
    pub base: CoordinationTransactionBase,
    pub state: CoordinationCurrentState,
}

#[derive(Debug, Clone, Copy, PartialEq, Eq, Structural)]
pub enum CoordinationTransactionStatus {
    Committed,
    Conflict,
    Rejected,
    Indeterminate,
}

#[derive(Debug, PartialEq, Eq)]
pub struct CoordinationConflictInfo {
    pub reason: String,
}

impl Clone for CoordinationConflictInfo {
    fn clone(&self) -> (r: Self)
        ensures
            r == *self,
    {
        CoordinationConflictInfo { reason: self.reason.clone() }
    }
}

#[derive(Debug, PartialEq, Eq)]
pub struct CoordinationTransactionDiagnostic {
    pub code: String,
    pub message: String,
}

impl Clone for CoordinationTransactionDiagnostic {
    fn clone(&self) -> (r: Self)
        ensures
            r == *self,
    {
        CoordinationTransactionDiagnostic { code: self.code.clone(), message: self.message.clone() }
    }
}

/// What a committed append did to the journal.
#[derive(Debug, Clone, Copy, PartialEq, Eq, Structural)]
pub struct CoordinationCommitReceipt {
    pub revision: u64,
    pub inserted_events: usize,
    pub applied: bool,
}

/// The outcome of a write to an authority.
#[derive(Debug, PartialEq, Eq)]
pub struct CoordinationTransactionResult {
    pub status: CoordinationTransactionStatus,
    pub committed: bool,
    pub authority: Option<CoordinationAuthorityStamp>,
    pub commit: Option<CoordinationCommitReceipt>,
    pub conflict: Option<CoordinationConflictInfo>,
    pub diagnostics: Vec<CoordinationTransactionDiagnostic>,
}

#[derive(Debug, Clone, PartialEq)]
pub struct RuntimeDescriptorPublishRequest {
    pub base: CoordinationTransactionBase,
    pub descriptor: RuntimeDescriptor,
}

#[derive(Debug, Clone, PartialEq)]
pub struct RuntimeDescriptorClearRequest {
    pub base: CoordinationTransactionBase,
    pub runtime_id: String,
}

#[derive(Debug, Clone, Copy, PartialEq, Eq, Structural)]
pub struct RuntimeDescriptorQuery {
    pub consistency: CoordinationReadConsistency,
}

#[derive(Debug, Clone, Copy, PartialEq, Eq, Structural)]
pub struct CoordinationHistoryRequest {
    pub limit: Option<u64>,
}

#[derive(Debug, Clone, PartialEq, Eq)]
pub struct CoordinationHistoryEntry {
    pub transaction_id: Option<String>,
    pub snapshot_id: Option<String>,
    pub committed_at: Option<u64>,
    pub summary: String,
}

#[derive(Debug, Clone, PartialEq, Eq)]
pub struct CoordinationHistoryEnvelope {
    pub backend_kind: CoordinationAuthorityBackendKind,
    pub entries: Vec<CoordinationHistoryEntry>,
    pub truncated: bool,
}

#[derive(Debug, Clone, Copy, PartialEq, Eq, Structural)]
pub struct CoordinationDiagnosticsRequest {
    pub include_backend_details: bool,
}

/// What the shared coordination ref reports about itself.
#[derive(Debug, Clone, PartialEq, Eq)]
pub struct SharedCoordinationRefDiagnostics {
    pub ref_name: String,
    pub head_commit: Option<String>,
    pub last_successful_publish_at: Option<u64>,
    pub runtime_descriptors: Vec<RuntimeDescriptor>,
}

#[derive(Debug, Clone, PartialEq, Eq)]
pub struct SqliteCoordinationAuthorityBackendDetails {
    pub db_path: String,
    pub coordination_revision: Option<u64>,
}

#[derive(Debug, Clone, PartialEq, Eq)]
pub struct PostgresCoordinationAuthorityBackendDetails {
    pub connection_url: String,
}

#[derive(Debug, Clone, PartialEq, Eq)]
pub enum CoordinationAuthorityBackendDetails {
    GitSharedRefs(SharedCoordinationRefDiagnostics),
    Sqlite(SqliteCoordinationAuthorityBackendDetails),
    Postgres(PostgresCoordinationAuthorityBackendDetails),
    Unavailable,
}

#[derive(Debug, Clone, PartialEq, Eq)]
pub struct CoordinationAuthorityDiagnostics {
    pub backend_kind: CoordinationAuthorityBackendKind,
    pub latest_authority: Option<CoordinationAuthorityStamp>,
    pub runtime_descriptor_count: usize,
    pub backend_details: CoordinationAuthorityBackendDetails,
}

/// Whether an authority holds a current state, and how many runtimes it lists.
#[derive(Debug, Clone, Copy, PartialEq, Eq, Structural)]
pub struct CoordinationAuthoritySummary {
    pub has_current_state: bool,
    pub runtime_descriptor_count: usize,
}

/// Which owner a transition expects the record to have.
#[derive(Debug, PartialEq, Eq)]
pub enum EventExecutionOwnerExpectation {
    Any,
    Missing,
    Exact(EventExecutionOwner),
}

/// What must hold of the stored record for a transition to apply.
#[derive(Debug, PartialEq, Eq)]
pub struct EventExecutionTransitionPreconditions {
    pub require_missing: bool,
    pub expected_status: Option<EventExecutionStatus>,
    pub expected_owner: EventExecutionOwnerExpectation,
}

impl EventExecutionTransitionPreconditions {
    /// No precondition at all.
    pub fn none() -> (p: Self)
        ensures
            !p.require_missing,
            p.expected_status.is_none(),
            p.expected_owner == EventExecutionOwnerExpectation::Any,
    {
        EventExecutionTransitionPreconditions {
            require_missing: false,
            expected_status: None,
            expected_owner: EventExecutionOwnerExpectation::Any,
        }
    }
}

/// A step in the life of an event execution.
#[derive(Debug, PartialEq)]
pub enum EventExecutionTransitionKind {
    Claim { record: EventExecutionRecord },
    Start { started_at: u64, summary: Option<String> },
    Succeed { finished_at: u64, summary: Option<String> },
    Fail { finished_at: u64, summary: Option<String> },
    Expire { finished_at: u64, summary: Option<String> },
    Abandon { finished_at: u64, summary: Option<String> },
}

#[derive(Debug, PartialEq)]
pub struct EventExecutionTransitionRequest {
    pub event_execution_id: String,
    pub preconditions: EventExecutionTransitionPreconditions,
    pub transition: EventExecutionTransitionKind,
}

#[derive(Debug, Clone, Copy, PartialEq, Eq, Structural)]
pub enum EventExecutionTransitionStatus {
    Applied,
    Conflict,
}

#[derive(Debug, PartialEq)]
pub struct EventExecutionTransitionResult {
    pub status: EventExecutionTransitionStatus,
    pub authority: Option<CoordinationAuthorityStamp>,
    pub record: Option<EventExecutionRecord>,
    pub conflict: Option<CoordinationConflictInfo>,
    pub diagnostics: Vec<CoordinationTransactionDiagnostic>,
}

#[derive(Debug, Clone, PartialEq, Eq)]
pub struct EventExecutionRecordAuthorityQuery {
    pub consistency: CoordinationReadConsistency,
    pub event_execution_id: Option<String>,
    pub limit: Option<usize>,
}

#[derive(Debug, PartialEq)]
pub struct EventExecutionRecordWriteResult {
    pub authority: Option<CoordinationAuthorityStamp>,
    pub record: EventExecutionRecord,
}

} // verus!
