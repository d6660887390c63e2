//! The coordination authority kept in git shared refs: its stamp, its
//! diagnostics and its answers, from what the shared ref reports.
use vstd::prelude::*;

use crate::authority_types::{
    opt_stamp_view, CoordinationAuthorityBackendDetails, CoordinationAuthorityBackendKind,
    CoordinationAuthorityCapabilities, CoordinationAuthorityDiagnostics,
    CoordinationAuthorityProvenance, CoordinationAuthorityStamp, CoordinationCurrentState,
    CoordinationReadEnvelope, CoordinationTransactionBase, CoordinationTransactionResult,
    CoordinationTransactionStatus, RuntimeDescriptorQuery, SharedCoordinationRefDiagnostics,
};
use crate::checkpoint::CoordinationStartupCheckpointAuthority;
use crate::coordination::RuntimeDescriptor;
use crate::reads::{CoordinationReadConsistency, CoordinationReadFreshness};
use crate::sqlite_authority::conflict_transaction_result;

verus! {

/// The authority of the workspace at `root`, kept in its git shared refs.
#[derive(Debug, Clone)]
pub struct GitSharedRefsCoordinationAuthorityStore {
    root: String,
}

impl GitSharedRefsCoordinationAuthorityStore {
    pub closed spec fn spec_root(&self) -> Seq<char> {
        self.root@
    }

    pub fn new(root: &str) -> (s: Self)
        ensures
            s.spec_root() == root@,
    {
        GitSharedRefsCoordinationAuthorityStore { root: String::from_str(root) }
    }

    pub fn root(&self) -> (r: &str)
        ensures
            r@ == self.spec_root(),
    {
        self.root.as_str()
    }

    /// Everything but event-execution records.
    pub fn capabilities(&self) -> (c: CoordinationAuthorityCapabilities)
        ensures
            c == (CoordinationAuthorityCapabilities {
                supports_eventual_reads: true,
                supports_transactions: true,
                supports_runtime_descriptors: true,
                supports_event_execution_records: false,
                supports_retained_history: true,
                supports_diagnostics: true,
            }),
    {
        CoordinationAuthorityCapabilities {
            supports_eventual_reads: true,
            supports_transactions: true,
            supports_runtime_descriptors: true,
            supports_event_execution_records: false,
            supports_retained_history: true,
            supports_diagnostics: true,
        }
    }
}

/// The stamp of the shared-ref authority: none until the ref was published;
/// its snapshot is the manifest digest, else the head commit, else the ref.
pub fn git_shared_authority_stamp(
    logical_repo_id: String,
    diagnostics: &Option<SharedCoordinationRefDiagnostics>,
    authority: CoordinationStartupCheckpointAuthority,
) -> (r: Option<CoordinationAuthorityStamp>)
    ensures
        r.is_some() == diagnostics.is_some(),
        r matches Some(s) ==> {
            &&& s.backend_kind == CoordinationAuthorityBackendKind::GitSharedRefs
            &&& s.logical_repo_id == logical_repo_id
            &&& s.snapshot_id@ == match authority.manifest_digest {
                Some(d) => d@,
                None => match authority.head_commit {
                    Some(h) => h@,
                    None => authority.ref_name@,
                },
            }
            &&& s.transaction_id == authority.head_commit
            &&& s.committed_at == diagnostics->0.last_successful_publish_at
            &&& s.provenance.ref_name == Some(authority.ref_name)
            &&& s.provenance.head_commit == authority.head_commit
            &&& s.provenance.manifest_digest == authority.manifest_digest
        },
{
    let d = match diagnostics {
        Some(d) => d,
        None => return None,
    };
    let snapshot_id = match &authority.manifest_digest {
        Some(m) => m.clone(),
        None => match &authority.head_commit {
            Some(h) => h.clone(),
            None => authority.ref_name.clone(),
        },
    };
    Some(
        CoordinationAuthorityStamp {
            backend_kind: CoordinationAuthorityBackendKind::GitSharedRefs,
            logical_repo_id,
            snapshot_id,
            transaction_id: authority.head_commit.clone(),
            committed_at: d.last_successful_publish_at,
            provenance: CoordinationAuthorityProvenance {
                ref_name: Some(authority.ref_name),
                head_commit: authority.head_commit,
                manifest_digest: authority.manifest_digest,
            },
        },
    )
}

/// Why a write on the shared-ref authority conflicts: only a stamp base that
/// no longer names the current head does.
pub open spec fn shared_ref_base_conflict(
    base: CoordinationTransactionBase,
    current: Option<CoordinationAuthorityStamp>,
) -> bool {
    base matches CoordinationTransactionBase::ExpectedAuthorityStamp(expected) && opt_stamp_view(
        current,
    ) != Some(expected@)
}

/// Checks a write's base against the shared-ref head.
pub fn git_shared_base_conflict(
    base: &CoordinationTransactionBase,
    current_authority: &Option<CoordinationAuthorityStamp>,
) -> (r: Option<CoordinationTransactionResult>)
    ensures
        r.is_some() == shared_ref_base_conflict(*base, *current_authority),
        r matches Some(res) ==> {
            &&& res.status == CoordinationTransactionStatus::Conflict
            &&& !res.committed
            &&& res.authority == *current_authority
            &&& res.conflict is Some
            &&& res.conflict->0.reason@
                == "authority stamp no longer matches the current shared-ref head"@
        },
{
    if let CoordinationTransactionBase::ExpectedAuthorityStamp(expected) = base {
        let same = match current_authority {
            Some(a) => a.same_as(expected),
            None => false,
        };
        if !same {
            return Some(
                conflict_transaction_result(
                    current_authority.clone(),
                    String::from_str("authority stamp no longer matches the current shared-ref head"),
                ),
            );
        }
    }
    None
}

/// Lists the runtime descriptors of the shared ref; an empty list read
/// strongly is reported unavailable.
pub fn git_shared_list_runtime_descriptors(
    request: RuntimeDescriptorQuery,
    authority: Option<CoordinationAuthorityStamp>,
    state: Option<CoordinationCurrentState>,
) -> (r: CoordinationReadEnvelope<Vec<RuntimeDescriptor>>)
    ensures
        ({
            let value = match state {
                Some(s) => s.runtime_descriptors@,
                None => Seq::<RuntimeDescriptor>::empty(),
            };
            &&& r.consistency == request.consistency
            &&& r.authority == authority
            &&& r.refresh_error is None
            &&& if value.len() == 0 && request.consistency == CoordinationReadConsistency::Strong {
                r.freshness == CoordinationReadFreshness::Unavailable && r.value is None
            } else {
                r.freshness == CoordinationReadFreshness::VerifiedCurrent && r.value is Some
                    && r.value->0@ == value
            }
        }),
{
    let value = match state {
        Some(s) => s.runtime_descriptors,
        None => Vec::new(),
    };
    if value.len() == 0 && request.consistency == CoordinationReadConsistency::Strong {
        return CoordinationReadEnvelope::unavailable(request.consistency, authority, None);
    }
    CoordinationReadEnvelope::verified_current(request.consistency, authority, value)
}

/// The shared-ref authority's diagnostics: the ref's report, when there is
/// one, and the number of runtime descriptors it lists.
pub fn git_shared_diagnostics(
    details: Option<SharedCoordinationRefDiagnostics>,
    latest_authority: Option<CoordinationAuthorityStamp>,
) -> (r: CoordinationAuthorityDiagnostics)
    ensures
        r.backend_kind == CoordinationAuthorityBackendKind::GitSharedRefs,
        r.latest_authority == latest_authority,
        match details {
            Some(d) => r.backend_details == CoordinationAuthorityBackendDetails::GitSharedRefs(d)
                && r.runtime_descriptor_count == d.runtime_descriptors@.len(),
            None => r.backend_details == CoordinationAuthorityBackendDetails::Unavailable
                && r.runtime_descriptor_count == 0,
        },
{
    match details {
        Some(d) => {
            let count = d.runtime_descriptors.len();
            CoordinationAuthorityDiagnostics {
                backend_kind: CoordinationAuthorityBackendKind::GitSharedRefs,
                latest_authority,
                runtime_descriptor_count: count,
                backend_details: CoordinationAuthorityBackendDetails::GitSharedRefs(d),
            }
        },
        None => CoordinationAuthorityDiagnostics {
            backend_kind: CoordinationAuthorityBackendKind::GitSharedRefs,
            latest_authority,
            runtime_descriptor_count: 0,
            backend_details: CoordinationAuthorityBackendDetails::Unavailable,
        },
    }
}

/// Retained history is not available from the shared-ref authority.
pub fn git_shared_read_history() -> (r: Result<crate::authority_types::CoordinationHistoryEnvelope, String>)
    ensures
        r matches Err(m) && m@ == "retained history is not wired through CoordinationAuthorityStore yet"@,
{
    Err(String::from_str("retained history is not wired through CoordinationAuthorityStore yet"))
}

} // verus!
