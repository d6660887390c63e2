//! Decisions of the authority API: what the shared-ref diagnostics are, when
//! a runtime descriptor publication succeeded, and whether the authority
//! syncs live.
use vstd::prelude::*;

use crate::authority_types::{
    CoordinationAuthorityBackendDetails, CoordinationAuthorityBackendKind,
    CoordinationAuthorityDiagnostics, CoordinationAuthorityStamp, CoordinationCurrentState,
    CoordinationTransactionBase, CoordinationTransactionResult, CoordinationTransactionStatus,
    RuntimeDescriptorPublishRequest, SharedCoordinationRefDiagnostics,
};
use crate::coordination::RuntimeDescriptor;
use crate::checkpoint::CoordinationStartupCheckpointAuthority;
use crate::factory::{
    open_outcome, CoordinationAuthorityBackendConfig, CoordinationAuthorityOpenError,
    CoordinationAuthorityStoreProvider,
};
use crate::git_shared_refs::git_shared_diagnostics;

verus! {

/// The shared-ref report of the diagnostics, when the authority is the
/// shared-ref backend.
pub fn git_shared_coordination_ref_diagnostics_of(
    diagnostics: CoordinationAuthorityDiagnostics,
) -> (r: Option<SharedCoordinationRefDiagnostics>)
    ensures
        match diagnostics.backend_details {
            CoordinationAuthorityBackendDetails::GitSharedRefs(d) => r == Some(d),
            _ => r is None,
        },
{
    match diagnostics.backend_details {
        CoordinationAuthorityBackendDetails::GitSharedRefs(value) => Some(value),
        CoordinationAuthorityBackendDetails::Sqlite(_)
        | CoordinationAuthorityBackendDetails::Postgres(_)
        | CoordinationAuthorityBackendDetails::Unavailable => None,
    }
}

/// The name under which a transaction status is printed.
pub open spec fn transaction_status_name(s: CoordinationTransactionStatus) -> Seq<char> {
    match s {
        CoordinationTransactionStatus::Committed => "Committed"@,
        CoordinationTransactionStatus::Conflict => "Conflict"@,
        CoordinationTransactionStatus::Rejected => "Rejected"@,
        CoordinationTransactionStatus::Indeterminate => "Indeterminate"@,
    }
}

/// A runtime descriptor publication succeeds when it committed; otherwise
/// the error names the status it ended in.
pub fn runtime_descriptor_publication_outcome(result: &CoordinationTransactionResult) -> (r: Result<
    (),
    String,
>)
    ensures
        r is Ok <==> result.committed,
        r matches Err(m) ==> m@ == "runtime descriptor publication did not commit successfully: "@
            + transaction_status_name(result.status),
{
    if result.committed {
        return Ok(());
    }
    let mut m = String::from_str("runtime descriptor publication did not commit successfully: ");
    m.append(
        match result.status {
            CoordinationTransactionStatus::Committed => "Committed",
            CoordinationTransactionStatus::Conflict => "Conflict",
            CoordinationTransactionStatus::Rejected => "Rejected",
            CoordinationTransactionStatus::Indeterminate => "Indeterminate",
        },
    );
    Err(m)
}

/// Only the shared-ref authority syncs live.
pub fn coordination_authority_live_sync_enabled_for(kind: CoordinationAuthorityBackendKind) -> (r:
    bool)
    ensures
        r == (kind == CoordinationAuthorityBackendKind::GitSharedRefs),
{
    match kind {
        CoordinationAuthorityBackendKind::GitSharedRefs => true,
        CoordinationAuthorityBackendKind::Sqlite | CoordinationAuthorityBackendKind::Postgres =>
            false,
    }
}

/// What a live-sync poll found.
#[derive(Debug, Clone, PartialEq)]
pub enum CoordinationAuthorityLiveSync {
    Unchanged,
    Changed(CoordinationCurrentState),
}

/// The outcome of a live-sync poll: the shared ref's change when the
/// authority is the shared-ref backend, else nothing changed.
pub fn live_sync_outcome(
    kind: CoordinationAuthorityBackendKind,
    shared_ref_change: Option<CoordinationCurrentState>,
) -> (r: CoordinationAuthorityLiveSync)
    ensures
        kind == CoordinationAuthorityBackendKind::GitSharedRefs && shared_ref_change is Some ==> r
            == CoordinationAuthorityLiveSync::Changed(shared_ref_change->0),
        !(kind == CoordinationAuthorityBackendKind::GitSharedRefs && shared_ref_change is Some)
            ==> r == CoordinationAuthorityLiveSync::Unchanged,
{
    match kind {
        CoordinationAuthorityBackendKind::GitSharedRefs => match shared_ref_change {
            Some(state) => CoordinationAuthorityLiveSync::Changed(state),
            None => CoordinationAuthorityLiveSync::Unchanged,
        },
        _ => CoordinationAuthorityLiveSync::Unchanged,
    }
}

/// The coordination revision after a live-sync update: one past the higher
/// of the runtime's and the persisted revision, saturating.
pub fn next_live_sync_revision(runtime_revision: u64, persisted_revision: u64) -> (r: u64)
    ensures
        ({
            let m = if runtime_revision >= persisted_revision {
                runtime_revision
            } else {
                persisted_revision
            };
            r == if m == u64::MAX {
                u64::MAX
            } else {
                (m + 1) as u64
            }
        }),
{
    let m = if runtime_revision >= persisted_revision {
        runtime_revision
    } else {
        persisted_revision
    };
    m.saturating_add(1)
}


/// The diagnostics of the authority that `provider` opens at `root`, given
/// what the workspace's shared ref reports (`shared_ref`, none when it was
/// never published) and the latest authority stamp; the open error when the
/// backend cannot be opened.
pub fn coordination_authority_diagnostics_with_provider(
    root: &str,
    provider: &CoordinationAuthorityStoreProvider,
    shared_ref: Option<SharedCoordinationRefDiagnostics>,
    latest_authority: Option<CoordinationAuthorityStamp>,
) -> (r: Result<CoordinationAuthorityDiagnostics, CoordinationAuthorityOpenError>)
    ensures
        r is Ok <==> provider.spec_config() == CoordinationAuthorityBackendConfig::GitSharedRefs,
        r matches Err(e) ==> open_outcome(root@, provider.spec_config(), Err(e)),
        r matches Ok(d) ==> {
            &&& d.backend_kind == CoordinationAuthorityBackendKind::GitSharedRefs
            &&& d.latest_authority == latest_authority
            &&& match shared_ref {
                Some(s) => d.backend_details == CoordinationAuthorityBackendDetails::GitSharedRefs(s)
                    && d.runtime_descriptor_count == s.runtime_descriptors@.len(),
                None => d.backend_details == CoordinationAuthorityBackendDetails::Unavailable
                    && d.runtime_descriptor_count == 0,
            }
        },
{
    match provider.open(root) {
        Ok(_store) => Ok(git_shared_diagnostics(shared_ref, latest_authority)),
        Err(e) => Err(e),
    }
}

/// The shared-ref report of the authority that `provider` opens at `root`:
/// what the shared ref reports, when the backend is the shared-ref one.
pub fn git_shared_coordination_ref_diagnostics_with_provider(
    root: &str,
    provider: &CoordinationAuthorityStoreProvider,
    shared_ref: Option<SharedCoordinationRefDiagnostics>,
) -> (r: Result<Option<SharedCoordinationRefDiagnostics>, CoordinationAuthorityOpenError>)
    ensures
        r is Ok <==> provider.spec_config() == CoordinationAuthorityBackendConfig::GitSharedRefs,
        r matches Err(e) ==> open_outcome(root@, provider.spec_config(), Err(e)),
        r matches Ok(v) ==> v == shared_ref,
{
    match coordination_authority_diagnostics_with_provider(root, provider, shared_ref, None) {
        Ok(d) => Ok(git_shared_coordination_ref_diagnostics_of(d)),
        Err(e) => Err(e),
    }
}

/// The ref name a checkpoint records for an authority whose provenance
/// names no ref: the backend's own name.
pub open spec fn default_checkpoint_ref_name(kind: CoordinationAuthorityBackendKind) -> Seq<char> {
    match kind {
        CoordinationAuthorityBackendKind::GitSharedRefs => "shared-coordination"@,
        CoordinationAuthorityBackendKind::Sqlite => "sqlite-authority"@,
        CoordinationAuthorityBackendKind::Postgres => "postgres-authority"@,
    }
}

/// The checkpoint authority that a read's authority stamp gives: the
/// stamp's provenance, with the backend's name where it names no ref.
pub fn checkpoint_authority_from_stamp(authority: Option<CoordinationAuthorityStamp>) -> (r: Option<
    CoordinationStartupCheckpointAuthority,
>)
    ensures
        r is Some <==> authority is Some,
        r matches Some(c) ==> {
            let a = authority->0;
            &&& c.ref_name@ == match a.provenance.ref_name {
                Some(n) => n@,
                None => default_checkpoint_ref_name(a.backend_kind),
            }
            &&& c.head_commit == a.provenance.head_commit
            &&& c.manifest_digest == a.provenance.manifest_digest
        },
{
    match authority {
        None => None,
        Some(a) => {
            let ref_name = match a.provenance.ref_name {
                Some(n) => n,
                None => match a.backend_kind {
                    CoordinationAuthorityBackendKind::GitSharedRefs => String::from_str(
                        "shared-coordination",
                    ),
                    CoordinationAuthorityBackendKind::Sqlite => String::from_str(
                        "sqlite-authority",
                    ),
                    CoordinationAuthorityBackendKind::Postgres => String::from_str(
                        "postgres-authority",
                    ),
                },
            };
            Some(
                CoordinationStartupCheckpointAuthority {
                    ref_name,
                    head_commit: a.provenance.head_commit,
                    manifest_digest: a.provenance.manifest_digest,
                },
            )
        },
    }
}

/// The checkpoint authority of the workspace at `root` under `provider`:
/// the open error when the backend cannot be opened, else what the
/// authority stamp of the store's strong summary read (`current_authority`)
/// gives.
pub fn coordination_startup_checkpoint_authority_with_provider(
    root: &str,
    provider: &CoordinationAuthorityStoreProvider,
    current_authority: Option<CoordinationAuthorityStamp>,
) -> (r: Result<Option<CoordinationStartupCheckpointAuthority>, CoordinationAuthorityOpenError>)
    ensures
        r is Ok <==> provider.spec_config() == CoordinationAuthorityBackendConfig::GitSharedRefs,
        r matches Err(e) ==> open_outcome(root@, provider.spec_config(), Err(e)),
        r matches Ok(c) ==> {
            &&& (c is Some <==> current_authority is Some)
            &&& c matches Some(c) ==> {
                let a = current_authority->0;
                &&& c.ref_name@ == match a.provenance.ref_name {
                    Some(n) => n@,
                    None => default_checkpoint_ref_name(a.backend_kind),
                }
                &&& c.head_commit == a.provenance.head_commit
                &&& c.manifest_digest == a.provenance.manifest_digest
            }
        },
{
    match provider.open(root) {
        Ok(_store) => Ok(checkpoint_authority_from_stamp(current_authority)),
        Err(e) => Err(e),
    }
}

/// The authority a startup checkpoint records: the one the authority
/// reports, or the local worktree when it reports none.
pub fn resolve_coordination_startup_checkpoint_authority(
    found: Option<CoordinationStartupCheckpointAuthority>,
) -> (r: CoordinationStartupCheckpointAuthority)
    ensures
        found is Some ==> r == found->0,
        found is None ==> r.ref_name@ == "local-worktree"@ && r.head_commit is None
            && r.manifest_digest is None,
{
    match found {
        Some(authority) => authority,
        None => CoordinationStartupCheckpointAuthority {
            ref_name: String::from_str("local-worktree"),
            head_commit: None,
            manifest_digest: None,
        },
    }
}

/// The request that publishes the local runtime's descriptor on the
/// authority that `provider` opens at `root`: on the latest strong state,
/// the descriptor built for the runtime's current state; the open error when
/// the backend cannot be opened.
pub fn local_runtime_descriptor_publish_request(
    root: &str,
    provider: &CoordinationAuthorityStoreProvider,
    descriptor: RuntimeDescriptor,
) -> (r: Result<RuntimeDescriptorPublishRequest, CoordinationAuthorityOpenError>)
    ensures
        r is Ok <==> provider.spec_config() == CoordinationAuthorityBackendConfig::GitSharedRefs,
        r matches Err(e) ==> open_outcome(root@, provider.spec_config(), Err(e)),
        r matches Ok(request) ==> request.base == CoordinationTransactionBase::LatestStrong
            && request.descriptor == descriptor,
{
    match provider.open(root) {
        Ok(_store) => Ok(
            RuntimeDescriptorPublishRequest { base: CoordinationTransactionBase::LatestStrong, descriptor },
        ),
        Err(e) => Err(e),
    }
}

/// What publishing the local runtime's descriptor answers, given the
/// store's reply to the publish request: the store's error as it is, else
/// success exactly when the publication committed.
pub fn local_runtime_descriptor_publication_result(
    reply: Result<CoordinationTransactionResult, String>,
) -> (r: Result<(), String>)
    ensures
        reply matches Err(e) ==> r == Err::<(), String>(e),
        reply matches Ok(result) ==> {
            &&& (r is Ok <==> result.committed)
            &&& r matches Err(m) ==> m@ == "runtime descriptor publication did not commit successfully: "@
                + transaction_status_name(result.status)
        },
{
    match reply {
        Ok(result) => runtime_descriptor_publication_outcome(&result),
        Err(e) => Err(e),
    }
}

} // verus!
