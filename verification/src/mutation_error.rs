//! Errors raised when a coordination authority refuses a mutation.
use vstd::prelude::*;

use crate::authority_types::CoordinationAuthorityStamp;

verus! {

#[derive(Debug, Clone, Copy, PartialEq, Eq, Structural)]
pub enum CoordinationAuthorityMutationStatus {
    Conflict,
    Rejected,
    Indeterminate,
}

/// A mutation the authority did not commit, with its reason.
#[derive(Debug, Clone)]
pub struct CoordinationAuthorityMutationError {
    pub status: CoordinationAuthorityMutationStatus,
    pub reason_code: String,
    pub message: String,
    pub authority: Option<CoordinationAuthorityStamp>,
}

/// The name under which a status is printed.
pub open spec fn mutation_status_name(s: CoordinationAuthorityMutationStatus) -> Seq<char> {
    match s {
        CoordinationAuthorityMutationStatus::Conflict => "Conflict"@,
        CoordinationAuthorityMutationStatus::Rejected => "Rejected"@,
        CoordinationAuthorityMutationStatus::Indeterminate => "Indeterminate"@,
    }
}

impl CoordinationAuthorityMutationError {
    /// The mutation conflicted with a newer authority state.
    pub fn conflict(
        reason_code: String,
        message: String,
        authority: Option<CoordinationAuthorityStamp>,
    ) -> (e: Self)
        ensures
            e.status == CoordinationAuthorityMutationStatus::Conflict,
            e.reason_code == reason_code,
            e.message == message,
            e.authority == authority,
    {
        Self { status: CoordinationAuthorityMutationStatus::Conflict, reason_code, message, authority }
    }

    /// The authority rejected the mutation.
    pub fn rejected(
        reason_code: String,
        message: String,
        authority: Option<CoordinationAuthorityStamp>,
    ) -> (e: Self)
        ensures
            e.status == CoordinationAuthorityMutationStatus::Rejected,
            e.reason_code == reason_code,
            e.message == message,
            e.authority == authority,
    {
        Self { status: CoordinationAuthorityMutationStatus::Rejected, reason_code, message, authority }
    }

    /// Whether the mutation committed is unknown.
    pub fn indeterminate(
        reason_code: String,
        message: String,
        authority: Option<CoordinationAuthorityStamp>,
    ) -> (e: Self)
        ensures
            e.status == CoordinationAuthorityMutationStatus::Indeterminate,
            e.reason_code == reason_code,
            e.message == message,
            e.authority == authority,
    {
        Self {
            status: CoordinationAuthorityMutationStatus::Indeterminate,
            reason_code,
            message,
            authority,
        }
    }

    /// The printed form: `message [reason_code::Status]`.
    pub fn to_message(&self) -> (s: String)
        ensures
            s@ == self.message@ + " ["@ + self.reason_code@ + "::"@ + mutation_status_name(
                self.status,
            ) + "]"@,
    {
        let mut s = self.message.clone();
        s.append(" [");
        s.append(self.reason_code.as_str());
        s.append("::");
        s.append(
            match self.status {
                CoordinationAuthorityMutationStatus::Conflict => "Conflict",
                CoordinationAuthorityMutationStatus::Rejected => "Rejected",
                CoordinationAuthorityMutationStatus::Indeterminate => "Indeterminate",
            },
        );
        s.append("]");
        s
    }
}

} // verus!
