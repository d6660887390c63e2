//! Read consistency levels and the result of a coordination read.
use vstd::prelude::*;

verus! {

#[derive(Debug, Clone, Copy, PartialEq, Eq, Structural)]
pub enum CoordinationReadConsistency {
    Eventual,
    Strong,
}

#[derive(Debug, Clone, Copy, PartialEq, Eq, Structural)]
pub enum CoordinationReadFreshness {
    VerifiedCurrent,
    VerifiedStale,
    Unavailable,
}

/// A value read from coordination state, with how fresh it is known to be.
#[derive(Debug, Clone)]
pub struct CoordinationReadResult<T> {
    pub consistency: CoordinationReadConsistency,
    pub freshness: CoordinationReadFreshness,
    pub value: Option<T>,
    pub refresh_error: Option<String>,
}

impl<T> CoordinationReadResult<T> {
    /// A value verified to be current.
    pub fn verified_current(consistency: CoordinationReadConsistency, value: T) -> (r: Self)
        ensures
            r.consistency == consistency,
            r.freshness == CoordinationReadFreshness::VerifiedCurrent,
            r.value == Some(value),
            r.refresh_error.is_none(),
    {
        Self {
            consistency,
            freshness: CoordinationReadFreshness::VerifiedCurrent,
            value: Some(value),
            refresh_error: None,
        }
    }

    /// A value known to be stale, with the error that kept it from refreshing.
    pub fn verified_stale(
        consistency: CoordinationReadConsistency,
        value: T,
        refresh_error: Option<String>,
    ) -> (r: Self)
        ensures
            r.consistency == consistency,
            r.freshness == CoordinationReadFreshness::VerifiedStale,
            r.value == Some(value),
            r.refresh_error == refresh_error,
    {
        Self {
            consistency,
            freshness: CoordinationReadFreshness::VerifiedStale,
            value: Some(value),
            refresh_error,
        }
    }

    /// No value could be read.
    pub fn unavailable(consistency: CoordinationReadConsistency, refresh_error: Option<String>) -> (r:
        Self)
        ensures
            r.consistency == consistency,
            r.freshness == CoordinationReadFreshness::Unavailable,
            r.value.is_none(),
            r.refresh_error == refresh_error,
    {
        Self {
            consistency,
            freshness: CoordinationReadFreshness::Unavailable,
            value: None,
            refresh_error,
        }
    }

    /// The value read, if any.
    pub fn into_value(self) -> (v: Option<T>)
        ensures
            v == self.value,
    {
        self.value
    }
}

} // verus!
