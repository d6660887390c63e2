//! Admission errors returned when a runtime critical section is busy.
use vstd::prelude::*;

verus! {

/// A request was refused because a runtime lock is currently held.
#[derive(Debug, Clone, PartialEq, Eq)]
pub struct AdmissionBusyError {
    code: &'static str,
    resource: &'static str,
    operation: &'static str,
    next_action: &'static str,
}

impl AdmissionBusyError {
    pub closed spec fn spec_code(&self) -> Seq<char> {
        self.code@
    }

    pub closed spec fn spec_resource(&self) -> Seq<char> {
        self.resource@
    }

    pub closed spec fn spec_operation(&self) -> Seq<char> {
        self.operation@
    }

    pub closed spec fn spec_next_action(&self) -> Seq<char> {
        self.next_action@
    }

    /// The workspace refresh critical section is busy.
    pub fn refresh_lock(operation: &'static str) -> (e: Self)
        ensures
            e.spec_code() == "runtime_admission_busy"@,
            e.spec_resource() == "refresh_lock"@,
            e.spec_operation() == operation@,
            e.spec_next_action()
                == "Retry the request shortly; the workspace refresh critical section is currently busy."@,
    {
        Self {
            code: "runtime_admission_busy",
            resource: "refresh_lock",
            operation,
            next_action: "Retry the request shortly; the workspace refresh critical section is currently busy.",
        }
    }

    /// The workspace runtime sync path is busy.
    pub fn runtime_sync(operation: &'static str) -> (e: Self)
        ensures
            e.spec_code() == "runtime_admission_busy"@,
            e.spec_resource() == "workspace_runtime_sync_lock"@,
            e.spec_operation() == operation@,
            e.spec_next_action()
                == "Retry the request shortly; the workspace runtime sync path is currently busy."@,
    {
        Self {
            code: "runtime_admission_busy",
            resource: "workspace_runtime_sync_lock",
            operation,
            next_action: "Retry the request shortly; the workspace runtime sync path is currently busy.",
        }
    }

    pub fn code(&self) -> (r: &'static str)
        ensures
            r@ == self.spec_code(),
    {
        self.code
    }

    pub fn resource(&self) -> (r: &'static str)
        ensures
            r@ == self.spec_resource(),
    {
        self.resource
    }

    pub fn operation(&self) -> (r: &'static str)
        ensures
            r@ == self.spec_operation(),
    {
        self.operation
    }

    pub fn next_action(&self) -> (r: &'static str)
        ensures
            r@ == self.spec_next_action(),
    {
        self.next_action
    }

    /// The error's text: which operation was refused and which lock is held.
    pub fn to_message(&self) -> (m: String)
        ensures
            m@ == "request admission busy for `"@ + self.spec_operation() + "`: `"@
                + self.spec_resource() + "` is currently held"@,
    {
        let mut m = String::from_str("request admission busy for `");
        m.append(self.operation);
        m.append("`: `");
        m.append(self.resource);
        m.append("` is currently held");
        m
    }
}

} // verus!
