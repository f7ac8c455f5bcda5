//! The failures that the control plane reports to its callers.
use vstd::prelude::*;

verus! {

/// Why an operation on the control plane did not succeed.
#[derive(Debug, PartialEq, Eq)]
pub enum ServiceError {
    /// The request is malformed, or names an unknown program type.
    Validation,
    /// No running task has the requested id.
    NotFound,
    /// The execution runtime could not start the task; it gave this cause.
    Launch(String),
    /// The execution runtime could not stop a task that was already removed.
    Termination(String),
    /// The task kind or the operation is known but not supported.
    NotImplemented,
    /// Staging an artifact on the local host failed.
    Io(String),
    /// Every task id has been handed out; no further task can be registered.
    IdsExhausted,
}

/// The status text that reports an error to a client.
pub open spec fn error_text(e: ServiceError) -> Seq<char> {
    match e {
        ServiceError::Validation => "invalid request"@,
        ServiceError::NotFound => "program with specified id not found"@,
        ServiceError::Launch(cause) => "fail to start: "@ + cause@,
        ServiceError::Termination(cause) => "fail to terminate: "@ + cause@,
        ServiceError::NotImplemented => "not implemented"@,
        ServiceError::Io(cause) => "io error: "@ + cause@,
        ServiceError::IdsExhausted => "task ids exhausted"@,
    }
}

impl ServiceError {
    /// The status text that reports this error to a client.
    pub fn message(&self) -> (r: String)
        ensures
            r@ == error_text(*self),
    {
        match self {
            ServiceError::Validation => String::from_str("invalid request"),
            ServiceError::NotFound => String::from_str("program with specified id not found"),
            ServiceError::Launch(cause) => {
                let mut s = String::from_str("fail to start: ");
                s.append(cause.as_str());
                s
            },
            ServiceError::Termination(cause) => {
                let mut s = String::from_str("fail to terminate: ");
                s.append(cause.as_str());
                s
            },
            ServiceError::NotImplemented => String::from_str("not implemented"),
            ServiceError::Io(cause) => {
                let mut s = String::from_str("io error: ");
                s.append(cause.as_str());
                s
            },
            ServiceError::IdsExhausted => String::from_str("task ids exhausted"),
        }
    }
}

} // verus!
