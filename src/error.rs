use vstd::prelude::*;

verus! {

/// The kinds of failure that a request can end in.
#[derive(Clone, Copy, Debug, PartialEq, Eq, Structural)]
pub enum ErrorKind {
    /// A missing or unknown credential.
    Unauthorized,
    /// An authenticated requester without the needed capability.
    PermissionDenied,
    /// No registered instance has the given uuid.
    InstanceNotFound,
    /// The request breaks an input constraint.
    MalformedRequest,
    /// The action is not valid in the instance's current lifecycle state.
    InvalidInstanceState,
    /// A file or directory could not be removed.
    FailedToRemoveFileOrDir,
}

/// A failure with its kind and a human-readable detail.
#[derive(Debug)]
pub struct Error {
    pub kind: ErrorKind,
    pub detail: String,
}

impl Error {
    pub fn new(kind: ErrorKind, detail: &str) -> (r: Error)
        ensures
            r.kind == kind,
            r.detail@ == detail@,
    {
        Error { kind, detail: String::from_str(detail) }
    }
}

} // verus!
