use vstd::prelude::*;

verus! {

/// The class of an [`Error`].
#[derive(Clone, Copy, Debug, PartialEq, Eq, Structural)]
pub enum ErrorKind {
    /// The handle is not associated with the registry it was used with.
    NotFound,
    /// The handle is already associated with a registry.
    AlreadyExists,
    /// The operation would block; retry once the handle is ready.
    WouldBlock,
    /// An argument was rejected.
    InvalidInput,
    /// Any other failure of the operating system.
    Other,
}

/// An I/O error: its kind and, where the operating system reported one, its
/// raw error code.
#[derive(Clone, Copy, Debug, PartialEq, Eq, Structural)]
pub struct Error {
    pub kind: ErrorKind,
    pub code: Option<i32>,
}

impl Error {
    pub open spec fn spec_new(kind: ErrorKind) -> Error {
        Error { kind, code: None }
    }

    /// An error of the given kind with no operating-system code.
    #[verifier::when_used_as_spec(spec_new)]
    pub fn new(kind: ErrorKind) -> (e: Error)
        ensures
            e == Error::spec_new(kind),
    {
        Error { kind, code: None }
    }

    /// An error reported by the operating system with the given code.
    pub fn from_os(kind: ErrorKind, code: i32) -> (e: Error)
        ensures
            e.kind == kind,
            e.code == Some(code),
    {
        Error { kind, code: Some(code) }
    }

    pub fn kind(&self) -> (k: ErrorKind)
        ensures
            k == self.kind,
    {
        self.kind
    }

    pub fn raw_os_error(&self) -> (c: Option<i32>)
        ensures
            c == self.code,
    {
        self.code
    }
}

} // verus!
