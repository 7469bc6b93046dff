//! The error a backend reports to the shim.

use vstd::prelude::*;

verus! {

/// What went wrong, as far as the shim and the coordinator tell errors apart.
#[derive(Debug, Clone, Copy, PartialEq, Eq, Structural)]
pub enum ErrorKind {
    /// The file does not exist.
    NotFound,
    /// The file may not be accessed in the requested way.
    PermissionDenied,
    /// The end of the input was reached before a value was complete.
    UnexpectedEof,
    /// A write stored nothing: the storage is full.
    WriteZero,
    /// The peer closed the connection.
    Interrupted,
    /// Any other error.
    Other,
}

/// An error together with a message for the user.
#[derive(Debug, Clone, PartialEq, Eq)]
pub struct Error {
    pub kind: ErrorKind,
    pub message: String,
}

impl Error {
    /// An error of the given kind.
    pub fn new(kind: ErrorKind, message: &str) -> (r: Error)
        ensures
            r.kind == kind,
            r.message@ == message@,
    {
        Error { kind, message: message.to_owned() }
    }

    /// An error of kind [`ErrorKind::Other`].
    pub fn other(message: &str) -> (r: Error)
        ensures
            r.kind == ErrorKind::Other,
            r.message@ == message@,
    {
        Error::new(ErrorKind::Other, message)
    }

    /// The kind of the error.
    pub fn kind(&self) -> (r: ErrorKind)
        ensures
            r == self.kind,
    {
        self.kind
    }
}

/// What a callback of the shim hands back to the engine: the result code,
/// and the error to keep for a later query of the last error.
#[derive(Debug, Clone, PartialEq, Eq)]
pub struct Reply {
    pub code: i32,
    pub error: Option<Error>,
}

impl Reply {
    /// A reply that records no error.
    pub fn code(code: i32) -> (r: Reply)
        ensures
            r.code == code,
            r.error is None,
    {
        Reply { code, error: None }
    }

    /// A reply that records `error` as the last error.
    pub fn fail(code: i32, error: Error) -> (r: Reply)
        ensures
            r.code == code,
            r.error == Some(error),
    {
        Reply { code, error: Some(error) }
    }
}

/// The error for an argument that the engine left out.
pub fn null_ptr_error() -> (r: Error)
    ensures
        r.kind == ErrorKind::Other,
        r.message@ == "received null pointer"@,
{
    Error::other("received null pointer")
}

} // verus!
