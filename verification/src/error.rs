//! The domain error taxonomy: every failure an established call can
//! surface is either a transport-level failure (`Rpc`) or a payload that
//! could not be parsed into a domain value (`Format`).
use vstd::prelude::*;

verus! {

/// Classifies a domain error: `Rpc` for transport or protocol failures of
/// an established call, `Format` for payloads that failed domain parsing.
#[derive(Clone, Copy, Debug, PartialEq, Eq, Structural)]
pub enum ErrorKind {
    Rpc,
    Format,
}

/// A domain error: its kind, and a description of the underlying cause.
#[derive(Clone, Debug)]
pub struct Error {
    pub kind: ErrorKind,
    pub cause: String,
}

impl Error {
    /// Wraps a cause under the given kind.
    pub fn new(kind: ErrorKind, cause: String) -> (e: Error)
        ensures
            e.kind == kind,
            e.cause@ == cause@,
    {
        Error { kind, cause }
    }

    /// The kind of this error.
    pub fn kind(&self) -> (k: ErrorKind)
        ensures
            k == self.kind,
    {
        self.kind
    }

    /// A description of the underlying cause.
    pub fn cause(&self) -> (c: &String)
        ensures
            c@ == self.cause@,
    {
        &self.cause
    }
}

} // verus!
