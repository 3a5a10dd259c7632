//! Errors of the signature system.

use vstd::prelude::*;

verus! {

/// The kinds of failure that the signature system reports.
#[derive(Copy, Clone, Debug, PartialEq, Eq, Structural)]
pub enum ErrorKind {
    /// Key material has the wrong length or does not parse.
    KeyInvalid,
    /// A signature does not verify against the message and key.
    SignatureInvalid,
}

impl ErrorKind {
    /// A human-readable description of this kind.
    pub fn description(&self) -> (r: &'static str)
        ensures
            *self == ErrorKind::KeyInvalid ==> r@ == "malformed or corrupt key"@,
            *self == ErrorKind::SignatureInvalid ==> r@ == "bad signature"@,
    {
        match self {
            ErrorKind::KeyInvalid => "malformed or corrupt key",
            ErrorKind::SignatureInvalid => "bad signature",
        }
    }
}

/// An error of the signature system: a kind, and nothing that refers to key
/// material.
#[derive(Copy, Clone, Debug, PartialEq, Eq, Structural)]
pub struct Error {
    pub kind: ErrorKind,
}

impl Error {
    /// An error of the given kind.
    pub fn new(kind: ErrorKind) -> (r: Error)
        ensures
            r.kind == kind,
    {
        Error { kind }
    }

    /// The kind of this error.
    pub fn kind(&self) -> (r: ErrorKind)
        ensures
            r == self.kind,
    {
        self.kind
    }
}

impl From<ErrorKind> for Error {
    fn from(kind: ErrorKind) -> (r: Error) {
        Error { kind }
    }
}

impl vstd::std_specs::convert::FromSpecImpl<ErrorKind> for Error {
    open spec fn obeys_from_spec() -> bool {
        true
    }

    open spec fn from_spec(kind: ErrorKind) -> Error {
        Error { kind }
    }
}

} // verus!
