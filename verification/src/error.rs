//! Failures as a tagged kind plus the text shown to a person.

use vstd::prelude::*;

verus! {

/// The kind of a failure. Callers branch on the kind, never on the wording.
#[derive(Clone, Copy, Debug, PartialEq, Eq, Structural)]
pub enum ErrorKind {
    /// The target path or mount point does not exist.
    NotFound,
    /// The operating system refused a listing or a metadata read.
    PermissionDenied,
    /// Any other failed read, write or listing.
    IoError,
    /// Host and port do not form a socket address.
    InvalidAddress,
    /// The message could not be encoded.
    SerializationError,
    /// The connection could not be established.
    ConnectionError,
    /// The read after a successful connect and write failed.
    ReadError,
}

/// A failure: its kind and a human-readable message.
#[derive(Clone, Debug, PartialEq, Eq)]
pub struct Failure {
    pub kind: ErrorKind,
    pub message: String,
}

} // verus!
