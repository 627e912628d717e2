//! The failures that the engine's operations report.

use vstd::prelude::*;

verus! {

/// The class of a failure.
#[derive(Debug, Clone, Copy, PartialEq, Eq, Structural)]
pub enum ErrorKind {
    /// The remote endpoint could not be reached or the transfer broke.
    NetworkFailure,
    /// The remote endpoint answered with a status outside 200..=299.
    HttpStatusFailure,
    /// The response body is not a hosts mapping.
    ParseFailure,
    /// A local file could not be read.
    IOFailure,
    /// A local file could not be written, for a reason other than a refusal.
    WriteFailure,
    /// Access was refused, or the user declined the elevation prompt.
    PermissionDenied,
    /// The HTTP endpoint could not take its port.
    BindFailure,
}

/// A failure: its class and the underlying detail, kept apart so that a
/// presentation layer can word the message itself.
#[derive(Debug, Clone, PartialEq, Eq)]
pub struct SyncError {
    pub kind: ErrorKind,
    pub detail: String,
}

impl SyncError {
    /// A failure of class `kind` with the given detail.
    pub fn new(kind: ErrorKind, detail: &str) -> (e: SyncError)
        ensures
            e.kind == kind,
            e.detail@ == detail@,
    {
        SyncError { kind, detail: detail.to_owned() }
    }

    /// Whether a retry within the same cycle is pointless because access
    /// was refused.
    pub fn is_denial(&self) -> (r: bool)
        ensures
            r == (self.kind == ErrorKind::PermissionDenied),
    {
        self.kind == ErrorKind::PermissionDenied
    }
}

impl ErrorKind {
    /// The machine-readable name of the class.
    pub fn name(&self) -> (s: &'static str)
        ensures
            s@ == kind_name(*self),
    {
        match self {
            ErrorKind::NetworkFailure => "NetworkFailure",
            ErrorKind::HttpStatusFailure => "HttpStatusFailure",
            ErrorKind::ParseFailure => "ParseFailure",
            ErrorKind::IOFailure => "IOFailure",
            ErrorKind::WriteFailure => "WriteFailure",
            ErrorKind::PermissionDenied => "PermissionDenied",
            ErrorKind::BindFailure => "BindFailure",
        }
    }
}

/// The name that [`ErrorKind::name`] returns.
pub open spec fn kind_name(kind: ErrorKind) -> Seq<char> {
    match kind {
        ErrorKind::NetworkFailure => "NetworkFailure"@,
        ErrorKind::HttpStatusFailure => "HttpStatusFailure"@,
        ErrorKind::ParseFailure => "ParseFailure"@,
        ErrorKind::IOFailure => "IOFailure"@,
        ErrorKind::WriteFailure => "WriteFailure"@,
        ErrorKind::PermissionDenied => "PermissionDenied"@,
        ErrorKind::BindFailure => "BindFailure"@,
    }
}

} // verus!
