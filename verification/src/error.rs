use vstd::prelude::*;
use vstd::string::StringExecFns;

verus! {

/// The kind of a failed resolution, kept distinct so that callers can
/// branch on "feature not available" versus "malformed debug data".
#[derive(Debug, Clone, Copy, PartialEq, Eq, Structural)]
pub enum ErrorKind {
    /// A disabled feature was invoked, or an unimplemented lookup kind
    /// was requested.
    Unsupported,
    /// The debug information could not be decoded.
    InvalidData,
}

/// An error raised by a resolution operation.
#[derive(Debug)]
pub struct Error {
    pub kind: ErrorKind,
    pub msg: String,
}

impl Error {
    /// An `Unsupported` error carrying the given message.
    pub fn with_unsupported(msg: &str) -> (r: Error)
        ensures
            r.kind == ErrorKind::Unsupported,
            r.msg@ == msg@,
    {
        Error { kind: ErrorKind::Unsupported, msg: String::from_str(msg) }
    }

    /// An `InvalidData` error carrying the given message.
    pub fn with_invalid_data(msg: &str) -> (r: Error)
        ensures
            r.kind == ErrorKind::InvalidData,
            r.msg@ == msg@,
    {
        Error { kind: ErrorKind::InvalidData, msg: String::from_str(msg) }
    }

    /// The kind of this error.
    pub fn kind(&self) -> (k: ErrorKind)
        ensures
            k == self.kind,
    {
        self.kind
    }

    /// The human-readable message of this error.
    pub fn message(&self) -> (m: &String)
        ensures
            m@ == self.msg@,
    {
        &self.msg
    }
}

} // verus!
