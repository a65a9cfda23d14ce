use vstd::prelude::*;

verus! {

/// The closed set of failures that every backend reports.
///
/// Each backend translates its native status codes into one of these kinds
/// when the failure happens; nothing above the backends maps a code again.
#[derive(Debug, Clone, Copy, PartialEq, Eq, Structural)]
pub enum Error {
    /// The operation is not implemented by this backend.
    NotSupported,
    /// A precondition failed: a direction mismatch, a length overflow, a bad descriptor.
    InvalidArgument,
    /// A status code of the host (an errno, an HRESULT, an IOReturn, a DOMException code).
    Io(i32),
    /// The transfer did not complete in time; the handle stays usable.
    Timeout,
    /// The device went away while the operation ran.
    Disconnected,
    /// Anything else.
    Unknown,
}

impl Error {
    /// A short human-readable description of the error.
    pub fn describe(&self) -> (r: &'static str)
        ensures
            r@.len() > 0,
    {
        proof {
            reveal_strlit("operation not supported");
            reveal_strlit("invalid argument");
            reveal_strlit("host I/O error");
            reveal_strlit("operation timed out");
            reveal_strlit("device disconnected");
            reveal_strlit("unknown error");
        }
        match self {
            Error::NotSupported => "operation not supported",
            Error::InvalidArgument => "invalid argument",
            Error::Io(_) => "host I/O error",
            Error::Timeout => "operation timed out",
            Error::Disconnected => "device disconnected",
            Error::Unknown => "unknown error",
        }
    }
}

} // verus!
