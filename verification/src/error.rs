//! The library's error: a kind, as `std::io::ErrorKind` names them, and a
//! message for the user.
use vstd::prelude::*;

verus! {

/// What kind of failure an error reports.
#[derive(Clone, Copy, Debug, PartialEq, Eq)]
pub enum TmuxErrorKind {
    InvalidInput,
    NotFound,
    AlreadyExists,
    Unsupported,
    PermissionDenied,
    InvalidData,
    BrokenPipe,
    TimedOut,
    Other,
}

/// A failure with its kind and the message shown to the user.
#[derive(Clone, Debug, PartialEq, Eq)]
pub struct TmuxError {
    pub kind: TmuxErrorKind,
    pub message: String,
}

impl TmuxError {
    pub fn new(kind: TmuxErrorKind, message: String) -> (r: TmuxError)
        ensures
            r.kind == kind,
            r.message@ == message@,
    {
        TmuxError { kind, message }
    }
}

} // verus!
