//! The error domain of the subsystem, and what a status code means.

use vstd::prelude::*;

verus! {

/// Status of a lookup that found nothing; a directory read reuses it for
/// "no further entry".
pub const ERROR_FILE: i32 = -16;

/// Status of a request whose answer did not fit the buffer it was given.
pub const ERROR_BUFFER_TOO_SMALL: i32 = -38;

/// Status of an operation on a handle that was closed or shut down before.
pub const ERROR_BAD_USE: i32 = -39;

/// Why an operation failed.
#[derive(Clone, Copy, Debug, PartialEq, Eq, Structural)]
pub enum Error {
    /// The handle was closed or shut down before the operation. This is
    /// found locally: no request is issued.
    BadUse,
    /// A directory read found no further entry.
    NoMoreFiles,
    /// A request came back with the negative status `code`; the session
    /// holds the diagnostic that belongs to it.
    Session { code: i32 },
    /// The transport reported a failure and left no status behind.
    Unknown,
}

impl Error {
    /// The status code that stands for this error.
    pub open spec fn spec_code(&self) -> i32 {
        match *self {
            Error::BadUse => ERROR_BAD_USE,
            Error::NoMoreFiles => ERROR_FILE,
            Error::Session { code } => code,
            Error::Unknown => i32::MIN,
        }
    }

    /// The status code that stands for this error.
    #[verifier::when_used_as_spec(spec_code)]
    pub fn code(&self) -> (code: i32)
        ensures
            code == self.spec_code(),
    {
        match *self {
            Error::BadUse => ERROR_BAD_USE,
            Error::NoMoreFiles => ERROR_FILE,
            Error::Session { code } => code,
            Error::Unknown => i32::MIN,
        }
    }

    /// What this error says of itself, where that is known on this side.
    /// The words that belong to a status of the session are the session's
    /// to give.
    pub fn message(&self) -> (m: Option<&'static str>)
        ensures
            *self == Error::NoMoreFiles ==> (m matches Some(text) && text@ == "no more files"@),
            *self != Error::NoMoreFiles ==> m is None,
    {
        match *self {
            Error::NoMoreFiles => Some("no more files"),
            _ => None,
        }
    }

    /// Whether this error ends a directory listing instead of failing it:
    /// its code is the one a lookup gives for "no such file".
    pub open spec fn spec_ends_listing(&self) -> bool {
        self.spec_code() == ERROR_FILE
    }

    /// Whether this error ends a directory listing instead of failing it.
    #[verifier::when_used_as_spec(spec_ends_listing)]
    pub fn ends_listing(&self) -> (ends: bool)
        ensures
            ends == self.spec_ends_listing(),
    {
        self.code() == ERROR_FILE
    }
}

/// What a status code means once the request has returned.
pub open spec fn status_result(rc: int) -> Result<(), Error> {
    if rc >= 0 {
        Ok(())
    } else {
        Err(Error::Session { code: rc as i32 })
    }
}

/// Reads the status of a request: zero and positive codes are
/// success, a negative code is an error that carries it.
pub fn status(rc: i32) -> (r: Result<(), Error>)
    ensures
        r == status_result(rc as int),
{
    if rc >= 0 {
        Ok(())
    } else {
        Err(Error::Session { code: rc })
    }
}

/// The error to report when the transport handed back no handle:
/// the session's last error where it has one.
pub open spec fn spec_last_error_or_unknown(last_error: Option<Error>) -> Error {
    match last_error {
        Some(e) => e,
        None => Error::Unknown,
    }
}

/// The error to report when the transport handed back no handle.
#[verifier::when_used_as_spec(spec_last_error_or_unknown)]
pub fn last_error_or_unknown(last_error: Option<Error>) -> (e: Error)
    ensures
        e == spec_last_error_or_unknown(last_error),
{
    match last_error {
        Some(e) => e,
        None => Error::Unknown,
    }
}

} // verus!
