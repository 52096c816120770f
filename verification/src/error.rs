//! What an operation fails with.

use libc::c_int;
use vstd::prelude::*;

verus! {

/// The class of an error that this library raises itself.
#[derive(Clone, Copy, Debug, PartialEq, Eq, Structural)]
pub enum ErrorKind {
    InvalidInput,
    TimedOut,
    Other,
}

/// Why an operation failed.
#[derive(Clone, Copy, Debug, PartialEq, Eq, Structural)]
pub enum Error {
    /// The system refused a call with this code.
    Os(c_int),
    /// A Unix path does not fit into a socket address.
    PathTooLong,
    /// A timeout of zero was asked for.
    ZeroTimeout,
    /// The connection was not made in time.
    TimedOut,
    /// The peer hung up and the socket holds no error that says why.
    NoErrorSet,
}

impl Error {
    /// The code that the system gave, for an error of the system.
    pub fn raw_os_error(&self) -> (code: Option<c_int>)
        ensures
            code == (match *self {
                Error::Os(c) => Some(c),
                _ => None,
            }),
    {
        match *self {
            Error::Os(c) => Some(c),
            _ => None,
        }
    }

    /// The class of an error of this library; an error of the system has the
    /// class that its code stands for, which is not decided here.
    pub fn kind(&self) -> (kind: Option<ErrorKind>)
        ensures
            kind == (match *self {
                Error::Os(_) => None,
                Error::PathTooLong => Some(ErrorKind::InvalidInput),
                Error::ZeroTimeout => Some(ErrorKind::InvalidInput),
                Error::TimedOut => Some(ErrorKind::TimedOut),
                Error::NoErrorSet => Some(ErrorKind::Other),
            }),
    {
        match *self {
            Error::Os(_) => None,
            Error::PathTooLong => Some(ErrorKind::InvalidInput),
            Error::ZeroTimeout => Some(ErrorKind::InvalidInput),
            Error::TimedOut => Some(ErrorKind::TimedOut),
            Error::NoErrorSet => Some(ErrorKind::Other),
        }
    }

    /// The text of an error of this library; empty for an error of the system,
    /// whose text the system knows.
    pub fn message(&self) -> (text: &'static str)
        ensures
            text@ == (match *self {
                Error::Os(_) => ""@,
                Error::PathTooLong => "path must be shorter than SUN_LEN"@,
                Error::ZeroTimeout => "cannot set a 0 duration timeout"@,
                Error::TimedOut => "connection timed out"@,
                Error::NoErrorSet => "no error set after POLLHUP"@,
            }),
    {
        match *self {
            Error::Os(_) => "",
            Error::PathTooLong => "path must be shorter than SUN_LEN",
            Error::ZeroTimeout => "cannot set a 0 duration timeout",
            Error::TimedOut => "connection timed out",
            Error::NoErrorSet => "no error set after POLLHUP",
        }
    }
}

} // verus!
