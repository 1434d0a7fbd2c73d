//! The closed set of transport failures, their native codes and messages.

use vstd::prelude::*;

verus! {

/// A transport failure reported by the native layer.
#[derive(Clone, Copy, Debug, PartialEq, Eq, Structural)]
pub enum Error {
    /// The operation is not supported.
    ENOTSUP,
    /// The transport protocol is not supported.
    EPROTONOSUPPORT,
    /// No buffer space is available.
    ENOBUFS,
    /// The network is down.
    ENETDOWN,
    /// The address is already in use.
    EADDRINUSE,
    /// The address is not available.
    EADDRNOTAVAIL,
    /// The connection was refused.
    ECONNREFUSED,
    /// The operation could not complete now.
    EINPROGRESS,
    /// The handle is not an open socket.
    ENOTSOCK,
    /// The operation is not valid in the socket's current state.
    EFSM,
    /// The protocol is not compatible with the socket type.
    ENOCOMPATPROTO,
    /// The context was terminated.
    ETERM,
    /// No thread is available.
    EMTHREAD,
}

/// Native code of an error.
pub open spec fn error_code(e: Error) -> i32 {
    match e {
        Error::ENOTSUP => 156384713,
        Error::EPROTONOSUPPORT => 156384714,
        Error::ENOBUFS => 156384715,
        Error::ENETDOWN => 156384716,
        Error::EADDRINUSE => 156384717,
        Error::EADDRNOTAVAIL => 156384718,
        Error::ECONNREFUSED => 156384719,
        Error::EINPROGRESS => 156384720,
        Error::ENOTSOCK => 156384721,
        Error::EFSM => 156384763,
        Error::ENOCOMPATPROTO => 156384764,
        Error::ETERM => 156384765,
        Error::EMTHREAD => 156384766,
    }
}

/// The error with a given native code, if there is one.
pub open spec fn error_of_code(code: i32) -> Option<Error> {
    if code == 156384713 {
        Some(Error::ENOTSUP)
    } else if code == 156384714 {
        Some(Error::EPROTONOSUPPORT)
    } else if code == 156384715 {
        Some(Error::ENOBUFS)
    } else if code == 156384716 {
        Some(Error::ENETDOWN)
    } else if code == 156384717 {
        Some(Error::EADDRINUSE)
    } else if code == 156384718 {
        Some(Error::EADDRNOTAVAIL)
    } else if code == 156384719 {
        Some(Error::ECONNREFUSED)
    } else if code == 156384720 {
        Some(Error::EINPROGRESS)
    } else if code == 156384721 {
        Some(Error::ENOTSOCK)
    } else if code == 156384763 {
        Some(Error::EFSM)
    } else if code == 156384764 {
        Some(Error::ENOCOMPATPROTO)
    } else if code == 156384765 {
        Some(Error::ETERM)
    } else if code == 156384766 {
        Some(Error::EMTHREAD)
    } else {
        None
    }
}

/// Whether `code` is the native code of some error.
pub open spec fn is_error_code(code: i32) -> bool {
    error_of_code(code) is Some
}

/// Mapping an error to its code and back gives the error again.
pub proof fn lemma_error_code_round_trip(e: Error)
    ensures
        error_of_code(error_code(e)) == Some(e),
{
}

impl Error {
    /// The native code of this error.
    pub fn to_raw(&self) -> (r: i32)
        ensures
            r == error_code(*self),
    {
        match self {
            Error::ENOTSUP => 156384713,
            Error::EPROTONOSUPPORT => 156384714,
            Error::ENOBUFS => 156384715,
            Error::ENETDOWN => 156384716,
            Error::EADDRINUSE => 156384717,
            Error::EADDRNOTAVAIL => 156384718,
            Error::ECONNREFUSED => 156384719,
            Error::EINPROGRESS => 156384720,
            Error::ENOTSOCK => 156384721,
            Error::EFSM => 156384763,
            Error::ENOCOMPATPROTO => 156384764,
            Error::ETERM => 156384765,
            Error::EMTHREAD => 156384766,
        }
    }
}

/// Whether the native error number `code` names an [`Error`]; the edge
/// that reads error numbers from the native layer stops on one that does
/// not.
pub fn is_known_errno(code: i32) -> (r: bool)
    ensures
        r == is_error_code(code),
{
    (156384713 <= code && code <= 156384721) || (156384763 <= code && code <= 156384766)
}

/// Translates a native error number into an [`Error`]. A number that names
/// no error means the native layer and this binding disagree on the error
/// table, which callers must treat as fatal; it is excluded here.
pub fn errno_to_error(code: i32) -> (r: Error)
    requires
        is_error_code(code),
    ensures
        error_code(r) == code,
        error_of_code(code) == Some(r),
{
    if code == 156384713 {
        Error::ENOTSUP
    } else if code == 156384714 {
        Error::EPROTONOSUPPORT
    } else if code == 156384715 {
        Error::ENOBUFS
    } else if code == 156384716 {
        Error::ENETDOWN
    } else if code == 156384717 {
        Error::EADDRINUSE
    } else if code == 156384718 {
        Error::EADDRNOTAVAIL
    } else if code == 156384719 {
        Error::ECONNREFUSED
    } else if code == 156384720 {
        Error::EINPROGRESS
    } else if code == 156384721 {
        Error::ENOTSOCK
    } else if code == 156384763 {
        Error::EFSM
    } else if code == 156384764 {
        Error::ENOCOMPATPROTO
    } else if code == 156384765 {
        Error::ETERM
    } else {
        Error::EMTHREAD
    }
}

} // verus!
