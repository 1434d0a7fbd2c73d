//! The answers of the native primitives, and their translation into
//! results.
//!
//! Every native call reports failure by a return code of `-1` (or a null
//! handle) together with an error number. A failure whose error number the
//! binding does not know is fatal: the edge that makes the native call
//! must stop there, so the answers handed to this library always carry a
//! known error number.

use vstd::prelude::*;
use crate::codec::{i32_of_le, i64_of_le, u32_of_le, u64_of_le};
use crate::error::{error_of_code, errno_to_error, is_error_code, Error};

verus! {

/// The answer of a native call that returns a status code.
#[derive(Clone, Copy, Debug, PartialEq, Eq, Structural)]
pub struct Status {
    /// The return code; `-1` means failure.
    pub rc: i32,
    /// The error number set by a failing call.
    pub errno: i32,
}

/// The answer of a native call that returns a handle.
#[derive(Clone, Copy, Debug, PartialEq, Eq, Structural)]
pub struct HandleReply {
    /// The handle, as an address; `0` (null) means failure.
    pub handle: usize,
    /// The error number set by a failing call.
    pub errno: i32,
}

/// The answer of the native get-option call: the scratch buffer it was
/// given, filled, and the number of bytes it reports written.
pub struct OptionReply {
    /// The return code; `-1` means failure.
    pub rc: i32,
    /// The error number set by a failing call.
    pub errno: i32,
    /// The scratch buffer, of the size that was asked for.
    pub buf: Vec<u8>,
    /// The number of bytes written into `buf`.
    pub len: usize,
}

/// The answer of the native receive call.
pub struct RecvReply {
    /// The return code; `-1` means failure.
    pub rc: i32,
    /// The error number set by a failing call.
    pub errno: i32,
    /// The payload of the part received.
    pub payload: Vec<u8>,
}

/// The error that error number `errno` names.
pub open spec fn error_of(errno: i32) -> Error {
    error_of_code(errno)->0
}

/// A status is well formed when a failure carries a known error number.
pub open spec fn status_wf(st: Status) -> bool {
    st.rc == -1 ==> is_error_code(st.errno)
}

/// What a status means.
pub open spec fn status_result(st: Status) -> Result<(), Error> {
    if st.rc == -1 {
        Err(error_of(st.errno))
    } else {
        Ok(())
    }
}

/// A handle answer is well formed when a null handle carries a known error
/// number.
pub open spec fn handle_wf(h: HandleReply) -> bool {
    h.handle == 0 ==> is_error_code(h.errno)
}

/// What a handle answer means.
pub open spec fn handle_result(h: HandleReply) -> Result<usize, Error> {
    if h.handle == 0 {
        Err(error_of(h.errno))
    } else {
        Ok(h.handle)
    }
}

/// An option answer to a request for `size` bytes is well formed when a
/// success hands back a buffer of that size with at most that many bytes
/// written, and a failure carries a known error number.
pub open spec fn option_reply_wf(r: OptionReply, size: nat) -> bool {
    &&& r.rc == -1 ==> is_error_code(r.errno)
    &&& r.rc != -1 ==> r.buf@.len() == size && r.len <= size
}

/// A receive answer is well formed when a failure carries a known error
/// number.
pub open spec fn recv_wf(r: RecvReply) -> bool {
    r.rc == -1 ==> is_error_code(r.errno)
}

/// What an option answer means, read as a native `int`.
pub open spec fn int_result(r: OptionReply) -> Result<i32, Error> {
    if r.rc == -1 {
        Err(error_of(r.errno))
    } else {
        Ok(i32_of_le(r.buf@))
    }
}

/// What an option answer means, read as an unsigned 32-bit value.
pub open spec fn u32_result(r: OptionReply) -> Result<u32, Error> {
    if r.rc == -1 {
        Err(error_of(r.errno))
    } else {
        Ok(u32_of_le(r.buf@))
    }
}

/// What an option answer means, read as a signed 64-bit value.
pub open spec fn i64_result(r: OptionReply) -> Result<i64, Error> {
    if r.rc == -1 {
        Err(error_of(r.errno))
    } else {
        Ok(i64_of_le(r.buf@))
    }
}

/// What an option answer means, read as an unsigned 64-bit value.
pub open spec fn u64_result(r: OptionReply) -> Result<u64, Error> {
    if r.rc == -1 {
        Err(error_of(r.errno))
    } else {
        Ok(u64_of_le(r.buf@))
    }
}

/// What an option answer means, read as a byte string: the bytes written.
pub open spec fn bytes_result(r: OptionReply) -> Result<Seq<u8>, Error> {
    if r.rc == -1 {
        Err(error_of(r.errno))
    } else {
        Ok(r.buf@.subrange(0, r.len as int))
    }
}

/// What an option answer means, read as a flag held in 64 bits: set when
/// the value is `1`.
pub open spec fn flag_result(r: OptionReply) -> Result<bool, Error> {
    match i64_result(r) {
        Ok(v) => Ok(v == 1),
        Err(e) => Err(e),
    }
}

/// Translates a status.
pub fn check_status(st: Status) -> (r: Result<(), Error>)
    requires
        status_wf(st),
    ensures
        r == status_result(st),
{
    if st.rc == -1 {
        Err(errno_to_error(st.errno))
    } else {
        Ok(())
    }
}

/// Translates a handle answer.
pub fn check_handle(h: HandleReply) -> (r: Result<usize, Error>)
    requires
        handle_wf(h),
    ensures
        r == handle_result(h),
{
    if h.handle == 0 {
        Err(errno_to_error(h.errno))
    } else {
        Ok(h.handle)
    }
}

} // verus!
