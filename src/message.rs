//! Messages: an owned payload of bytes handed between sockets.

use vstd::prelude::*;
use vstd::utf8::{decode_utf8, valid_utf8};

verus! {

/// One message part. Its payload is owned by the message and released with
/// it, once.
pub struct Message {
    msg: Vec<u8>,
}

impl View for Message {
    type V = Seq<u8>;

    closed spec fn view(&self) -> Seq<u8> {
        self.msg@
    }
}

/// A copy of `b`.
pub fn copy_bytes(b: &[u8]) -> (r: Vec<u8>)
    ensures
        r@ == b@,
{
    let mut r: Vec<u8> = Vec::with_capacity(b.len());
    let mut i: usize = 0;
    while i < b.len()
        invariant
            i <= b@.len(),
            r@ == b@.subrange(0, i as int),
        decreases b@.len() - i,
    {
        r.push(b[i]);
        i = i + 1;
        assert(r@ =~= b@.subrange(0, i as int));
    }
    assert(r@ =~= b@);
    r
}

/// Relies on `std::str::from_utf8`: it succeeds exactly on valid UTF-8, and
/// the text it gives is what those bytes encode.
#[verifier::external_body]
fn utf8_text(b: &[u8]) -> (r: Option<&str>)
    ensures
        valid_utf8(b@) <==> r is Some,
        r matches Some(s) ==> s@ == decode_utf8(b@),
{
    std::str::from_utf8(b).ok()
}

impl Message {
    /// An empty message, ready to receive into.
    pub fn new() -> (r: Message)
        ensures
            r@ == Seq::<u8>::empty(),
    {
        Message { msg: Vec::new() }
    }

    /// A message holding a copy of `bytes`; nothing of the caller's buffer
    /// is shared with it afterwards.
    pub fn init_with(bytes: &[u8]) -> (r: Message)
        ensures
            r@ == bytes@,
    {
        Message { msg: copy_bytes(bytes) }
    }

    /// A message that takes ownership of `payload`.
    pub(crate) fn from_payload(payload: Vec<u8>) -> (r: Message)
        ensures
            r@ == payload@,
    {
        Message { msg: payload }
    }

    /// Calls `f` on the payload, in place, and gives back what it returns.
    pub fn with_bytes<T, F: FnOnce(&[u8]) -> T>(&self, f: F) -> (r: T)
        requires
            forall|b: &[u8]| b@ == self@ ==> f.requires((b,)),
        ensures
            exists|b: &[u8]| b@ == self@ && f.ensures((b,), r),
    {
        f(self.msg.as_slice())
    }

    /// Calls `f` on the payload read as UTF-8 text; `None`, without a call,
    /// when the payload is not valid UTF-8.
    pub fn with_str<T, F: FnOnce(&str) -> T>(&self, f: F) -> (r: Option<T>)
        requires
            forall|s: &str| s@ == decode_utf8(self@) ==> f.requires((s,)),
        ensures
            valid_utf8(self@) <==> r is Some,
            r matches Some(t) ==> exists|s: &str| s@ == decode_utf8(self@) && f.ensures((s,), t),
    {
        match utf8_text(self.msg.as_slice()) {
            Some(s) => Some(f(s)),
            None => None,
        }
    }

    /// A copy of the payload.
    pub fn to_bytes(&self) -> (r: Vec<u8>)
        ensures
            r@ == self@,
    {
        copy_bytes(self.msg.as_slice())
    }

    /// The payload as text; `None` when it is not valid UTF-8.
    pub fn to_str(&self) -> (r: Option<String>)
        ensures
            valid_utf8(self@) <==> r is Some,
            r matches Some(s) ==> s@ == decode_utf8(self@),
    {
        match utf8_text(self.msg.as_slice()) {
            Some(s) => Some(s.to_owned()),
            None => None,
        }
    }
}

} // verus!
