//! Contexts and sockets: the binding over the native primitives.
//!
//! Each operation makes its native call through the function it is given
//! (the native primitive, or anything standing in for it), with arguments
//! fixed by the operation, and translates the answer. The contracts say
//! which call is made and what each possible answer gives.

use vstd::prelude::*;
use vstd::string::StringSliceAdditionalSpecFns;
use vstd::utf8::{decode_utf8, valid_utf8};
use crate::codec::{
    decode_i32, decode_i64, decode_u32, decode_u64, encode_i32, encode_i64, encode_u64,
    i32_of_le, le_bytes_i32, le_bytes_i64, le_bytes_u64, lemma_i32_round_trip,
    lemma_i64_round_trip, lemma_u64_round_trip,
};
use crate::consts::{socket_type_code, socket_type_of_code, Constants, SocketType};
use crate::error::{errno_to_error, Error};
use crate::message::Message;
use crate::poll::PollItem;
use crate::reply::{
    check_handle, check_status, error_of, flag_result, handle_result, handle_wf, i64_result,
    int_result, option_reply_wf, recv_wf, status_result, status_wf, u32_result, u64_result,
    bytes_result, HandleReply, OptionReply, RecvReply, Status,
};

verus! {

pub const OPT_AFFINITY: i32 = 4;
pub const OPT_IDENTITY: i32 = 5;
pub const OPT_SUBSCRIBE: i32 = 6;
pub const OPT_UNSUBSCRIBE: i32 = 7;
pub const OPT_RATE: i32 = 8;
pub const OPT_RECOVERY_IVL: i32 = 9;
pub const OPT_MCAST_LOOP: i32 = 10;
pub const OPT_SNDBUF: i32 = 11;
pub const OPT_RCVBUF: i32 = 12;
pub const OPT_RCVMORE: i32 = 13;
pub const OPT_FD: i32 = 14;
pub const OPT_EVENTS: i32 = 15;
pub const OPT_TYPE: i32 = 16;
pub const OPT_LINGER: i32 = 17;
pub const OPT_RECONNECT_IVL: i32 = 18;
pub const OPT_BACKLOG: i32 = 19;
pub const OPT_RECOVERY_IVL_MSEC: i32 = 20;
pub const OPT_RECONNECT_IVL_MAX: i32 = 21;
pub const OPT_MAXMSGSIZE: i32 = 22;
pub const OPT_SNDHWM: i32 = 23;
pub const OPT_RCVHWM: i32 = 24;

/// Size of the scratch buffer for byte-string options: the longest such
/// option, the identity, has at most 255 bytes.
pub const MAX_OPTION_BYTES: usize = 255;

/// Whether `f` may be called as the native get-option primitive for option
/// `opt` of socket `sock` with a buffer of `size` bytes, and answers well.
pub open spec fn get_call_ok<F: FnOnce(usize, i32, usize) -> OptionReply>(
    f: F,
    sock: usize,
    opt: i32,
    size: usize,
) -> bool {
    &&& f.requires((sock, opt, size))
    &&& forall|r: OptionReply| #[trigger] f.ensures((sock, opt, size), r) ==> option_reply_wf(r, size as nat)
}

/// Whether `f` may be called as the native set-option primitive for option
/// `opt` of socket `sock` with the bytes `v`, and answers well.
pub open spec fn set_call_ok<F: FnOnce(usize, i32, &[u8]) -> Status>(
    f: F,
    sock: usize,
    opt: i32,
    v: Seq<u8>,
) -> bool {
    &&& forall|b: &[u8]| b@ == v ==> f.requires((sock, opt, b))
    &&& forall|b: &[u8], st: Status| b@ == v && f.ensures((sock, opt, b), st) ==> status_wf(st)
}

/// Whether `f`, called with the bytes `v`, may answer `st`.
pub open spec fn set_answer<F: FnOnce(usize, i32, &[u8]) -> Status>(
    f: F,
    sock: usize,
    opt: i32,
    v: Seq<u8>,
    st: Status,
) -> bool {
    exists|b: &[u8]|
            #![trigger f.ensures((sock, opt, b), st)]
            b@ == v && f.ensures((sock, opt, b), st)
}

/// What an option answer means, read as a socket type code.
pub open spec fn type_result(r: OptionReply) -> Result<SocketType, Error> {
    match int_result(r) {
        Ok(v) => Ok(socket_type_of_code(v)->0),
        Err(e) => Err(e),
    }
}

/// An engine instance, from which sockets are created. It is never
/// terminated implicitly: `term` does it, and reports failure.
pub struct Context {
    ctx: usize,
}

impl Context {
    /// The native handle of this context.
    pub closed spec fn handle(&self) -> usize {
        self.ctx
    }

    /// Creates a socket of type `socket_type` through the native primitive
    /// `zmq_socket`, called once with this context and the type's code.
    pub fn socket<F: FnOnce(usize, i32) -> HandleReply>(
        &self,
        socket_type: SocketType,
        zmq_socket: F,
    ) -> (r: Result<Socket, Error>)
        requires
            zmq_socket.requires((self.handle(), socket_type_code(socket_type))),
            forall|h: HandleReply|
                #[trigger] zmq_socket.ensures((self.handle(), socket_type_code(socket_type)), h) ==> handle_wf(h),
        ensures
            exists|h: HandleReply|
            #![trigger zmq_socket.ensures((self.handle(), socket_type_code(socket_type)), h)]
                zmq_socket.ensures((self.handle(), socket_type_code(socket_type)), h) && match handle_result(h) {
                    Ok(p) => r matches Ok(s) && s.handle() == p && !s.is_closed(),
                    Err(e) => r == Err::<Socket, Error>(e),
                },
    {
        let h = zmq_socket(self.ctx, socket_type.to_raw());
        match check_handle(h) {
            Ok(p) => Ok(Socket { sock: p, closed: false }),
            Err(e) => Err(e),
        }
    }

    /// Terminates the context through the native primitive `zmq_term`,
    /// called once with this context.
    pub fn term<F: FnOnce(usize) -> Status>(&self, zmq_term: F) -> (r: Result<(), Error>)
        requires
            zmq_term.requires((self.handle(),)),
            forall|st: Status| #[trigger] zmq_term.ensures((self.handle(),), st) ==> status_wf(st),
        ensures
            exists|st: Status|
            #![trigger zmq_term.ensures((self.handle(),), st)]
            zmq_term.ensures((self.handle(),), st) && r == status_result(st),
    {
        check_status(zmq_term(self.ctx))
    }
}

/// Creates a context with `io_threads` I/O threads through the native
/// primitive `zmq_init`, called once with that count.
pub fn init<F: FnOnce(i32) -> HandleReply>(io_threads: i32, zmq_init: F) -> (r: Result<Context, Error>)
    requires
        zmq_init.requires((io_threads,)),
        forall|h: HandleReply| #[trigger] zmq_init.ensures((io_threads,), h) ==> handle_wf(h),
    ensures
        exists|h: HandleReply|
            #![trigger zmq_init.ensures((io_threads,), h)]
            zmq_init.ensures((io_threads,), h) && match handle_result(h) {
                Ok(p) => r matches Ok(c) && c.handle() == p,
                Err(e) => r == Err::<Context, Error>(e),
            },
{
    let h = zmq_init(io_threads);
    match check_handle(h) {
        Ok(p) => Ok(Context { ctx: p }),
        Err(e) => Err(e),
    }
}

/// A socket of a [`Context`]. The native close is delivered at most once:
/// `close` marks the socket closed, and a closed socket makes no further
/// native close.
pub struct Socket {
    sock: usize,
    closed: bool,
}

/// How `close` goes from `before` to `after` with result `r`; `call` is the
/// answer of the native close, or `None` when no native close is made.
pub open spec fn close_step(before: Socket, after: Socket, call: Option<Status>, r: Result<(), Error>) -> bool {
    if before.is_closed() {
        call is None && after == before && r is Ok
    } else {
        call is Some && after.is_closed() && after.handle() == before.handle() && r
            == status_result(call->0)
    }
}

impl Socket {
    /// The native handle of this socket.
    pub closed spec fn handle(&self) -> usize {
        self.sock
    }

    /// Whether `close` was called on this socket.
    pub closed spec fn is_closed(&self) -> bool {
        self.closed
    }

    /// Whether `close` was called on this socket.
    pub fn closed(&self) -> (r: bool)
        ensures
            r == self.is_closed(),
    {
        self.closed
    }

    /// A watch entry for this socket, asking for `events`.
    pub fn poll_item(&self, events: i16) -> (r: PollItem)
        ensures
            r.socket == self.handle(),
            r.fd == 0,
            r.events == events,
            r.revents == 0,
    {
        PollItem { socket: self.sock, fd: 0, events, revents: 0 }
    }

    /// The type this socket was created with; the native layer must
    /// report a known type code.
    pub fn get_socket_type<F: FnOnce(usize, i32, usize) -> OptionReply>(&self, getsockopt: F) -> (r: Result<SocketType, Error>)
        requires
            get_call_ok(getsockopt, self.handle(), OPT_TYPE, 4),
            forall|rep: OptionReply|
                #[trigger] getsockopt.ensures((self.handle(), OPT_TYPE, 4usize), rep) && rep.rc != -1
                    ==> (#[trigger] socket_type_of_code(i32_of_le(rep.buf@))) is Some,
        ensures
            exists|rep: OptionReply|
            #![trigger getsockopt.ensures((self.handle(), OPT_TYPE, 4usize), rep)]
                getsockopt.ensures((self.handle(), OPT_TYPE, 4usize), rep) && r == type_result(rep),
    {
        match getsockopt_int(self.sock, Constants::ZMQ_TYPE.to_raw(), getsockopt) {
            Ok(code) => match SocketType::from_raw(code) {
                Some(t) => Ok(t),
                None => Ok(SocketType::PAIR),
            },
            Err(e) => Err(e),
        }
    }

    /// Whether the part last received has more parts after it.
    pub fn get_rcvmore<F: FnOnce(usize, i32, usize) -> OptionReply>(&self, getsockopt: F) -> (r: Result<bool, Error>)
        requires
            get_call_ok(getsockopt, self.handle(), OPT_RCVMORE, 8),
        ensures
            exists|rep: OptionReply|
            #![trigger getsockopt.ensures((self.handle(), OPT_RCVMORE, 8usize), rep)]
                getsockopt.ensures((self.handle(), OPT_RCVMORE, 8usize), rep) && r == flag_result(rep),
    {
        match getsockopt_i64(self.sock, Constants::ZMQ_RCVMORE.to_raw(), getsockopt) {
            Ok(o) => Ok(o == 1),
            Err(e) => Err(e),
        }
    }

    pub fn get_maxmsgsize<F: FnOnce(usize, i32, usize) -> OptionReply>(&self, getsockopt: F) -> (r: Result<i64, Error>)
        requires
            get_call_ok(getsockopt, self.handle(), OPT_MAXMSGSIZE, 8),
        ensures
            exists|rep: OptionReply|
            #![trigger getsockopt.ensures((self.handle(), OPT_MAXMSGSIZE, 8usize), rep)]
                getsockopt.ensures((self.handle(), OPT_MAXMSGSIZE, 8usize), rep) && r == i64_result(rep),
    {
        getsockopt_i64(self.sock, Constants::ZMQ_MAXMSGSIZE.to_raw(), getsockopt)
    }

    pub fn get_sndhwm<F: FnOnce(usize, i32, usize) -> OptionReply>(&self, getsockopt: F) -> (r: Result<i32, Error>)
        requires
            get_call_ok(getsockopt, self.handle(), OPT_SNDHWM, 4),
        ensures
            exists|rep: OptionReply|
            #![trigger getsockopt.ensures((self.handle(), OPT_SNDHWM, 4usize), rep)]
                getsockopt.ensures((self.handle(), OPT_SNDHWM, 4usize), rep) && r == int_result(rep),
    {
        getsockopt_int(self.sock, Constants::ZMQ_SNDHWM.to_raw(), getsockopt)
    }

    pub fn get_rcvhwm<F: FnOnce(usize, i32, usize) -> OptionReply>(&self, getsockopt: F) -> (r: Result<i32, Error>)
        requires
            get_call_ok(getsockopt, self.handle(), OPT_RCVHWM, 4),
        ensures
            exists|rep: OptionReply|
            #![trigger getsockopt.ensures((self.handle(), OPT_RCVHWM, 4usize), rep)]
                getsockopt.ensures((self.handle(), OPT_RCVHWM, 4usize), rep) && r == int_result(rep),
    {
        getsockopt_int(self.sock, Constants::ZMQ_RCVHWM.to_raw(), getsockopt)
    }

    pub fn get_affinity<F: FnOnce(usize, i32, usize) -> OptionReply>(&self, getsockopt: F) -> (r: Result<u64, Error>)
        requires
            get_call_ok(getsockopt, self.handle(), OPT_AFFINITY, 8),
        ensures
            exists|rep: OptionReply|
            #![trigger getsockopt.ensures((self.handle(), OPT_AFFINITY, 8usize), rep)]
                getsockopt.ensures((self.handle(), OPT_AFFINITY, 8usize), rep) && r == u64_result(rep),
    {
        getsockopt_u64(self.sock, Constants::ZMQ_AFFINITY.to_raw(), getsockopt)
    }

    pub fn get_identity<F: FnOnce(usize, i32, usize) -> OptionReply>(&self, getsockopt: F) -> (r: Result<Vec<u8>, Error>)
        requires
            get_call_ok(getsockopt, self.handle(), OPT_IDENTITY, MAX_OPTION_BYTES),
        ensures
            exists|rep: OptionReply|
            #![trigger getsockopt.ensures((self.handle(), OPT_IDENTITY, MAX_OPTION_BYTES), rep)]
                getsockopt.ensures((self.handle(), OPT_IDENTITY, MAX_OPTION_BYTES), rep) && match bytes_result(rep) {
                    Ok(v) => r matches Ok(b) && b@ == v,
                    Err(e) => r == Err::<Vec<u8>, Error>(e),
                },
    {
        getsockopt_bytes(self.sock, Constants::ZMQ_IDENTITY.to_raw(), getsockopt)
    }

    pub fn get_rate<F: FnOnce(usize, i32, usize) -> OptionReply>(&self, getsockopt: F) -> (r: Result<i64, Error>)
        requires
            get_call_ok(getsockopt, self.handle(), OPT_RATE, 8),
        ensures
            exists|rep: OptionReply|
            #![trigger getsockopt.ensures((self.handle(), OPT_RATE, 8usize), rep)]
                getsockopt.ensures((self.handle(), OPT_RATE, 8usize), rep) && r == i64_result(rep),
    {
        getsockopt_i64(self.sock, Constants::ZMQ_RATE.to_raw(), getsockopt)
    }

    pub fn get_recovery_ivl<F: FnOnce(usize, i32, usize) -> OptionReply>(&self, getsockopt: F) -> (r: Result<i64, Error>)
        requires
            get_call_ok(getsockopt, self.handle(), OPT_RECOVERY_IVL, 8),
        ensures
            exists|rep: OptionReply|
            #![trigger getsockopt.ensures((self.handle(), OPT_RECOVERY_IVL, 8usize), rep)]
                getsockopt.ensures((self.handle(), OPT_RECOVERY_IVL, 8usize), rep) && r == i64_result(rep),
    {
        getsockopt_i64(self.sock, Constants::ZMQ_RECOVERY_IVL.to_raw(), getsockopt)
    }

    pub fn get_recovery_ivl_msec<F: FnOnce(usize, i32, usize) -> OptionReply>(&self, getsockopt: F) -> (r: Result<i64, Error>)
        requires
            get_call_ok(getsockopt, self.handle(), OPT_RECOVERY_IVL_MSEC, 8),
        ensures
            exists|rep: OptionReply|
            #![trigger getsockopt.ensures((self.handle(), OPT_RECOVERY_IVL_MSEC, 8usize), rep)]
                getsockopt.ensures((self.handle(), OPT_RECOVERY_IVL_MSEC, 8usize), rep) && r == i64_result(rep),
    {
        getsockopt_i64(self.sock, Constants::ZMQ_RECOVERY_IVL_MSEC.to_raw(), getsockopt)
    }

    pub fn get_mcast_loop<F: FnOnce(usize, i32, usize) -> OptionReply>(&self, getsockopt: F) -> (r: Result<bool, Error>)
        requires
            get_call_ok(getsockopt, self.handle(), OPT_MCAST_LOOP, 8),
        ensures
            exists|rep: OptionReply|
            #![trigger getsockopt.ensures((self.handle(), OPT_MCAST_LOOP, 8usize), rep)]
                getsockopt.ensures((self.handle(), OPT_MCAST_LOOP, 8usize), rep) && r == flag_result(rep),
    {
        match getsockopt_i64(self.sock, Constants::ZMQ_MCAST_LOOP.to_raw(), getsockopt) {
            Ok(o) => Ok(o == 1),
            Err(e) => Err(e),
        }
    }

    pub fn get_sndbuf<F: FnOnce(usize, i32, usize) -> OptionReply>(&self, getsockopt: F) -> (r: Result<u64, Error>)
        requires
            get_call_ok(getsockopt, self.handle(), OPT_SNDBUF, 8),
        ensures
            exists|rep: OptionReply|
            #![trigger getsockopt.ensures((self.handle(), OPT_SNDBUF, 8usize), rep)]
                getsockopt.ensures((self.handle(), OPT_SNDBUF, 8usize), rep) && r == u64_result(rep),
    {
        getsockopt_u64(self.sock, Constants::ZMQ_SNDBUF.to_raw(), getsockopt)
    }

    pub fn get_rcvbuf<F: FnOnce(usize, i32, usize) -> OptionReply>(&self, getsockopt: F) -> (r: Result<u64, Error>)
        requires
            get_call_ok(getsockopt, self.handle(), OPT_RCVBUF, 8),
        ensures
            exists|rep: OptionReply|
            #![trigger getsockopt.ensures((self.handle(), OPT_RCVBUF, 8usize), rep)]
                getsockopt.ensures((self.handle(), OPT_RCVBUF, 8usize), rep) && r == u64_result(rep),
    {
        getsockopt_u64(self.sock, Constants::ZMQ_RCVBUF.to_raw(), getsockopt)
    }

    pub fn get_linger<F: FnOnce(usize, i32, usize) -> OptionReply>(&self, getsockopt: F) -> (r: Result<i32, Error>)
        requires
            get_call_ok(getsockopt, self.handle(), OPT_LINGER, 4),
        ensures
            exists|rep: OptionReply|
            #![trigger getsockopt.ensures((self.handle(), OPT_LINGER, 4usize), rep)]
                getsockopt.ensures((self.handle(), OPT_LINGER, 4usize), rep) && r == int_result(rep),
    {
        getsockopt_int(self.sock, Constants::ZMQ_LINGER.to_raw(), getsockopt)
    }

    pub fn get_reconnect_ivl<F: FnOnce(usize, i32, usize) -> OptionReply>(&self, getsockopt: F) -> (r: Result<i32, Error>)
        requires
            get_call_ok(getsockopt, self.handle(), OPT_RECONNECT_IVL, 4),
        ensures
            exists|rep: OptionReply|
            #![trigger getsockopt.ensures((self.handle(), OPT_RECONNECT_IVL, 4usize), rep)]
                getsockopt.ensures((self.handle(), OPT_RECONNECT_IVL, 4usize), rep) && r == int_result(rep),
    {
        getsockopt_int(self.sock, Constants::ZMQ_RECONNECT_IVL.to_raw(), getsockopt)
    }

    pub fn get_reconnect_ivl_max<F: FnOnce(usize, i32, usize) -> OptionReply>(&self, getsockopt: F) -> (r: Result<i32, Error>)
        requires
            get_call_ok(getsockopt, self.handle(), OPT_RECONNECT_IVL_MAX, 4),
        ensures
            exists|rep: OptionReply|
            #![trigger getsockopt.ensures((self.handle(), OPT_RECONNECT_IVL_MAX, 4usize), rep)]
                getsockopt.ensures((self.handle(), OPT_RECONNECT_IVL_MAX, 4usize), rep) && r == int_result(rep),
    {
        getsockopt_int(self.sock, Constants::ZMQ_RECONNECT_IVL_MAX.to_raw(), getsockopt)
    }

    pub fn get_backlog<F: FnOnce(usize, i32, usize) -> OptionReply>(&self, getsockopt: F) -> (r: Result<i32, Error>)
        requires
            get_call_ok(getsockopt, self.handle(), OPT_BACKLOG, 4),
        ensures
            exists|rep: OptionReply|
            #![trigger getsockopt.ensures((self.handle(), OPT_BACKLOG, 4usize), rep)]
                getsockopt.ensures((self.handle(), OPT_BACKLOG, 4usize), rep) && r == int_result(rep),
    {
        getsockopt_int(self.sock, Constants::ZMQ_BACKLOG.to_raw(), getsockopt)
    }

    /// The file descriptor that signals this socket's events.
    pub fn get_fd<F: FnOnce(usize, i32, usize) -> OptionReply>(&self, getsockopt: F) -> (r: Result<i64, Error>)
        requires
            get_call_ok(getsockopt, self.handle(), OPT_FD, 8),
        ensures
            exists|rep: OptionReply|
            #![trigger getsockopt.ensures((self.handle(), OPT_FD, 8usize), rep)]
                getsockopt.ensures((self.handle(), OPT_FD, 8usize), rep) && r == i64_result(rep),
    {
        getsockopt_i64(self.sock, Constants::ZMQ_FD.to_raw(), getsockopt)
    }

    /// The events this socket is ready for (`POLLIN`, `POLLOUT`).
    pub fn get_events<F: FnOnce(usize, i32, usize) -> OptionReply>(&self, getsockopt: F) -> (r: Result<u32, Error>)
        requires
            get_call_ok(getsockopt, self.handle(), OPT_EVENTS, 4),
        ensures
            exists|rep: OptionReply|
            #![trigger getsockopt.ensures((self.handle(), OPT_EVENTS, 4usize), rep)]
                getsockopt.ensures((self.handle(), OPT_EVENTS, 4usize), rep) && r == u32_result(rep),
    {
        getsockopt_u32(self.sock, Constants::ZMQ_EVENTS.to_raw(), getsockopt)
    }

    pub fn set_maxmsgsize<F: FnOnce(usize, i32, &[u8]) -> Status>(&self, value: i64, setsockopt: F) -> (r: Result<(), Error>)
        requires
            set_call_ok(setsockopt, self.handle(), OPT_MAXMSGSIZE, le_bytes_i64(value)),
        ensures
            exists|st: Status|
                set_answer(setsockopt, self.handle(), OPT_MAXMSGSIZE, le_bytes_i64(value), st) && r == status_result(st),
    {
        setsockopt_i64(self.sock, Constants::ZMQ_MAXMSGSIZE.to_raw(), value, setsockopt)
    }

    pub fn set_sndhwm<F: FnOnce(usize, i32, &[u8]) -> Status>(&self, value: i32, setsockopt: F) -> (r: Result<(), Error>)
        requires
            set_call_ok(setsockopt, self.handle(), OPT_SNDHWM, le_bytes_i32(value)),
        ensures
            exists|st: Status|
                set_answer(setsockopt, self.handle(), OPT_SNDHWM, le_bytes_i32(value), st) && r == status_result(st),
    {
        setsockopt_int(self.sock, Constants::ZMQ_SNDHWM.to_raw(), value, setsockopt)
    }

    pub fn set_rcvhwm<F: FnOnce(usize, i32, &[u8]) -> Status>(&self, value: i32, setsockopt: F) -> (r: Result<(), Error>)
        requires
            set_call_ok(setsockopt, self.handle(), OPT_RCVHWM, le_bytes_i32(value)),
        ensures
            exists|st: Status|
                set_answer(setsockopt, self.handle(), OPT_RCVHWM, le_bytes_i32(value), st) && r == status_result(st),
    {
        setsockopt_int(self.sock, Constants::ZMQ_RCVHWM.to_raw(), value, setsockopt)
    }

    pub fn set_affinity<F: FnOnce(usize, i32, &[u8]) -> Status>(&self, value: u64, setsockopt: F) -> (r: Result<(), Error>)
        requires
            set_call_ok(setsockopt, self.handle(), OPT_AFFINITY, le_bytes_u64(value)),
        ensures
            exists|st: Status|
                set_answer(setsockopt, self.handle(), OPT_AFFINITY, le_bytes_u64(value), st) && r == status_result(st),
    {
        setsockopt_u64(self.sock, Constants::ZMQ_AFFINITY.to_raw(), value, setsockopt)
    }

    pub fn set_identity<F: FnOnce(usize, i32, &[u8]) -> Status>(&self, value: &[u8], setsockopt: F) -> (r: Result<(), Error>)
        requires
            set_call_ok(setsockopt, self.handle(), OPT_IDENTITY, value@),
        ensures
            exists|st: Status|
                set_answer(setsockopt, self.handle(), OPT_IDENTITY, value@, st) && r == status_result(st),
    {
        setsockopt_bytes(self.sock, Constants::ZMQ_IDENTITY.to_raw(), value, setsockopt)
    }

    pub fn set_subscribe<F: FnOnce(usize, i32, &[u8]) -> Status>(&self, value: &[u8], setsockopt: F) -> (r: Result<(), Error>)
        requires
            set_call_ok(setsockopt, self.handle(), OPT_SUBSCRIBE, value@),
        ensures
            exists|st: Status|
                set_answer(setsockopt, self.handle(), OPT_SUBSCRIBE, value@, st) && r == status_result(st),
    {
        setsockopt_bytes(self.sock, Constants::ZMQ_SUBSCRIBE.to_raw(), value, setsockopt)
    }

    pub fn set_unsubscribe<F: FnOnce(usize, i32, &[u8]) -> Status>(&self, value: &[u8], setsockopt: F) -> (r: Result<(), Error>)
        requires
            set_call_ok(setsockopt, self.handle(), OPT_UNSUBSCRIBE, value@),
        ensures
            exists|st: Status|
                set_answer(setsockopt, self.handle(), OPT_UNSUBSCRIBE, value@, st) && r == status_result(st),
    {
        setsockopt_bytes(self.sock, Constants::ZMQ_UNSUBSCRIBE.to_raw(), value, setsockopt)
    }

    pub fn set_rate<F: FnOnce(usize, i32, &[u8]) -> Status>(&self, value: i64, setsockopt: F) -> (r: Result<(), Error>)
        requires
            set_call_ok(setsockopt, self.handle(), OPT_RATE, le_bytes_i64(value)),
        ensures
            exists|st: Status|
                set_answer(setsockopt, self.handle(), OPT_RATE, le_bytes_i64(value), st) && r == status_result(st),
    {
        setsockopt_i64(self.sock, Constants::ZMQ_RATE.to_raw(), value, setsockopt)
    }

    pub fn set_recovery_ivl<F: FnOnce(usize, i32, &[u8]) -> Status>(&self, value: i64, setsockopt: F) -> (r: Result<(), Error>)
        requires
            set_call_ok(setsockopt, self.handle(), OPT_RECOVERY_IVL, le_bytes_i64(value)),
        ensures
            exists|st: Status|
                set_answer(setsockopt, self.handle(), OPT_RECOVERY_IVL, le_bytes_i64(value), st) && r == status_result(st),
    {
        setsockopt_i64(self.sock, Constants::ZMQ_RECOVERY_IVL.to_raw(), value, setsockopt)
    }

    pub fn set_recovery_ivl_msec<F: FnOnce(usize, i32, &[u8]) -> Status>(&self, value: i64, setsockopt: F) -> (r: Result<(), Error>)
        requires
            set_call_ok(setsockopt, self.handle(), OPT_RECOVERY_IVL_MSEC, le_bytes_i64(value)),
        ensures
            exists|st: Status|
                set_answer(setsockopt, self.handle(), OPT_RECOVERY_IVL_MSEC, le_bytes_i64(value), st) && r == status_result(st),
    {
        setsockopt_i64(self.sock, Constants::ZMQ_RECOVERY_IVL_MSEC.to_raw(), value, setsockopt)
    }

    pub fn set_mcast_loop<F: FnOnce(usize, i32, &[u8]) -> Status>(&self, value: bool, setsockopt: F) -> (r: Result<(), Error>)
        requires
            set_call_ok(setsockopt, self.handle(), OPT_MCAST_LOOP, le_bytes_i64(if value { 1i64 } else { 0i64 })),
        ensures
            exists|st: Status|
                set_answer(setsockopt, self.handle(), OPT_MCAST_LOOP, le_bytes_i64(if value { 1i64 } else { 0i64 }), st) && r == status_result(st),
    {
        let value: i64 = if value {
            1
        } else {
            0
        };
        setsockopt_i64(self.sock, Constants::ZMQ_MCAST_LOOP.to_raw(), value, setsockopt)
    }

    pub fn set_sndbuf<F: FnOnce(usize, i32, &[u8]) -> Status>(&self, value: u64, setsockopt: F) -> (r: Result<(), Error>)
        requires
            set_call_ok(setsockopt, self.handle(), OPT_SNDBUF, le_bytes_u64(value)),
        ensures
            exists|st: Status|
                set_answer(setsockopt, self.handle(), OPT_SNDBUF, le_bytes_u64(value), st) && r == status_result(st),
    {
        setsockopt_u64(self.sock, Constants::ZMQ_SNDBUF.to_raw(), value, setsockopt)
    }

    pub fn set_rcvbuf<F: FnOnce(usize, i32, &[u8]) -> Status>(&self, value: u64, setsockopt: F) -> (r: Result<(), Error>)
        requires
            set_call_ok(setsockopt, self.handle(), OPT_RCVBUF, le_bytes_u64(value)),
        ensures
            exists|st: Status|
                set_answer(setsockopt, self.handle(), OPT_RCVBUF, le_bytes_u64(value), st) && r == status_result(st),
    {
        setsockopt_u64(self.sock, Constants::ZMQ_RCVBUF.to_raw(), value, setsockopt)
    }

    pub fn set_linger<F: FnOnce(usize, i32, &[u8]) -> Status>(&self, value: i32, setsockopt: F) -> (r: Result<(), Error>)
        requires
            set_call_ok(setsockopt, self.handle(), OPT_LINGER, le_bytes_i32(value)),
        ensures
            exists|st: Status|
                set_answer(setsockopt, self.handle(), OPT_LINGER, le_bytes_i32(value), st) && r == status_result(st),
    {
        setsockopt_int(self.sock, Constants::ZMQ_LINGER.to_raw(), value, setsockopt)
    }

    pub fn set_reconnect_ivl<F: FnOnce(usize, i32, &[u8]) -> Status>(&self, value: i32, setsockopt: F) -> (r: Result<(), Error>)
        requires
            set_call_ok(setsockopt, self.handle(), OPT_RECONNECT_IVL, le_bytes_i32(value)),
        ensures
            exists|st: Status|
                set_answer(setsockopt, self.handle(), OPT_RECONNECT_IVL, le_bytes_i32(value), st) && r == status_result(st),
    {
        setsockopt_int(self.sock, Constants::ZMQ_RECONNECT_IVL.to_raw(), value, setsockopt)
    }

    pub fn set_reconnect_ivl_max<F: FnOnce(usize, i32, &[u8]) -> Status>(&self, value: i32, setsockopt: F) -> (r: Result<(), Error>)
        requires
            set_call_ok(setsockopt, self.handle(), OPT_RECONNECT_IVL_MAX, le_bytes_i32(value)),
        ensures
            exists|st: Status|
                set_answer(setsockopt, self.handle(), OPT_RECONNECT_IVL_MAX, le_bytes_i32(value), st) && r == status_result(st),
    {
        setsockopt_int(self.sock, Constants::ZMQ_RECONNECT_IVL_MAX.to_raw(), value, setsockopt)
    }

    pub fn set_backlog<F: FnOnce(usize, i32, &[u8]) -> Status>(&self, value: i32, setsockopt: F) -> (r: Result<(), Error>)
        requires
            set_call_ok(setsockopt, self.handle(), OPT_BACKLOG, le_bytes_i32(value)),
        ensures
            exists|st: Status|
                set_answer(setsockopt, self.handle(), OPT_BACKLOG, le_bytes_i32(value), st) && r == status_result(st),
    {
        setsockopt_int(self.sock, Constants::ZMQ_BACKLOG.to_raw(), value, setsockopt)
    }

    /// Accepts connections on `endpoint`, through the native primitive
    /// `zmq_bind`, called once with this socket and the endpoint.
    pub fn bind<F: FnOnce(usize, &str) -> Status>(&self, endpoint: &str, zmq_bind: F) -> (r: Result<(), Error>)
        requires
            zmq_bind.requires((self.handle(), endpoint)),
            forall|st: Status| #[trigger] zmq_bind.ensures((self.handle(), endpoint), st) ==> status_wf(st),
        ensures
            exists|st: Status|
            #![trigger zmq_bind.ensures((self.handle(), endpoint), st)]
            zmq_bind.ensures((self.handle(), endpoint), st) && r == status_result(st),
    {
        check_status(zmq_bind(self.sock, endpoint))
    }

    /// Connects to `endpoint`, through the native primitive `zmq_connect`,
    /// called once with this socket and the endpoint.
    pub fn connect<F: FnOnce(usize, &str) -> Status>(&self, endpoint: &str, zmq_connect: F) -> (r: Result<(), Error>)
        requires
            zmq_connect.requires((self.handle(), endpoint)),
            forall|st: Status| #[trigger] zmq_connect.ensures((self.handle(), endpoint), st) ==> status_wf(st),
        ensures
            exists|st: Status|
            #![trigger zmq_connect.ensures((self.handle(), endpoint), st)]
                zmq_connect.ensures((self.handle(), endpoint), st) && r == status_result(st),
    {
        check_status(zmq_connect(self.sock, endpoint))
    }

    /// Sends `data` as one message part: a message holding a copy of `data`
    /// is handed, with `flags`, to the native primitive `zmq_send`, which
    /// releases it whatever the outcome.
    pub fn send<F: FnOnce(usize, Message, i32) -> Status>(&self, data: &[u8], flags: i32, zmq_send: F) -> (r: Result<(), Error>)
        requires
            forall|m: Message| m@ == data@ ==> zmq_send.requires((self.handle(), m, flags)),
            forall|m: Message, st: Status|
                m@ == data@ && zmq_send.ensures((self.handle(), m, flags), st) ==> status_wf(st),
        ensures
            exists|m: Message, st: Status|
            #![trigger zmq_send.ensures((self.handle(), m, flags), st)]
                m@ == data@ && zmq_send.ensures((self.handle(), m, flags), st) && r == status_result(st),
    {
        let msg = Message::init_with(data);
        check_status(zmq_send(self.sock, msg, flags))
    }

    /// Sends the UTF-8 bytes of `data` as one message part.
    pub fn send_str<F: FnOnce(usize, Message, i32) -> Status>(&self, data: &str, flags: i32, zmq_send: F) -> (r: Result<(), Error>)
        requires
            forall|m: Message| m@ == data.spec_bytes() ==> zmq_send.requires((self.handle(), m, flags)),
            forall|m: Message, st: Status|
                m@ == data.spec_bytes() && zmq_send.ensures((self.handle(), m, flags), st) ==> status_wf(st),
        ensures
            exists|m: Message, st: Status|
            #![trigger zmq_send.ensures((self.handle(), m, flags), st)]
                m@ == data.spec_bytes() && zmq_send.ensures((self.handle(), m, flags), st) && r
                    == status_result(st),
    {
        self.send(data.as_bytes(), flags, zmq_send)
    }

    /// Receives one message part through the native primitive `zmq_recv`,
    /// called once with this socket and `flags`; on success the caller owns
    /// the message, on failure none is made.
    pub fn recv<F: FnOnce(usize, i32) -> RecvReply>(&self, flags: i32, zmq_recv: F) -> (r: Result<Message, Error>)
        requires
            zmq_recv.requires((self.handle(), flags)),
            forall|rep: RecvReply| #[trigger] zmq_recv.ensures((self.handle(), flags), rep) ==> recv_wf(rep),
        ensures
            exists|rep: RecvReply|
            #![trigger zmq_recv.ensures((self.handle(), flags), rep)]
                zmq_recv.ensures((self.handle(), flags), rep) && if rep.rc == -1 {
                    r == Err::<Message, Error>(error_of(rep.errno))
                } else {
                    r matches Ok(m) && m@ == rep.payload@
                },
    {
        let rep = zmq_recv(self.sock, flags);
        if rep.rc == -1 {
            Err(errno_to_error(rep.errno))
        } else {
            Ok(Message::from_payload(rep.payload))
        }
    }

    /// Receives one message part and gives a copy of its payload.
    pub fn recv_bytes<F: FnOnce(usize, i32) -> RecvReply>(&self, flags: i32, zmq_recv: F) -> (r: Result<Vec<u8>, Error>)
        requires
            zmq_recv.requires((self.handle(), flags)),
            forall|rep: RecvReply| #[trigger] zmq_recv.ensures((self.handle(), flags), rep) ==> recv_wf(rep),
        ensures
            exists|rep: RecvReply|
            #![trigger zmq_recv.ensures((self.handle(), flags), rep)]
                zmq_recv.ensures((self.handle(), flags), rep) && if rep.rc == -1 {
                    r == Err::<Vec<u8>, Error>(error_of(rep.errno))
                } else {
                    r matches Ok(b) && b@ == rep.payload@
                },
    {
        match self.recv(flags, zmq_recv) {
            Ok(msg) => Ok(msg.to_bytes()),
            Err(e) => Err(e),
        }
    }

    /// Receives one message part and gives its payload as text; `Ok(None)`
    /// when the payload is not valid UTF-8.
    pub fn recv_str<F: FnOnce(usize, i32) -> RecvReply>(&self, flags: i32, zmq_recv: F) -> (r: Result<Option<String>, Error>)
        requires
            zmq_recv.requires((self.handle(), flags)),
            forall|rep: RecvReply| #[trigger] zmq_recv.ensures((self.handle(), flags), rep) ==> recv_wf(rep),
        ensures
            exists|rep: RecvReply|
            #![trigger zmq_recv.ensures((self.handle(), flags), rep)]
                zmq_recv.ensures((self.handle(), flags), rep) && if rep.rc == -1 {
                    r == Err::<Option<String>, Error>(error_of(rep.errno))
                } else {
                    r matches Ok(t) && (valid_utf8(rep.payload@) <==> t is Some) && (t matches Some(
                        s,
                    ) ==> s@ == decode_utf8(rep.payload@))
                },
    {
        match self.recv(flags, zmq_recv) {
            Ok(msg) => Ok(msg.to_str()),
            Err(e) => Err(e),
        }
    }

    /// Closes the socket. The first call hands the socket to the native
    /// primitive `zmq_close` and reports its failure; later calls make no
    /// native call and succeed.
    pub fn close<F: FnOnce(usize) -> Status>(&mut self, zmq_close: F) -> (r: Result<(), Error>)
        requires
            zmq_close.requires((old(self).handle(),)),
            forall|st: Status| #[trigger] zmq_close.ensures((old(self).handle(),), st) ==> status_wf(st),
        ensures
            exists|call: Option<Status>|
            #![trigger close_step(*old(self), *final(self), call, r)]
                close_step(*old(self), *final(self), call, r) && (call matches Some(st)
                    ==> zmq_close.ensures((old(self).handle(),), st)),
    {
        if !self.closed {
            self.closed = true;
            let st = zmq_close(self.sock);
            let r = check_status(st);
            assert(close_step(*old(self), *self, Some(st), r));
            return r;
        }
        proof {
            assert(close_step(*old(self), *self, None, Ok(())));
        }
        Ok(())
    }

    /// The release made when the socket goes out of scope: the native close,
    /// unless `close` was already called.
    pub fn close_final<F: FnOnce(usize) -> Status>(&self, zmq_close: F) -> (r: Result<(), Error>)
        requires
            zmq_close.requires((self.handle(),)),
            forall|st: Status| #[trigger] zmq_close.ensures((self.handle(),), st) ==> status_wf(st),
        ensures
            self.is_closed() ==> r is Ok,
            !self.is_closed() ==> exists|st: Status|
            #![trigger zmq_close.ensures((self.handle(),), st)]
                zmq_close.ensures((self.handle(),), st) && r == status_result(st),
    {
        if !self.closed {
            return check_status(zmq_close(self.sock));
        }
        Ok(())
    }
}

/// Reads a native `int` option into a 4-byte buffer.
fn getsockopt_int<F: FnOnce(usize, i32, usize) -> OptionReply>(sock: usize, opt: i32, getsockopt: F) -> (r: Result<i32, Error>)
    requires
        get_call_ok(getsockopt, sock, opt, 4),
    ensures
        exists|rep: OptionReply|
            #![trigger getsockopt.ensures((sock, opt, 4usize), rep)]
            getsockopt.ensures((sock, opt, 4usize), rep) && r == int_result(rep),
{
    let rep = getsockopt(sock, opt, 4);
    if rep.rc == -1 {
        Err(errno_to_error(rep.errno))
    } else {
        Ok(decode_i32(rep.buf.as_slice()))
    }
}

/// Reads an unsigned 32-bit option into a 4-byte buffer.
fn getsockopt_u32<F: FnOnce(usize, i32, usize) -> OptionReply>(sock: usize, opt: i32, getsockopt: F) -> (r: Result<u32, Error>)
    requires
        get_call_ok(getsockopt, sock, opt, 4),
    ensures
        exists|rep: OptionReply|
            #![trigger getsockopt.ensures((sock, opt, 4usize), rep)]
            getsockopt.ensures((sock, opt, 4usize), rep) && r == u32_result(rep),
{
    let rep = getsockopt(sock, opt, 4);
    if rep.rc == -1 {
        Err(errno_to_error(rep.errno))
    } else {
        Ok(decode_u32(rep.buf.as_slice()))
    }
}

/// Reads a signed 64-bit option into an 8-byte buffer.
fn getsockopt_i64<F: FnOnce(usize, i32, usize) -> OptionReply>(sock: usize, opt: i32, getsockopt: F) -> (r: Result<i64, Error>)
    requires
        get_call_ok(getsockopt, sock, opt, 8),
    ensures
        exists|rep: OptionReply|
            #![trigger getsockopt.ensures((sock, opt, 8usize), rep)]
            getsockopt.ensures((sock, opt, 8usize), rep) && r == i64_result(rep),
{
    let rep = getsockopt(sock, opt, 8);
    if rep.rc == -1 {
        Err(errno_to_error(rep.errno))
    } else {
        Ok(decode_i64(rep.buf.as_slice()))
    }
}

/// Reads an unsigned 64-bit option into an 8-byte buffer.
fn getsockopt_u64<F: FnOnce(usize, i32, usize) -> OptionReply>(sock: usize, opt: i32, getsockopt: F) -> (r: Result<u64, Error>)
    requires
        get_call_ok(getsockopt, sock, opt, 8),
    ensures
        exists|rep: OptionReply|
            #![trigger getsockopt.ensures((sock, opt, 8usize), rep)]
            getsockopt.ensures((sock, opt, 8usize), rep) && r == u64_result(rep),
{
    let rep = getsockopt(sock, opt, 8);
    if rep.rc == -1 {
        Err(errno_to_error(rep.errno))
    } else {
        Ok(decode_u64(rep.buf.as_slice()))
    }
}

/// Reads a byte-string option into a buffer of the largest size such an
/// option has, and cuts the result to the bytes reported written.
fn getsockopt_bytes<F: FnOnce(usize, i32, usize) -> OptionReply>(sock: usize, opt: i32, getsockopt: F) -> (r: Result<Vec<u8>, Error>)
    requires
        get_call_ok(getsockopt, sock, opt, MAX_OPTION_BYTES),
    ensures
        exists|rep: OptionReply|
            #![trigger getsockopt.ensures((sock, opt, MAX_OPTION_BYTES), rep)]
            getsockopt.ensures((sock, opt, MAX_OPTION_BYTES), rep) && match bytes_result(rep) {
                Ok(v) => r matches Ok(b) && b@ == v,
                Err(e) => r == Err::<Vec<u8>, Error>(e),
            },
{
    let rep = getsockopt(sock, opt, MAX_OPTION_BYTES);
    if rep.rc == -1 {
        Err(errno_to_error(rep.errno))
    } else {
        let ghost whole = rep.buf@;
        let mut value = rep.buf;
        value.truncate(rep.len);
        assert(value@ == whole.subrange(0, rep.len as int));
        Ok(value)
    }
}

/// Writes a native `int` option from its 4 bytes.
fn setsockopt_int<F: FnOnce(usize, i32, &[u8]) -> Status>(sock: usize, opt: i32, value: i32, setsockopt: F) -> (r: Result<(), Error>)
    requires
        set_call_ok(setsockopt, sock, opt, le_bytes_i32(value)),
    ensures
        exists|st: Status| set_answer(setsockopt, sock, opt, le_bytes_i32(value), st) && r == status_result(st),
{
    let bytes = encode_i32(value);
    setsockopt_bytes(sock, opt, bytes.as_slice(), setsockopt)
}

/// Writes a signed 64-bit option from its 8 bytes.
fn setsockopt_i64<F: FnOnce(usize, i32, &[u8]) -> Status>(sock: usize, opt: i32, value: i64, setsockopt: F) -> (r: Result<(), Error>)
    requires
        set_call_ok(setsockopt, sock, opt, le_bytes_i64(value)),
    ensures
        exists|st: Status| set_answer(setsockopt, sock, opt, le_bytes_i64(value), st) && r == status_result(st),
{
    let bytes = encode_i64(value);
    setsockopt_bytes(sock, opt, bytes.as_slice(), setsockopt)
}

/// Writes an unsigned 64-bit option from its 8 bytes.
fn setsockopt_u64<F: FnOnce(usize, i32, &[u8]) -> Status>(sock: usize, opt: i32, value: u64, setsockopt: F) -> (r: Result<(), Error>)
    requires
        set_call_ok(setsockopt, sock, opt, le_bytes_u64(value)),
    ensures
        exists|st: Status| set_answer(setsockopt, sock, opt, le_bytes_u64(value), st) && r == status_result(st),
{
    let bytes = encode_u64(value);
    setsockopt_bytes(sock, opt, bytes.as_slice(), setsockopt)
}

/// Writes an option from a byte buffer, handed to the native layer as it
/// is.
fn setsockopt_bytes<F: FnOnce(usize, i32, &[u8]) -> Status>(sock: usize, opt: i32, value: &[u8], setsockopt: F) -> (r: Result<(), Error>)
    requires
        set_call_ok(setsockopt, sock, opt, value@),
    ensures
        exists|st: Status| set_answer(setsockopt, sock, opt, value@, st) && r == status_result(st),
{
    let st = setsockopt(sock, opt, value);
    check_status(st)
}

/// When the native layer hands back the 4 bytes that setting a native
/// `int` option passed it, reading the option gives the value set.
pub proof fn lemma_int_option_round_trip(v: i32, rep: OptionReply)
    requires
        rep.rc != -1,
        rep.buf@ == le_bytes_i32(v),
    ensures
        int_result(rep) == Ok::<i32, Error>(v),
{
    lemma_i32_round_trip(v);
}

/// When the native layer hands back the 8 bytes that setting a signed
/// 64-bit option passed it, reading the option gives the value set.
pub proof fn lemma_i64_option_round_trip(v: i64, rep: OptionReply)
    requires
        rep.rc != -1,
        rep.buf@ == le_bytes_i64(v),
    ensures
        i64_result(rep) == Ok::<i64, Error>(v),
{
    lemma_i64_round_trip(v);
}

/// When the native layer hands back the 8 bytes that setting an unsigned
/// 64-bit option passed it, reading the option gives the value set.
pub proof fn lemma_u64_option_round_trip(v: u64, rep: OptionReply)
    requires
        rep.rc != -1,
        rep.buf@ == le_bytes_u64(v),
    ensures
        u64_result(rep) == Ok::<u64, Error>(v),
{
    lemma_u64_round_trip(v);
}

/// When the native layer hands back the bytes that setting a flag passed
/// it, reading the flag gives the value set.
pub proof fn lemma_flag_option_round_trip(v: bool, rep: OptionReply)
    requires
        rep.rc != -1,
        rep.buf@ == le_bytes_i64(
            if v {
                1i64
            } else {
                0i64
            },
        ),
    ensures
        flag_result(rep) == Ok::<bool, Error>(v),
{
    lemma_i64_round_trip(1i64);
    lemma_i64_round_trip(0i64);
}

/// When the native layer reports as written the bytes that setting a
/// byte-string option passed it, reading the option gives those bytes.
pub proof fn lemma_bytes_option_round_trip(v: Seq<u8>, rep: OptionReply)
    requires
        rep.rc != -1,
        rep.len as int == v.len(),
        rep.buf@.subrange(0, rep.len as int) == v,
    ensures
        bytes_result(rep) == Ok::<Seq<u8>, Error>(v),
{
}

/// A socket reports the type whose code the native layer holds for it: the
/// code it was created with gives back that type.
pub proof fn lemma_socket_type_reported(t: SocketType, rep: OptionReply)
    requires
        rep.rc != -1,
        rep.buf@ == le_bytes_i32(socket_type_code(t)),
    ensures
        type_result(rep) == Ok::<SocketType, Error>(t),
{
    lemma_i32_round_trip(socket_type_code(t));
}

/// Closing a socket twice succeeds both times when the first native close
/// succeeds, and the second call makes no native close.
pub proof fn lemma_close_idempotent(
    s0: Socket,
    s1: Socket,
    s2: Socket,
    c1: Option<Status>,
    c2: Option<Status>,
    r1: Result<(), Error>,
    r2: Result<(), Error>,
)
    requires
        close_step(s0, s1, c1, r1),
        close_step(s1, s2, c2, r2),
        c1 matches Some(st) ==> st.rc != -1,
    ensures
        r1 is Ok,
        r2 is Ok,
        c2 is None,
        s2 == s1,
{
}

} // verus!
