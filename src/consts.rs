//! Socket types, option tags and flag bits, with their native integer codes.

use vstd::prelude::*;

verus! {

/// Send flag: fail instead of blocking.
pub const DONTWAIT: i32 = 1;

/// Send flag: more parts of the same message follow.
pub const SNDMORE: i32 = 2;

/// Poll event bit: a message can be received.
pub const POLLIN: i16 = 1;

/// Poll event bit: a message can be sent.
pub const POLLOUT: i16 = 2;

/// Poll event bit: an error condition is pending.
pub const POLLERR: i16 = 4;

/// The kind of a socket, fixed when the socket is created.
#[allow(non_camel_case_types, clippy::upper_case_acronyms)]
#[derive(Clone, Copy, Debug, PartialEq, Eq, Structural)]
pub enum SocketType {
    PAIR,
    PUB,
    SUB,
    REQ,
    REP,
    DEALER,
    ROUTER,
    PULL,
    PUSH,
    XPUB,
    XSUB,
}

/// Native code of a socket type.
pub open spec fn socket_type_code(t: SocketType) -> i32 {
    match t {
        SocketType::PAIR => 0,
        SocketType::PUB => 1,
        SocketType::SUB => 2,
        SocketType::REQ => 3,
        SocketType::REP => 4,
        SocketType::DEALER => 5,
        SocketType::ROUTER => 6,
        SocketType::PULL => 7,
        SocketType::PUSH => 8,
        SocketType::XPUB => 9,
        SocketType::XSUB => 10,
    }
}

/// The socket type with a given native code, if there is one.
pub open spec fn socket_type_of_code(raw: i32) -> Option<SocketType> {
    if raw == 0 {
        Some(SocketType::PAIR)
    } else if raw == 1 {
        Some(SocketType::PUB)
    } else if raw == 2 {
        Some(SocketType::SUB)
    } else if raw == 3 {
        Some(SocketType::REQ)
    } else if raw == 4 {
        Some(SocketType::REP)
    } else if raw == 5 {
        Some(SocketType::DEALER)
    } else if raw == 6 {
        Some(SocketType::ROUTER)
    } else if raw == 7 {
        Some(SocketType::PULL)
    } else if raw == 8 {
        Some(SocketType::PUSH)
    } else if raw == 9 {
        Some(SocketType::XPUB)
    } else if raw == 10 {
        Some(SocketType::XSUB)
    } else {
        None
    }
}

/// Mapping a type to its code and back gives the type again.
pub proof fn lemma_socket_type_code_round_trip(t: SocketType)
    ensures
        socket_type_of_code(socket_type_code(t)) == Some(t),
{
}

impl SocketType {
    /// The native code of this socket type.
    pub fn to_raw(&self) -> (r: i32)
        ensures
            r == socket_type_code(*self),
    {
        match self {
            SocketType::PAIR => 0,
            SocketType::PUB => 1,
            SocketType::SUB => 2,
            SocketType::REQ => 3,
            SocketType::REP => 4,
            SocketType::DEALER => 5,
            SocketType::ROUTER => 6,
            SocketType::PULL => 7,
            SocketType::PUSH => 8,
            SocketType::XPUB => 9,
            SocketType::XSUB => 10,
        }
    }

    /// The socket type whose native code is `raw`; `None` for a code that
    /// names no socket type.
    pub fn from_raw(raw: i32) -> (r: Option<SocketType>)
        ensures
            r == socket_type_of_code(raw),
    {
        match raw {
            0 => Some(SocketType::PAIR),
            1 => Some(SocketType::PUB),
            2 => Some(SocketType::SUB),
            3 => Some(SocketType::REQ),
            4 => Some(SocketType::REP),
            5 => Some(SocketType::DEALER),
            6 => Some(SocketType::ROUTER),
            7 => Some(SocketType::PULL),
            8 => Some(SocketType::PUSH),
            9 => Some(SocketType::XPUB),
            10 => Some(SocketType::XSUB),
            _ => None,
        }
    }
}

/// Native option tags and message flag constants.
#[allow(non_camel_case_types)]
#[derive(Clone, Copy, Debug, PartialEq, Eq, Structural)]
pub enum Constants {
    ZMQ_AFFINITY,
    ZMQ_IDENTITY,
    ZMQ_SUBSCRIBE,
    ZMQ_UNSUBSCRIBE,
    ZMQ_RATE,
    ZMQ_RECOVERY_IVL,
    ZMQ_MCAST_LOOP,
    ZMQ_SNDBUF,
    ZMQ_RCVBUF,
    ZMQ_RCVMORE,
    ZMQ_FD,
    ZMQ_EVENTS,
    ZMQ_TYPE,
    ZMQ_LINGER,
    ZMQ_RECONNECT_IVL,
    ZMQ_BACKLOG,
    ZMQ_RECOVERY_IVL_MSEC,
    ZMQ_RECONNECT_IVL_MAX,
    ZMQ_MAXMSGSIZE,
    ZMQ_SNDHWM,
    ZMQ_RCVHWM,
    ZMQ_MAX_VSM_SIZE,
    ZMQ_DELIMITER,
    ZMQ_VSM,
    ZMQ_MSG_MORE,
    ZMQ_MSG_SHARED,
    ZMQ_MSG_MASK,
    ZMQ_HAUSNUMERO,
}

/// Base of the native error codes that have no system counterpart.
pub const HAUSNUMERO: i32 = 156384712;

/// Native value of a constant.
pub open spec fn constant_code(c: Constants) -> i32 {
    match c {
        Constants::ZMQ_AFFINITY => 4,
        Constants::ZMQ_IDENTITY => 5,
        Constants::ZMQ_SUBSCRIBE => 6,
        Constants::ZMQ_UNSUBSCRIBE => 7,
        Constants::ZMQ_RATE => 8,
        Constants::ZMQ_RECOVERY_IVL => 9,
        Constants::ZMQ_MCAST_LOOP => 10,
        Constants::ZMQ_SNDBUF => 11,
        Constants::ZMQ_RCVBUF => 12,
        Constants::ZMQ_RCVMORE => 13,
        Constants::ZMQ_FD => 14,
        Constants::ZMQ_EVENTS => 15,
        Constants::ZMQ_TYPE => 16,
        Constants::ZMQ_LINGER => 17,
        Constants::ZMQ_RECONNECT_IVL => 18,
        Constants::ZMQ_BACKLOG => 19,
        Constants::ZMQ_RECOVERY_IVL_MSEC => 20,
        Constants::ZMQ_RECONNECT_IVL_MAX => 21,
        Constants::ZMQ_MAXMSGSIZE => 22,
        Constants::ZMQ_SNDHWM => 23,
        Constants::ZMQ_RCVHWM => 24,
        Constants::ZMQ_MAX_VSM_SIZE => 30,
        Constants::ZMQ_DELIMITER => 31,
        Constants::ZMQ_VSM => 32,
        Constants::ZMQ_MSG_MORE => 1,
        Constants::ZMQ_MSG_SHARED => 128,
        Constants::ZMQ_MSG_MASK => 129,
        Constants::ZMQ_HAUSNUMERO => 156384712,
    }
}

/// The constant with a given native value, if there is one.
pub open spec fn constant_of_code(raw: i32) -> Option<Constants> {
    if raw == 4 {
        Some(Constants::ZMQ_AFFINITY)
    } else if raw == 5 {
        Some(Constants::ZMQ_IDENTITY)
    } else if raw == 6 {
        Some(Constants::ZMQ_SUBSCRIBE)
    } else if raw == 7 {
        Some(Constants::ZMQ_UNSUBSCRIBE)
    } else if raw == 8 {
        Some(Constants::ZMQ_RATE)
    } else if raw == 9 {
        Some(Constants::ZMQ_RECOVERY_IVL)
    } else if raw == 10 {
        Some(Constants::ZMQ_MCAST_LOOP)
    } else if raw == 11 {
        Some(Constants::ZMQ_SNDBUF)
    } else if raw == 12 {
        Some(Constants::ZMQ_RCVBUF)
    } else if raw == 13 {
        Some(Constants::ZMQ_RCVMORE)
    } else if raw == 14 {
        Some(Constants::ZMQ_FD)
    } else if raw == 15 {
        Some(Constants::ZMQ_EVENTS)
    } else if raw == 16 {
        Some(Constants::ZMQ_TYPE)
    } else if raw == 17 {
        Some(Constants::ZMQ_LINGER)
    } else if raw == 18 {
        Some(Constants::ZMQ_RECONNECT_IVL)
    } else if raw == 19 {
        Some(Constants::ZMQ_BACKLOG)
    } else if raw == 20 {
        Some(Constants::ZMQ_RECOVERY_IVL_MSEC)
    } else if raw == 21 {
        Some(Constants::ZMQ_RECONNECT_IVL_MAX)
    } else if raw == 22 {
        Some(Constants::ZMQ_MAXMSGSIZE)
    } else if raw == 23 {
        Some(Constants::ZMQ_SNDHWM)
    } else if raw == 24 {
        Some(Constants::ZMQ_RCVHWM)
    } else if raw == 30 {
        Some(Constants::ZMQ_MAX_VSM_SIZE)
    } else if raw == 31 {
        Some(Constants::ZMQ_DELIMITER)
    } else if raw == 32 {
        Some(Constants::ZMQ_VSM)
    } else if raw == 1 {
        Some(Constants::ZMQ_MSG_MORE)
    } else if raw == 128 {
        Some(Constants::ZMQ_MSG_SHARED)
    } else if raw == 129 {
        Some(Constants::ZMQ_MSG_MASK)
    } else if raw == 156384712 {
        Some(Constants::ZMQ_HAUSNUMERO)
    } else {
        None
    }
}

/// Mapping a constant to its value and back gives the constant again.
pub proof fn lemma_constant_code_round_trip(c: Constants)
    ensures
        constant_of_code(constant_code(c)) == Some(c),
{
}

impl Constants {
    /// The native value of this constant.
    pub fn to_raw(&self) -> (r: i32)
        ensures
            r == constant_code(*self),
    {
        match self {
            Constants::ZMQ_AFFINITY => 4,
            Constants::ZMQ_IDENTITY => 5,
            Constants::ZMQ_SUBSCRIBE => 6,
            Constants::ZMQ_UNSUBSCRIBE => 7,
            Constants::ZMQ_RATE => 8,
            Constants::ZMQ_RECOVERY_IVL => 9,
            Constants::ZMQ_MCAST_LOOP => 10,
            Constants::ZMQ_SNDBUF => 11,
            Constants::ZMQ_RCVBUF => 12,
            Constants::ZMQ_RCVMORE => 13,
            Constants::ZMQ_FD => 14,
            Constants::ZMQ_EVENTS => 15,
            Constants::ZMQ_TYPE => 16,
            Constants::ZMQ_LINGER => 17,
            Constants::ZMQ_RECONNECT_IVL => 18,
            Constants::ZMQ_BACKLOG => 19,
            Constants::ZMQ_RECOVERY_IVL_MSEC => 20,
            Constants::ZMQ_RECONNECT_IVL_MAX => 21,
            Constants::ZMQ_MAXMSGSIZE => 22,
            Constants::ZMQ_SNDHWM => 23,
            Constants::ZMQ_RCVHWM => 24,
            Constants::ZMQ_MAX_VSM_SIZE => 30,
            Constants::ZMQ_DELIMITER => 31,
            Constants::ZMQ_VSM => 32,
            Constants::ZMQ_MSG_MORE => 1,
            Constants::ZMQ_MSG_SHARED => 128,
            Constants::ZMQ_MSG_MASK => 129,
            Constants::ZMQ_HAUSNUMERO => HAUSNUMERO,
        }
    }

    /// The constant whose native value is `raw`; `None` for a value that
    /// names no constant.
    pub fn from_raw(raw: i32) -> (r: Option<Constants>)
        ensures
            r == constant_of_code(raw),
            r matches Some(c) ==> constant_code(c) == raw,
    {
        let r = match raw {
            4 => Some(Constants::ZMQ_AFFINITY),
            5 => Some(Constants::ZMQ_IDENTITY),
            6 => Some(Constants::ZMQ_SUBSCRIBE),
            7 => Some(Constants::ZMQ_UNSUBSCRIBE),
            8 => Some(Constants::ZMQ_RATE),
            9 => Some(Constants::ZMQ_RECOVERY_IVL),
            10 => Some(Constants::ZMQ_MCAST_LOOP),
            11 => Some(Constants::ZMQ_SNDBUF),
            12 => Some(Constants::ZMQ_RCVBUF),
            13 => Some(Constants::ZMQ_RCVMORE),
            14 => Some(Constants::ZMQ_FD),
            15 => Some(Constants::ZMQ_EVENTS),
            16 => Some(Constants::ZMQ_TYPE),
            17 => Some(Constants::ZMQ_LINGER),
            18 => Some(Constants::ZMQ_RECONNECT_IVL),
            19 => Some(Constants::ZMQ_BACKLOG),
            20 => Some(Constants::ZMQ_RECOVERY_IVL_MSEC),
            21 => Some(Constants::ZMQ_RECONNECT_IVL_MAX),
            22 => Some(Constants::ZMQ_MAXMSGSIZE),
            23 => Some(Constants::ZMQ_SNDHWM),
            24 => Some(Constants::ZMQ_RCVHWM),
            30 => Some(Constants::ZMQ_MAX_VSM_SIZE),
            31 => Some(Constants::ZMQ_DELIMITER),
            32 => Some(Constants::ZMQ_VSM),
            1 => Some(Constants::ZMQ_MSG_MORE),
            128 => Some(Constants::ZMQ_MSG_SHARED),
            129 => Some(Constants::ZMQ_MSG_MASK),
            156384712 => Some(Constants::ZMQ_HAUSNUMERO),
            _ => None,
        };
        r
    }
}

} // verus!
