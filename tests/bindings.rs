use std::cell::{Cell, RefCell};
use zmq::codec::{decode_i32, decode_i64, decode_u64, encode_i32, encode_i64, encode_u64};
use zmq::{
    errno_to_error, init, Constants, Context, Error, HandleReply, Message, OptionReply, PollItem,
    RecvReply, Socket, SocketType, Status, POLLIN, POLLOUT, SNDMORE,
};

const CTX: usize = 0x1000;
const SOCK: usize = 0x2000;
const OK: Status = Status { rc: 0, errno: 0 };

fn context() -> Context {
    init(1, |n| {
        assert_eq!(n, 1);
        HandleReply { handle: CTX, errno: 0 }
    })
    .unwrap()
}

fn socket(ctx: &Context, t: SocketType, code: i32) -> Socket {
    ctx.socket(t, |c, k| {
        assert_eq!((c, k), (CTX, code));
        HandleReply { handle: SOCK, errno: 0 }
    })
    .unwrap()
}

fn answer(bytes: Vec<u8>, len: usize) -> OptionReply {
    OptionReply { rc: 0, errno: 0, buf: bytes, len }
}

fn failure(e: Error) -> OptionReply {
    OptionReply { rc: -1, errno: e.to_raw(), buf: vec![], len: 0 }
}

#[test]
fn int_getter_asks_for_its_option_and_decodes() {
    let ctx = context();
    let s = socket(&ctx, SocketType::PAIR, 0);
    let r = s.get_sndhwm(|h, opt, size| {
        assert_eq!((h, opt, size), (SOCK, 23, 4));
        answer(vec![42, 0, 0, 0], 4)
    });
    assert_eq!(r, Ok(42));
    assert_eq!(s.get_linger(|_, opt, _| { assert_eq!(opt, 17); answer(vec![255; 4], 4) }), Ok(-1));
    assert_eq!(s.get_events(|_, opt, size| { assert_eq!((opt, size), (15, 4)); answer(vec![3, 0, 0, 0], 4) }), Ok(3));
}

#[test]
fn wide_getters_decode() {
    let ctx = context();
    let s = socket(&ctx, SocketType::PUB, 1);
    assert_eq!(
        s.get_affinity(|_, opt, size| {
            assert_eq!((opt, size), (4, 8));
            answer(vec![8, 7, 6, 5, 4, 3, 2, 1], 8)
        }),
        Ok(0x0102_0304_0506_0708)
    );
    assert_eq!(s.get_maxmsgsize(|_, opt, _| { assert_eq!(opt, 22); answer(encode_i64(-5), 8) }), Ok(-5));
    assert_eq!(s.get_fd(|_, opt, _| { assert_eq!(opt, 14); answer(encode_i64(9), 8) }), Ok(9));
    assert_eq!(s.get_rcvmore(|_, opt, _| { assert_eq!(opt, 13); answer(encode_i64(1), 8) }), Ok(true));
    assert_eq!(s.get_mcast_loop(|_, _, _| answer(encode_i64(0), 8)), Ok(false));
}

#[test]
fn getter_failure_is_translated() {
    let ctx = context();
    let s = socket(&ctx, SocketType::PAIR, 0);
    assert_eq!(s.get_rcvhwm(|_, _, _| failure(Error::ETERM)), Err(Error::ETERM));
    assert_eq!(s.get_rate(|_, _, _| failure(Error::ENOTSOCK)), Err(Error::ENOTSOCK));
    assert_eq!(s.get_identity(|_, _, _| failure(Error::EFSM)), Err(Error::EFSM));
}

#[test]
fn identity_is_cut_to_bytes_written() {
    let ctx = context();
    let s = socket(&ctx, SocketType::PAIR, 0);
    let r = s.get_identity(|_, opt, size| {
        assert_eq!((opt, size), (5, 255));
        let mut buf = vec![0u8; 255];
        buf[..3].copy_from_slice(b"abc");
        answer(buf, 3)
    });
    assert_eq!(r, Ok(b"abc".to_vec()));
}

#[test]
fn setters_pass_exact_bytes() {
    let ctx = context();
    let s = socket(&ctx, SocketType::SUB, 2);
    let seen = RefCell::new(Vec::new());
    let record = |h: usize, opt: i32, b: &[u8]| {
        assert_eq!(h, SOCK);
        seen.borrow_mut().push((opt, b.to_vec()));
        OK
    };
    s.set_sndhwm(1000, record).unwrap();
    s.set_maxmsgsize(-1, record).unwrap();
    s.set_affinity(3, record).unwrap();
    s.set_subscribe(b"topic", record).unwrap();
    s.set_unsubscribe(b"", record).unwrap();
    s.set_mcast_loop(true, record).unwrap();
    s.set_linger(0, record).unwrap();
    assert_eq!(
        seen.into_inner(),
        vec![
            (23, vec![0xe8, 0x03, 0, 0]),
            (22, vec![255; 8]),
            (4, vec![3, 0, 0, 0, 0, 0, 0, 0]),
            (6, b"topic".to_vec()),
            (7, vec![]),
            (10, vec![1, 0, 0, 0, 0, 0, 0, 0]),
            (17, vec![0, 0, 0, 0]),
        ]
    );
    let fail = |_: usize, _: i32, _: &[u8]| Status { rc: -1, errno: Error::ENOTSUP.to_raw() };
    assert_eq!(s.set_rcvbuf(1, fail), Err(Error::ENOTSUP));
}

#[test]
fn option_round_trip_through_native_store() {
    let ctx = context();
    let s = socket(&ctx, SocketType::PAIR, 0);
    let store = RefCell::new(Vec::new());
    let set = |_: usize, _: i32, b: &[u8]| {
        *store.borrow_mut() = b.to_vec();
        OK
    };
    let get = |_: usize, _: i32, size: usize| {
        let v = store.borrow().clone();
        let len = v.len();
        let mut buf = v;
        buf.resize(size, 0);
        answer(buf, len)
    };
    s.set_rcvhwm(-77, set).unwrap();
    assert_eq!(s.get_rcvhwm(get), Ok(-77));
    s.set_recovery_ivl(i64::MIN, set).unwrap();
    assert_eq!(s.get_recovery_ivl(get), Ok(i64::MIN));
    s.set_sndbuf(u64::MAX, set).unwrap();
    assert_eq!(s.get_sndbuf(get), Ok(u64::MAX));
    s.set_identity(&[7u8; 255], set).unwrap();
    assert_eq!(s.get_identity(get), Ok(vec![7u8; 255]));
    s.set_mcast_loop(false, set).unwrap();
    assert_eq!(s.get_mcast_loop(get), Ok(false));
}

#[test]
fn socket_type_is_read_from_native_code() {
    let ctx = context();
    let s = socket(&ctx, SocketType::DEALER, 5);
    let get = |_: usize, opt: i32, _: usize| {
        assert_eq!(opt, 16);
        answer(encode_i32(5), 4)
    };
    assert_eq!(s.get_socket_type(get), Ok(SocketType::DEALER));
    s.set_backlog(3, |_, _, _| OK).unwrap();
    assert_eq!(s.get_socket_type(get), Ok(SocketType::DEALER));
    assert_eq!(s.get_socket_type(|_, _, _| failure(Error::ETERM)), Err(Error::ETERM));
}

#[test]
fn close_is_idempotent() {
    let ctx = context();
    let mut s = socket(&ctx, SocketType::PAIR, 0);
    let calls = Cell::new(0);
    let close = |h: usize| {
        assert_eq!(h, SOCK);
        calls.set(calls.get() + 1);
        OK
    };
    assert!(!s.closed());
    assert_eq!(s.close(close), Ok(()));
    assert_eq!(s.close(close), Ok(()));
    assert_eq!(s.close_final(close), Ok(()));
    assert_eq!(calls.get(), 1);
    assert!(s.closed());
}

#[test]
fn close_failure_is_reported_once() {
    let ctx = context();
    let mut s = socket(&ctx, SocketType::PAIR, 0);
    let fail = |_: usize| Status { rc: -1, errno: Error::ENOTSOCK.to_raw() };
    assert_eq!(s.close(fail), Err(Error::ENOTSOCK));
    assert_eq!(s.close(fail), Ok(()));
    let t = socket(&ctx, SocketType::PAIR, 0);
    assert_eq!(t.close_final(fail), Err(Error::ENOTSOCK));
}

#[test]
fn message_round_trip() {
    for payload in [vec![], vec![9u8], (0..70000u32).map(|i| (i % 251) as u8).collect::<Vec<u8>>()] {
        let m = Message::init_with(&payload);
        assert_eq!(m.with_bytes(|b| b.to_vec()), payload);
        assert_eq!(m.to_bytes(), payload);
    }
    assert_eq!(Message::new().to_bytes(), Vec::<u8>::new());
}

#[test]
fn message_text() {
    let m = Message::init_with("héllo".as_bytes());
    assert_eq!(m.to_str(), Some("héllo".to_string()));
    assert_eq!(m.with_str(|s| s.chars().count()), Some(5));
    let bad = Message::init_with(&[0xff, 0xfe]);
    assert_eq!(bad.to_str(), None);
    assert_eq!(bad.with_str(|s| s.len()), None);
}

#[test]
fn send_hands_a_copy_with_flags() {
    let ctx = context();
    let s = socket(&ctx, SocketType::PAIR, 0);
    let r = s.send(b"head", SNDMORE, |h, m: Message, flags| {
        assert_eq!((h, flags), (SOCK, 2));
        assert_eq!(m.to_bytes(), b"head".to_vec());
        OK
    });
    assert_eq!(r, Ok(()));
    let r = s.send_str("hello", 0, |_, m: Message, flags| {
        assert_eq!(flags, 0);
        assert_eq!(m.to_bytes(), b"hello".to_vec());
        Status { rc: -1, errno: Error::EFSM.to_raw() }
    });
    assert_eq!(r, Err(Error::EFSM));
}

#[test]
fn recv_gives_the_payload() {
    let ctx = context();
    let s = socket(&ctx, SocketType::PAIR, 0);
    let hello = |h: usize, flags: i32| {
        assert_eq!((h, flags), (SOCK, 1));
        RecvReply { rc: 5, errno: 0, payload: b"hello".to_vec() }
    };
    assert_eq!(s.recv_str(1, hello), Ok(Some("hello".to_string())));
    assert_eq!(s.recv_bytes(1, hello), Ok(b"hello".to_vec()));
    assert_eq!(s.recv(1, hello).unwrap().to_bytes(), b"hello".to_vec());
    let bad = |_: usize, _: i32| RecvReply { rc: 2, errno: 0, payload: vec![0xc3, 0x28] };
    assert_eq!(s.recv_str(0, bad), Ok(None));
    let fail = |_: usize, _: i32| RecvReply { rc: -1, errno: Error::ETERM.to_raw(), payload: vec![] };
    assert!(matches!(s.recv(0, fail), Err(Error::ETERM)));
}

#[test]
fn endpoints_are_passed_through() {
    let ctx = context();
    let s = socket(&ctx, SocketType::PAIR, 0);
    assert_eq!(s.bind("inproc://a", |h, e| { assert_eq!((h, e), (SOCK, "inproc://a")); OK }), Ok(()));
    let refused = |_: usize, e: &str| {
        assert_eq!(e, "not an endpoint");
        Status { rc: -1, errno: Error::EPROTONOSUPPORT.to_raw() }
    };
    assert_eq!(s.connect("not an endpoint", refused), Err(Error::EPROTONOSUPPORT));
    assert_eq!(
        s.bind("tcp://*:1", |_, _| Status { rc: -1, errno: Error::EADDRINUSE.to_raw() }),
        Err(Error::EADDRINUSE)
    );
}

#[test]
fn context_lifecycle() {
    assert!(matches!(
        init(-1, |_| HandleReply { handle: 0, errno: Error::EMTHREAD.to_raw() }),
        Err(Error::EMTHREAD)
    ));
    let ctx = context();
    assert!(matches!(
        ctx.socket(SocketType::REP, |_, k| {
            assert_eq!(k, 4);
            HandleReply { handle: 0, errno: Error::ETERM.to_raw() }
        }),
        Err(Error::ETERM)
    ));
    assert_eq!(ctx.term(|c| { assert_eq!(c, CTX); OK }), Ok(()));
    assert_eq!(ctx.term(|_| Status { rc: -1, errno: Error::ETERM.to_raw() }), Err(Error::ETERM));
}

#[test]
fn poll_items() {
    let ctx = context();
    let s = socket(&ctx, SocketType::PAIR, 0);
    let item = s.poll_item(POLLIN);
    assert_eq!(item, PollItem { socket: SOCK, fd: 0, events: POLLIN, revents: 0 });
    assert!(!item.saw(POLLIN));
    let mut fd = PollItem::for_fd(4, POLLIN | POLLOUT);
    assert_eq!(fd.socket, 0);
    fd.revents = POLLOUT;
    assert!(fd.saw(POLLOUT));
    assert!(!fd.saw(POLLIN));
}

#[test]
fn constants_codes() {
    assert_eq!(Constants::ZMQ_SNDHWM.to_raw(), 23);
    assert_eq!(Constants::ZMQ_HAUSNUMERO.to_raw(), 156384712);
    assert_eq!(Constants::from_raw(129), Some(Constants::ZMQ_MSG_MASK));
    assert_eq!(Constants::from_raw(25), None);
    assert_eq!(SocketType::XSUB.to_raw(), 10);
    assert_eq!(SocketType::from_raw(6), Some(SocketType::ROUTER));
    assert_eq!(SocketType::from_raw(11), None);
}

#[test]
fn error_codes() {
    assert_eq!(Error::ENOTSUP.to_raw(), 156384713);
    assert_eq!(Error::EMTHREAD.to_raw(), 156384766);
    assert_eq!(errno_to_error(156384765), Error::ETERM);
    assert_eq!(errno_to_error(156384721), Error::ENOTSOCK);
    assert_eq!(errno_to_error(156384763), Error::EFSM);
}

#[test]
fn codec_values() {
    assert_eq!(encode_i32(1), vec![1, 0, 0, 0]);
    assert_eq!(encode_i32(-1), vec![255, 255, 255, 255]);
    assert_eq!(encode_u64(0x0102_0304_0506_0708), vec![8, 7, 6, 5, 4, 3, 2, 1]);
    assert_eq!(encode_i64(-2), vec![254, 255, 255, 255, 255, 255, 255, 255]);
    assert_eq!(decode_i32(&[0x78, 0x56, 0x34, 0x12]), 0x1234_5678);
    assert_eq!(decode_u64(&[1, 0, 0, 0, 0, 0, 0, 0x80]), 0x8000_0000_0000_0001);
    assert_eq!(decode_i64(&encode_i64(i64::MIN)), i64::MIN);
}
