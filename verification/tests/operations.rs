use libc::c_int;
use socket2::addr::SockAddr;
use socket2::error::Error;
use socket2::flags::set_cloexec;
use socket2::socket::{max_len, Shutdown, Socket};
use socket2::syscall::{
    syscall, syscall_len, syscall_poll, Operation, OptKind, OptValue, Polled, Reply, Request, Step,
};
use socket2::target::{Errnos, Fcntl, Target, TargetOs, Types};

const FAMILY: c_int = libc::AF_INET;
const STREAM: c_int = libc::SOCK_STREAM;

/// Linux as it is on most architectures.
fn linux() -> Target {
    let t = Target::linux();
    Target {
        ty: Types { cloexec: 0x8_0000, ..t.ty },
        errno: Errnos { eintr: 4, einval: 22, einprogress: 115, enosys: 38 },
        fcntl: Fcntl { o_nonblock: 0x800, ..t.fcntl },
        ..t
    }
}

/// A system that has to be told not to raise a signal.
fn mac() -> Target {
    Target { os: TargetOs::MacOs, nosigpipe: Some(0x1022), ..linux() }
}

/// A system with nothing of its own.
fn other() -> Target {
    Target { os: TargetOs::Other, ..linux() }
}

/// Runs an operation on the replies, which have to be as many as it asks for,
/// and tells what it asked for.
fn play<'a, S: Operation<'a>>(
    target: &Target,
    mut step: Step<'a, S, S::Output>,
    replies: Vec<Reply>,
) -> (Vec<String>, Result<S::Output, Error>) {
    let mut asked = vec![];
    let mut replies = replies.into_iter();
    loop {
        match step {
            Step::Done(result) => {
                assert!(replies.next().is_none());
                return (asked, result);
            }
            Step::Call(request, state) => {
                asked.push(format!("{:?}", request));
                step = state.resume(target, replies.next().expect("no reply is left"));
            }
        }
    }
}

fn said(requests: Vec<Request<'_>>) -> Vec<String> {
    requests.iter().map(|r| format!("{:?}", r)).collect()
}

fn ok(n: c_int) -> Reply {
    Reply::Code(Ok(n))
}

fn err(e: c_int) -> Reply {
    Reply::Code(Err(e))
}

fn socket<'a>(ty: c_int) -> Request<'a> {
    Request::Socket { family: FAMILY, ty, protocol: 6 }
}

fn get_flags<'a>(fd: c_int) -> Request<'a> {
    Request::Fcntl { fd, cmd: libc::F_GETFD, arg: None }
}

fn set_flags<'a>(fd: c_int, flags: c_int) -> Request<'a> {
    Request::Fcntl { fd, cmd: libc::F_SETFD, arg: Some(flags) }
}

fn silence<'a>(fd: c_int) -> Request<'a> {
    Request::SetSockOpt { fd, level: libc::SOL_SOCKET, name: 0x1022, value: OptValue::Int(1) }
}

fn close<'a>(fd: c_int) -> Request<'a> {
    Request::Close { fd }
}

fn peer() -> SockAddr {
    SockAddr::from_raw_parts(vec![2, 0, 0, 80, 127, 0, 0, 1], 8)
}

#[test]
fn calls_fail_by_minus_one() {
    assert_eq!(syscall(-1, 9), Err(9));
    assert_eq!(syscall(0, 9), Ok(0));
    assert_eq!(syscall(-2, 9), Ok(-2));
    assert_eq!(syscall_len(-1, 9), Err(9));
    assert_eq!(syscall_len(12, 9), Ok(12));
    assert_eq!(syscall_poll(-1, 4, 16), Polled::Failed { code: 4 });
    assert_eq!(syscall_poll(0, 4, 0), Polled::Ready { count: 0, revents: 0 });
    assert_eq!(syscall_poll(1, 4, 20), Polled::Ready { count: 1, revents: 20 });
}

#[test]
fn new_on_linux_is_one_request() {
    let (asked, made) = play(&linux(), Socket::new(&linux(), FAMILY, STREAM, 6), vec![ok(7)]);
    assert_eq!(asked, said(vec![socket(STREAM | 0x8_0000)]));
    assert_eq!(made, Ok(Socket::from_fd(7)));
}

#[test]
fn new_on_an_old_linux_falls_back() {
    let (asked, made) = play(
        &linux(),
        Socket::new(&linux(), FAMILY, STREAM, 6),
        vec![err(22), ok(7), ok(4), ok(0)],
    );
    assert_eq!(
        asked,
        said(vec![socket(STREAM | 0x8_0000), socket(STREAM), get_flags(7), set_flags(7, 5)])
    );
    assert_eq!(made, Ok(Socket::from_fd(7)));
}

#[test]
fn new_fails_with_any_other_error() {
    let (asked, made) = play(&linux(), Socket::new(&linux(), FAMILY, STREAM, 6), vec![err(24)]);
    assert_eq!(asked.len(), 1);
    assert_eq!(made, Err(Error::Os(24)));

    let replies = vec![err(22), err(22)];
    let (asked, made) = play(&linux(), Socket::new(&linux(), FAMILY, STREAM, 6), replies);
    assert_eq!(asked.len(), 2);
    assert_eq!(made, Err(Error::Os(22)));
}

#[test]
fn new_leaves_flags_alone_that_are_set() {
    let replies = vec![ok(7), ok(1)];
    let (asked, made) = play(&other(), Socket::new(&other(), FAMILY, STREAM, 6), replies);
    assert_eq!(asked, said(vec![socket(STREAM), get_flags(7)]));
    assert_eq!(made, Ok(Socket::from_fd(7)));
}

#[test]
fn new_on_a_mac_keeps_signals_away() {
    let replies = vec![ok(7), ok(0), ok(0), ok(0)];
    let (asked, made) = play(&mac(), Socket::new(&mac(), FAMILY, STREAM, 6), replies);
    assert_eq!(asked, said(vec![socket(STREAM), get_flags(7), set_flags(7, 1), silence(7)]));
    assert_eq!(made, Ok(Socket::from_fd(7)));
}

#[test]
fn new_closes_a_socket_that_it_does_not_hand_out() {
    let replies = vec![ok(7), err(9), err(4)];
    let (asked, made) = play(&other(), Socket::new(&other(), FAMILY, STREAM, 6), replies);
    assert_eq!(asked, said(vec![socket(STREAM), get_flags(7), close(7)]));
    assert_eq!(made, Err(Error::Os(9)));

    let replies = vec![ok(7), ok(0), err(9), ok(0)];
    let (asked, made) = play(&other(), Socket::new(&other(), FAMILY, STREAM, 6), replies);
    assert_eq!(asked, said(vec![socket(STREAM), get_flags(7), set_flags(7, 1), close(7)]));
    assert_eq!(made, Err(Error::Os(9)));

    let replies = vec![ok(7), ok(1), err(22), ok(0)];
    let (asked, made) = play(&mac(), Socket::new(&mac(), FAMILY, STREAM, 6), replies);
    assert_eq!(asked, said(vec![socket(STREAM), get_flags(7), silence(7), close(7)]));
    assert_eq!(made, Err(Error::Os(22)));
}

#[test]
fn pair_marks_both() {
    let replies = vec![Reply::Pair(Ok((7, 8))), ok(0), ok(0), ok(1)];
    let (asked, made) = play(&linux(), Socket::pair(libc::AF_UNIX, STREAM, 0), replies);
    let first = Request::SocketPair { family: libc::AF_UNIX, ty: STREAM, protocol: 0 };
    assert_eq!(asked, said(vec![first, get_flags(7), set_flags(7, 1), get_flags(8)]));
    assert_eq!(made, Ok((Socket::from_fd(7), Socket::from_fd(8))));
}

#[test]
fn pair_on_a_mac_keeps_signals_away() {
    let replies = vec![Reply::Pair(Ok((7, 8))), ok(1), ok(1), ok(0), ok(0)];
    let (asked, made) = play(&mac(), Socket::pair(libc::AF_UNIX, STREAM, 0), replies);
    assert_eq!(asked[1..], said(vec![get_flags(7), get_flags(8), silence(7), silence(8)]));
    assert_eq!(made, Ok((Socket::from_fd(7), Socket::from_fd(8))));
}

#[test]
fn pair_closes_both_when_it_fails() {
    let (asked, made) =
        play(&linux(), Socket::pair(libc::AF_UNIX, STREAM, 0), vec![Reply::Pair(Err(93))]);
    assert_eq!(asked.len(), 1);
    assert_eq!(made, Err(Error::Os(93)));

    let replies = vec![Reply::Pair(Ok((7, 8))), err(9), ok(0), ok(0)];
    let (asked, made) = play(&linux(), Socket::pair(libc::AF_UNIX, STREAM, 0), replies);
    assert_eq!(asked[1..], said(vec![get_flags(7), close(7), close(8)]));
    assert_eq!(made, Err(Error::Os(9)));

    let replies = vec![Reply::Pair(Ok((7, 8))), ok(1), ok(0), err(9), ok(0), ok(0)];
    let (asked, made) = play(&linux(), Socket::pair(libc::AF_UNIX, STREAM, 0), replies);
    assert_eq!(
        asked[1..],
        said(vec![get_flags(7), get_flags(8), set_flags(8, 1), close(7), close(8)])
    );
    assert_eq!(made, Err(Error::Os(9)));

    let replies = vec![Reply::Pair(Ok((7, 8))), ok(1), ok(1), ok(0), err(22), ok(0), ok(0)];
    let (asked, made) = play(&mac(), Socket::pair(libc::AF_UNIX, STREAM, 0), replies);
    assert_eq!(asked[3..], said(vec![silence(7), silence(8), close(7), close(8)]));
    assert_eq!(made, Err(Error::Os(22)));
}

fn duplicate<'a>(cmd: c_int) -> Request<'a> {
    Request::Fcntl { fd: 3, cmd, arg: Some(0) }
}

#[test]
fn try_clone_on_linux_looks_twice() {
    let s = Socket::from_fd(3);
    let (asked, made) = play(&linux(), s.try_clone(&linux(), false), vec![ok(7), ok(1)]);
    assert_eq!(asked, said(vec![duplicate(libc::F_DUPFD_CLOEXEC), get_flags(7)]));
    assert_eq!(made, Ok(Socket::from_fd(7)));
}

#[test]
fn try_clone_elsewhere_is_one_request() {
    let s = Socket::from_fd(3);
    let (asked, made) = play(&other(), s.try_clone(&other(), false), vec![ok(7)]);
    assert_eq!(asked, said(vec![duplicate(libc::F_DUPFD_CLOEXEC)]));
    assert_eq!(made, Ok(Socket::from_fd(7)));
}

#[test]
fn try_clone_notes_what_is_not_supported() {
    let s = Socket::from_fd(3);
    let replies = vec![err(22), Reply::Done, ok(7), ok(0), ok(0)];
    let (asked, made) = play(&other(), s.try_clone(&other(), false), replies);
    assert_eq!(
        asked,
        said(vec![
            duplicate(libc::F_DUPFD_CLOEXEC),
            Request::NoteDupCloexecFailed,
            duplicate(libc::F_DUPFD),
            get_flags(7),
            set_flags(7, 1),
        ])
    );
    assert_eq!(made, Ok(Socket::from_fd(7)));

    let replies = vec![ok(7), ok(1)];
    let (asked, made) = play(&other(), s.try_clone(&other(), true), replies);
    assert_eq!(asked, said(vec![duplicate(libc::F_DUPFD), get_flags(7)]));
    assert_eq!(made, Ok(Socket::from_fd(7)));
}

#[test]
fn try_clone_fails_without_a_leak() {
    let s = Socket::from_fd(3);
    let (asked, made) = play(&linux(), s.try_clone(&linux(), false), vec![err(24)]);
    assert_eq!(asked.len(), 1);
    assert_eq!(made, Err(Error::Os(24)));

    let replies = vec![ok(7), err(9), ok(0)];
    let (asked, made) = play(&linux(), s.try_clone(&linux(), false), replies);
    assert_eq!(asked[1..], said(vec![get_flags(7), close(7)]));
    assert_eq!(made, Err(Error::Os(9)));

    let (asked, made) = play(&linux(), s.try_clone(&linux(), true), vec![err(22)]);
    assert_eq!(asked.len(), 1);
    assert_eq!(made, Err(Error::Os(22)));
}

#[test]
fn accept_on_linux_is_one_request() {
    let s = Socket::from_fd(3);
    let replies = vec![Reply::Accepted(Ok((7, peer())))];
    let (asked, made) = play(&linux(), s.accept(&linux()), replies);
    assert_eq!(asked, said(vec![Request::Accept4 { fd: 3, room: 128, flags: 0x8_0000 }]));
    assert_eq!(made, Ok((Socket::from_fd(7), peer())));
}

#[test]
fn accept_on_an_old_linux_falls_back() {
    let s = Socket::from_fd(3);
    let replies =
        vec![Reply::Accepted(Err(38)), Reply::Accepted(Ok((7, peer()))), ok(0), ok(0)];
    let (asked, made) = play(&linux(), s.accept(&linux()), replies);
    assert_eq!(
        asked,
        said(vec![
            Request::Accept4 { fd: 3, room: 128, flags: 0x8_0000 },
            Request::Accept { fd: 3, room: 128 },
            get_flags(7),
            set_flags(7, 1),
        ])
    );
    assert_eq!(made, Ok((Socket::from_fd(7), peer())));
}

#[test]
fn accept_fails_without_a_leak() {
    let s = Socket::from_fd(3);
    let (asked, made) = play(&linux(), s.accept(&linux()), vec![Reply::Accepted(Err(11))]);
    assert_eq!(asked.len(), 1);
    assert_eq!(made, Err(Error::Os(11)));

    let (asked, made) = play(&other(), s.accept(&other()), vec![Reply::Accepted(Err(38))]);
    assert_eq!(asked, said(vec![Request::Accept { fd: 3, room: 128 }]));
    assert_eq!(made, Err(Error::Os(38)));

    let replies = vec![Reply::Accepted(Ok((7, peer()))), ok(0), err(9), ok(0)];
    let (asked, made) = play(&other(), s.accept(&other()), replies);
    assert_eq!(asked[1..], said(vec![get_flags(7), set_flags(7, 1), close(7)]));
    assert_eq!(made, Err(Error::Os(9)));
}

#[test]
fn single_calls_are_handed_on() {
    let t = linux();
    let s = Socket::from_fd(3);
    let addr = peer();
    let (asked, made) = play(&t, s.bind(&addr), vec![ok(0)]);
    assert_eq!(asked, said(vec![Request::Bind { fd: 3, addr: &addr }]));
    assert_eq!(made, Ok(()));
    let (asked, made) = play(&t, s.listen(128), vec![err(95)]);
    assert_eq!(asked, said(vec![Request::Listen { fd: 3, backlog: 128 }]));
    assert_eq!(made, Err(Error::Os(95)));
    let (asked, made) = play(&t, s.connect(&addr), vec![err(111)]);
    assert_eq!(asked, said(vec![Request::Connect { fd: 3, addr: &addr }]));
    assert_eq!(made, Err(Error::Os(111)));
}

#[test]
fn addresses_are_handed_on() {
    let t = linux();
    let s = Socket::from_fd(3);
    let (asked, made) = play(&t, s.local_addr(&t), vec![Reply::Addr(Ok(peer()))]);
    assert_eq!(asked, said(vec![Request::GetSockName { fd: 3, room: 128 }]));
    assert_eq!(made, Ok(peer()));
    let (asked, made) = play(&t, s.peer_addr(&t), vec![Reply::Addr(Err(107))]);
    assert_eq!(asked, said(vec![Request::GetPeerName { fd: 3, room: 128 }]));
    assert_eq!(made, Err(Error::Os(107)));
}

#[test]
fn errors_are_taken() {
    let t = linux();
    let s = Socket::from_fd(3);
    let (asked, made) = play(&t, s.take_error(&t), vec![Reply::Opt(Ok(OptValue::Int(0)))]);
    let level = libc::SOL_SOCKET;
    let name = libc::SO_ERROR;
    assert_eq!(asked, said(vec![Request::GetSockOpt { fd: 3, level, name, kind: OptKind::Int }]));
    assert_eq!(made, Ok(None));
    let (_, made) = play(&t, s.take_error(&t), vec![Reply::Opt(Ok(OptValue::Int(111)))]);
    assert_eq!(made, Ok(Some(Error::Os(111))));
    let (_, made) = play(&t, s.take_error(&t), vec![Reply::Opt(Err(9))]);
    assert_eq!(made, Err(Error::Os(9)));
}

#[test]
fn one_flag_is_changed() {
    let t = linux();
    let s = Socket::from_fd(3);
    let get = Request::Fcntl { fd: 3, cmd: libc::F_GETFL, arg: None };
    let set = |flags| Request::Fcntl { fd: 3, cmd: libc::F_SETFL, arg: Some(flags) };

    let (asked, made) = play(&t, s.set_nonblocking(&t, true), vec![ok(2), ok(0)]);
    assert_eq!(asked, said(vec![get, set(0x802)]));
    assert_eq!(made, Ok(()));
    let (asked, made) = play(&t, s.set_nonblocking(&t, false), vec![ok(0x802), ok(0)]);
    assert_eq!(asked, said(vec![get, set(2)]));
    assert_eq!(made, Ok(()));
    let (asked, made) = play(&t, s.set_nonblocking(&t, true), vec![ok(0x802)]);
    assert_eq!(asked, said(vec![get]));
    assert_eq!(made, Ok(()));
    let (asked, made) = play(&t, s.set_nonblocking(&t, false), vec![ok(2)]);
    assert_eq!(asked, said(vec![get]));
    assert_eq!(made, Ok(()));
    let (asked, made) = play(&t, s.set_nonblocking(&t, true), vec![err(9)]);
    assert_eq!(asked.len(), 1);
    assert_eq!(made, Err(Error::Os(9)));
    let (_, made) = play(&t, s.set_nonblocking(&t, true), vec![ok(2), err(1)]);
    assert_eq!(made, Err(Error::Os(1)));
}

#[test]
fn a_descriptor_is_marked() {
    let t = linux();
    let (asked, made) = play(&t, set_cloexec(&t, 3), vec![ok(6), ok(0)]);
    assert_eq!(asked, said(vec![get_flags(3), set_flags(3, 7)]));
    assert_eq!(made, Ok(()));
    let (asked, made) = play(&t, set_cloexec(&t, 3), vec![ok(7)]);
    assert_eq!(asked, said(vec![get_flags(3)]));
    assert_eq!(made, Ok(()));
}

#[test]
fn halves_are_shut_down() {
    let t = linux();
    let s = Socket::from_fd(3);
    for (how, number) in [
        (Shutdown::Read, libc::SHUT_RD),
        (Shutdown::Write, libc::SHUT_WR),
        (Shutdown::Both, libc::SHUT_RDWR),
    ] {
        let (asked, made) = play(&t, s.shutdown(&t, how), vec![ok(0)]);
        assert_eq!(asked, said(vec![Request::Shutdown { fd: 3, how: number }]));
        assert_eq!(made, Ok(()));
    }
    let (_, made) = play(&t, s.shutdown(&t, Shutdown::Both), vec![err(107)]);
    assert_eq!(made, Err(Error::Os(107)));
}

#[test]
fn receiving_is_handed_on() {
    let t = linux();
    let s = Socket::from_fd(3);
    let (asked, made) = play(&t, s.recv(&t, 10, 1), vec![Reply::Count(Ok(4))]);
    assert_eq!(asked, said(vec![Request::Recv { fd: 3, len: 10, flags: 1 }]));
    assert_eq!(made, Ok(4));
    let (asked, made) = play(&t, s.peek(&t, 10), vec![Reply::Count(Err(11))]);
    assert_eq!(asked, said(vec![Request::Recv { fd: 3, len: 10, flags: libc::MSG_PEEK }]));
    assert_eq!(made, Err(Error::Os(11)));
    let replies = vec![Reply::CountFrom(Ok((4, peer())))];
    let (asked, made) = play(&t, s.recv_from(&t, 10, 1), replies);
    assert_eq!(asked, said(vec![Request::RecvFrom { fd: 3, len: 10, flags: 1, room: 128 }]));
    assert_eq!(made, Ok((4, peer())));
    let (asked, made) = play(&t, s.peek_from(&t, 10), vec![Reply::CountFrom(Err(11))]);
    let flags = libc::MSG_PEEK;
    assert_eq!(asked, said(vec![Request::RecvFrom { fd: 3, len: 10, flags, room: 128 }]));
    assert_eq!(made, Err(Error::Os(11)));
    let (asked, made) = play(&t, s.read(&t, 10), vec![Reply::Count(Ok(0))]);
    assert_eq!(asked, said(vec![Request::Read { fd: 3, len: 10 }]));
    assert_eq!(made, Ok(0));
}

#[test]
fn no_more_is_received_than_the_system_takes() {
    assert_eq!(max_len(&linux()), isize::MAX as usize);
    assert_eq!(max_len(&mac()), 0x7fff_fffe);
    let s = Socket::from_fd(3);
    let replies = || vec![Reply::Count(Ok(4))];
    let (asked, _) = play(&mac(), s.recv(&mac(), usize::MAX, 0), replies());
    assert_eq!(asked, said(vec![Request::Recv { fd: 3, len: 0x7fff_fffe, flags: 0 }]));
    let (asked, _) = play(&mac(), s.read(&mac(), 0x7fff_fffe), replies());
    assert_eq!(asked, said(vec![Request::Read { fd: 3, len: 0x7fff_fffe }]));
    let (asked, _) = play(&linux(), s.read(&linux(), usize::MAX), replies());
    assert_eq!(asked, said(vec![Request::Read { fd: 3, len: isize::MAX as usize }]));
}

#[test]
fn sending_is_handed_on() {
    let t = linux();
    let s = Socket::from_fd(3);
    let addr = peer();
    let data: &[u8] = b"hello";
    let (asked, made) = play(&t, s.send(&t, data, 1), vec![Reply::Count(Ok(3))]);
    assert_eq!(asked, said(vec![Request::Send { fd: 3, data, flags: 1 }]));
    assert_eq!(made, Ok(3));
    let (asked, made) = play(&t, s.send_to(&t, data, 1, &addr), vec![Reply::Count(Err(11))]);
    assert_eq!(asked, said(vec![Request::SendTo { fd: 3, data, flags: 1, addr: &addr }]));
    assert_eq!(made, Err(Error::Os(11)));
    let (asked, made) = play(&t, s.write(&t, data), vec![Reply::Count(Ok(5))]);
    assert_eq!(asked, said(vec![Request::Send { fd: 3, data, flags: 0 }]));
    assert_eq!(made, Ok(5));
    let (asked, made) = play(&t, s.flush(), vec![]);
    assert!(asked.is_empty());
    assert_eq!(made, Ok(()));
}

#[test]
fn a_socket_is_its_descriptor() {
    let s = Socket::from_fd(3);
    assert_eq!(s.as_raw_fd(), 3);
    assert_eq!(s.into_raw_fd(), 3);
    let (asked, made) = play(&linux(), Socket::from_fd(3).close(), vec![err(4)]);
    assert_eq!(asked, said(vec![close(3)]));
    assert_eq!(made, Ok(()));
}

#[test]
fn a_socket_tells_what_it_knows() {
    let t = linux();
    let s = Socket::from_fd(3);
    let replies = vec![Reply::Addr(Ok(peer())), Reply::Addr(Err(107))];
    let (asked, made) = play(&t, s.describe(&t), replies);
    assert_eq!(
        asked,
        said(vec![
            Request::GetSockName { fd: 3, room: 128 },
            Request::GetPeerName { fd: 3, room: 128 },
        ])
    );
    let told = made.unwrap();
    assert_eq!((told.fd, told.local_addr, told.peer_addr), (3, Some(peer()), None));

    let replies = vec![Reply::Addr(Err(9)), Reply::Addr(Ok(peer()))];
    let (_, made) = play(&t, s.describe(&t), replies);
    let told = made.unwrap();
    assert_eq!((told.fd, told.local_addr, told.peer_addr), (3, None, Some(peer())));
}
