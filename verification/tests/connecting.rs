use libc::c_int;
use socket2::addr::SockAddr;
use socket2::error::{Error, ErrorKind};
use socket2::socket::Socket;
use socket2::syscall::{Operation, OptKind, OptValue, Polled, Reply, Request, Step};
use socket2::target::Target;
use socket2::time::Duration;

fn addr() -> SockAddr {
    SockAddr::from_raw_parts(vec![2, 0, 0, 80, 127, 0, 0, 1], 8)
}

fn ok(n: c_int) -> Reply {
    Reply::Code(Ok(n))
}

fn err(e: c_int) -> Reply {
    Reply::Code(Err(e))
}

fn elapsed(secs: u64, nanos: u32) -> Reply {
    Reply::Elapsed(Duration::new(secs, nanos))
}

fn ready(count: c_int, revents: i16) -> Reply {
    Reply::Polled(Polled::Ready { count, revents })
}

fn failed(code: c_int) -> Reply {
    Reply::Polled(Polled::Failed { code })
}

/// The replies up to a connection that is under way, and those that follow.
fn under_way(more: Vec<Reply>) -> Vec<Reply> {
    let mut all = vec![ok(2), ok(0), err(libc::EINPROGRESS), ok(2 | libc::O_NONBLOCK), ok(0)];
    all.push(Reply::Done);
    all.extend(more);
    all
}

/// Connects socket 3 on the replies; tells what was asked for, and the result.
fn connect(timeout: Duration, replies: Vec<Reply>) -> (Vec<String>, Result<(), Error>) {
    let target = Target::linux();
    let addr = addr();
    let socket = Socket::from_fd(3);
    let mut step = socket.connect_timeout(&target, &addr, timeout);
    let mut asked = vec![];
    let mut replies = replies.into_iter();
    loop {
        match step {
            Step::Done(result) => {
                assert!(replies.next().is_none());
                return (asked, result);
            }
            Step::Call(request, state) => {
                asked.push(format!("{:?}", request));
                step = state.resume(&target, replies.next().expect("no reply is left"));
            }
        }
    }
}

fn said(requests: Vec<Request<'_>>) -> Vec<String> {
    requests.iter().map(|r| format!("{:?}", r)).collect()
}

fn get<'a>() -> Request<'a> {
    Request::Fcntl { fd: 3, cmd: libc::F_GETFL, arg: None }
}

fn set<'a>(flags: c_int) -> Request<'a> {
    Request::Fcntl { fd: 3, cmd: libc::F_SETFL, arg: Some(flags) }
}

fn poll<'a>(timeout: c_int) -> Request<'a> {
    Request::Poll { fd: 3, events: libc::POLLOUT, timeout }
}

#[test]
fn a_connection_made_at_once() {
    let replies = vec![ok(2), ok(0), ok(0), ok(2 | libc::O_NONBLOCK), ok(0)];
    let (asked, result) = connect(Duration::from_secs(1), replies);
    let addr = addr();
    assert_eq!(
        asked,
        said(vec![
            get(),
            set(2 | libc::O_NONBLOCK),
            Request::Connect { fd: 3, addr: &addr },
            get(),
            set(2),
        ])
    );
    assert_eq!(result, Ok(()));
}

#[test]
fn a_connection_made_in_time() {
    let more = vec![elapsed(0, 0), ready(1, libc::POLLOUT)];
    let (asked, result) = connect(Duration::new(1, 500_000_000), under_way(more));
    assert_eq!(asked[5..], said(vec![Request::StartClock, Request::Elapsed, poll(1_500)]));
    assert_eq!(result, Ok(()));
}

#[test]
fn an_interrupted_wait_goes_on_with_what_is_left() {
    let more = vec![
        elapsed(0, 0),
        failed(libc::EINTR),
        elapsed(0, 600_000_000),
        failed(libc::EINTR),
        elapsed(0, 999_999_999),
        ready(1, libc::POLLOUT),
    ];
    let (asked, result) = connect(Duration::from_secs(1), under_way(more));
    assert_eq!(
        asked[6..],
        said(vec![
            Request::Elapsed,
            poll(1_000),
            Request::Elapsed,
            poll(400),
            Request::Elapsed,
            poll(1),
        ])
    );
    assert_eq!(result, Ok(()));
}

#[test]
fn a_connection_not_made_in_time() {
    let more = vec![elapsed(0, 0), ready(0, 0)];
    let (_, result) = connect(Duration::from_secs(1), under_way(more));
    assert_eq!(result, Err(Error::TimedOut));

    let more = vec![elapsed(1, 0)];
    let (asked, result) = connect(Duration::from_secs(1), under_way(more));
    assert_eq!(asked.len(), 7);
    assert_eq!(result, Err(Error::TimedOut));
    assert_eq!(Error::TimedOut.kind(), Some(ErrorKind::TimedOut));
    assert_eq!(Error::TimedOut.message(), "connection timed out");
}

#[test]
fn a_long_wait_is_cut() {
    let more = vec![elapsed(0, 0), ready(1, libc::POLLOUT)];
    let (asked, _) = connect(Duration::new(u64::MAX, 999_999_999), under_way(more));
    assert_eq!(asked[7..], said(vec![poll(c_int::MAX)]));
}

#[test]
fn a_connection_refused_while_waiting() {
    let hung_up = libc::POLLOUT | libc::POLLERR | libc::POLLHUP;
    let more = vec![elapsed(0, 0), ready(1, hung_up), Reply::Opt(Ok(OptValue::Int(111)))];
    let (asked, result) = connect(Duration::from_secs(1), under_way(more));
    let level = libc::SOL_SOCKET;
    let name = libc::SO_ERROR;
    assert_eq!(
        asked[8..],
        said(vec![Request::GetSockOpt { fd: 3, level, name, kind: OptKind::Int }])
    );
    assert_eq!(result, Err(Error::Os(111)));

    let more = vec![elapsed(0, 0), ready(1, hung_up), Reply::Opt(Ok(OptValue::Int(0)))];
    let (_, result) = connect(Duration::from_secs(1), under_way(more));
    assert_eq!(result, Err(Error::NoErrorSet));
    assert_eq!(Error::NoErrorSet.kind(), Some(ErrorKind::Other));
    assert_eq!(Error::NoErrorSet.message(), "no error set after POLLHUP");

    let more = vec![elapsed(0, 0), ready(1, hung_up), Reply::Opt(Err(9))];
    let (_, result) = connect(Duration::from_secs(1), under_way(more));
    assert_eq!(result, Err(Error::Os(9)));
}

#[test]
fn a_wait_that_fails() {
    let more = vec![elapsed(0, 0), failed(libc::ENOMEM)];
    let (_, result) = connect(Duration::from_secs(1), under_way(more));
    assert_eq!(result, Err(Error::Os(libc::ENOMEM)));
}

#[test]
fn a_connection_refused_at_once_blocks_again_first() {
    let replies = vec![ok(2), ok(0), err(111), ok(2 | libc::O_NONBLOCK), ok(0)];
    let (asked, result) = connect(Duration::from_secs(1), replies);
    assert_eq!(asked[3..], said(vec![get(), set(2)]));
    assert_eq!(result, Err(Error::Os(111)));
}

#[test]
fn flags_that_cannot_be_changed() {
    let (asked, result) = connect(Duration::from_secs(1), vec![err(9)]);
    assert_eq!(asked.len(), 1);
    assert_eq!(result, Err(Error::Os(9)));

    let (asked, result) = connect(Duration::from_secs(1), vec![ok(2), err(1)]);
    assert_eq!(asked.len(), 2);
    assert_eq!(result, Err(Error::Os(1)));

    let replies = vec![ok(2), ok(0), ok(0), ok(2 | libc::O_NONBLOCK), err(1)];
    let (_, result) = connect(Duration::from_secs(1), replies);
    assert_eq!(result, Err(Error::Os(1)));
}

#[test]
fn no_time_at_all_is_refused_once_a_wait_is_needed() {
    let replies = vec![ok(2), ok(0), err(libc::EINPROGRESS), ok(2 | libc::O_NONBLOCK), ok(0)];
    let (asked, result) = connect(Duration::from_secs(0), replies);
    assert_eq!(asked.len(), 5);
    assert_eq!(result, Err(Error::ZeroTimeout));

    let replies = vec![ok(2), ok(0), ok(0), ok(2 | libc::O_NONBLOCK), ok(0)];
    let (_, result) = connect(Duration::from_secs(0), replies);
    assert_eq!(result, Ok(()));
}
