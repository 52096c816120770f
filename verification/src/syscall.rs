//! Requests to the system, its replies, and the operations between them.

use libc::c_int;
use vstd::prelude::*;

use crate::addr::{IpMreq, Ipv6Mreq, SockAddr};
use crate::error::Error;
use crate::target::Target;
use crate::time::{Duration, Linger, Timeval};

verus! {

/// What a socket option is read as.
#[derive(Clone, Copy, Debug, PartialEq, Eq, Structural)]
pub enum OptKind {
    Int,
    Timeval,
    Linger,
    InAddr,
}

/// The value of a socket option.
#[derive(Clone, Copy, Debug, PartialEq, Eq)]
pub enum OptValue {
    Int(c_int),
    Timeval(Timeval),
    Linger(Linger),
    InAddr(u32),
    IpMreq(IpMreq),
    Ipv6Mreq(Ipv6Mreq),
}

/// Something to be done outside of this library.
///
/// The variants named after a system call are that call.  `room` is the number
/// of bytes provided for an address that the call writes.
#[derive(Clone, Copy, Debug)]
pub enum Request<'a> {
    Socket { family: c_int, ty: c_int, protocol: c_int },
    SocketPair { family: c_int, ty: c_int, protocol: c_int },
    Bind { fd: c_int, addr: &'a SockAddr },
    Listen { fd: c_int, backlog: c_int },
    Connect { fd: c_int, addr: &'a SockAddr },
    Accept { fd: c_int, room: u32 },
    Accept4 { fd: c_int, room: u32, flags: c_int },
    GetSockName { fd: c_int, room: u32 },
    GetPeerName { fd: c_int, room: u32 },
    /// `arg` is absent where the command takes none.
    Fcntl { fd: c_int, cmd: c_int, arg: Option<c_int> },
    Shutdown { fd: c_int, how: c_int },
    /// At most `len` bytes into the caller's buffer.
    Read { fd: c_int, len: usize },
    Recv { fd: c_int, len: usize, flags: c_int },
    RecvFrom { fd: c_int, len: usize, flags: c_int, room: u32 },
    Send { fd: c_int, data: &'a [u8], flags: c_int },
    SendTo { fd: c_int, data: &'a [u8], flags: c_int, addr: &'a SockAddr },
    GetSockOpt { fd: c_int, level: c_int, name: c_int, kind: OptKind },
    SetSockOpt { fd: c_int, level: c_int, name: c_int, value: OptValue },
    /// On the one descriptor.
    Poll { fd: c_int, events: i16, timeout: c_int },
    Close { fd: c_int },
    /// Take the time that `Elapsed` counts from.
    StartClock,
    /// Tell the time that has passed since `StartClock`.
    Elapsed,
    /// Remember, for every operation to come, that a descriptor cannot be
    /// duplicated and marked in one call.
    NoteDupCloexecFailed,
}

/// What came of a `poll` on one descriptor.
#[derive(Clone, Copy, Debug, PartialEq, Eq, Structural)]
pub enum Polled {
    /// The call failed with this code.
    Failed { code: c_int },
    /// The call ended with this many descriptors ready, and these events on
    /// the one.
    Ready { count: c_int, revents: i16 },
}

/// What came of a request; an error is the code that the system left.
#[derive(Debug)]
pub enum Reply {
    /// Of a call that returns a descriptor, a set of flags, or only success.
    Code(Result<c_int, c_int>),
    Pair(Result<(c_int, c_int), c_int>),
    Addr(Result<SockAddr, c_int>),
    Accepted(Result<(c_int, SockAddr), c_int>),
    Count(Result<isize, c_int>),
    CountFrom(Result<(isize, SockAddr), c_int>),
    Opt(Result<OptValue, c_int>),
    Polled(Polled),
    Elapsed(Duration),
    Done,
}

/// The kind of an option value that can be read.
pub open spec fn kind_of(value: OptValue) -> Option<OptKind> {
    match value {
        OptValue::Int(_) => Some(OptKind::Int),
        OptValue::Timeval(_) => Some(OptKind::Timeval),
        OptValue::Linger(_) => Some(OptKind::Linger),
        OptValue::InAddr(_) => Some(OptKind::InAddr),
        _ => None,
    }
}

/// `reply` is of the form that `request` is answered in.
pub open spec fn answers(request: Request, reply: Reply) -> bool {
    match request {
        Request::SocketPair { .. } => reply is Pair,
        Request::GetSockName { .. } | Request::GetPeerName { .. } => {
            reply matches Reply::Addr(r) && (r matches Ok(addr) ==> addr.wf())
        },
        Request::Accept { .. } | Request::Accept4 { .. } => {
            reply matches Reply::Accepted(r) && (r matches Ok((fd, addr)) ==> addr.wf())
        },
        Request::Read { .. } | Request::Recv { .. } | Request::Send { .. }
        | Request::SendTo { .. } => reply is Count,
        Request::RecvFrom { .. } => {
            reply matches Reply::CountFrom(r) && (r matches Ok((n, addr)) ==> addr.wf())
        },
        Request::GetSockOpt { kind, .. } => {
            &&& reply matches Reply::Opt(r)
            &&& r matches Ok(value) ==> kind_of(value) == Some(kind)
            &&& r matches Ok(OptValue::Timeval(raw)) ==> crate::time::readable(raw)
        },
        Request::Poll { .. } => reply is Polled,
        Request::StartClock | Request::NoteDupCloexecFailed => reply is Done,
        Request::Elapsed => reply matches Reply::Elapsed(d) && d.wf(),
        _ => reply is Code,
    }
}

/// Where an operation stands: at a request, with the state to go on from, or
/// at its end.
#[derive(Debug)]
pub enum Step<'a, S, T> {
    Call(Request<'a>, S),
    Done(Result<T, Error>),
}

/// The state of an operation that waits for a reply.
pub trait Operation<'a>: Sized {
    /// What the operation gives in the end.
    type Output;

    /// The state can go on from `reply`.
    spec fn accepts(self, reply: Reply) -> bool;

    /// Where the operation stands after `reply`.
    spec fn next(self, target: Target, reply: Reply) -> Step<'a, Self, Self::Output>;

    /// Goes on from `reply`.  Whatever answers the next request is a reply that
    /// the next state can go on from.
    fn resume(self, target: &Target, reply: Reply) -> (step: Step<'a, Self, Self::Output>)
        requires
            self.accepts(reply),
        ensures
            step == self.next(*target, reply),
            step matches Step::Call(request, state) ==> forall|r: Reply| #[trigger]
                answers(request, r) ==> state.accepts(r),
    ;
}

/// The operation asks for `request`, and goes on from `state`.
pub open spec fn asks<'a, S: Operation<'a>>(
    step: Step<'a, S, S::Output>,
    request: Request<'a>,
    state: S,
) -> bool {
    step == Step::<'a, S, S::Output>::Call(request, state)
}

/// The operation is at its end, with this result.
pub open spec fn ends<'a, S: Operation<'a>>(
    step: Step<'a, S, S::Output>,
    result: Result<S::Output, Error>,
) -> bool {
    step == Step::<'a, S, S::Output>::Done(result)
}

/// The request to read an option.
pub open spec fn get_opt<'a>(fd: c_int, level: c_int, name: c_int, kind: OptKind) -> Request<'a> {
    Request::GetSockOpt { fd, level, name, kind }
}

/// The request to write an option.
pub open spec fn set_opt<'a>(fd: c_int, level: c_int, name: c_int, value: OptValue) -> Request<
    'a,
> {
    Request::SetSockOpt { fd, level, name, value }
}

/// The requests that an operation makes when it is given `replies` in turn,
/// and its result if it ends.
pub open spec fn run<'a, S: Operation<'a>>(
    target: Target,
    step: Step<'a, S, S::Output>,
    replies: Seq<Reply>,
) -> (Seq<Request<'a>>, Option<Result<S::Output, Error>>)
    decreases replies.len(),
{
    match step {
        Step::Done(result) => (seq![], Some(result)),
        Step::Call(request, state) => if replies.len() == 0 {
            (seq![request], None)
        } else {
            let rest = run(target, state.next(target, replies[0]), replies.skip(1));
            (seq![request] + rest.0, rest.1)
        },
    }
}

/// Each of `replies` answers the request that it comes after.
pub open spec fn answered<'a, S: Operation<'a>>(
    target: Target,
    step: Step<'a, S, S::Output>,
    replies: Seq<Reply>,
) -> bool
    decreases replies.len(),
{
    match step {
        Step::Done(_) => replies.len() == 0,
        Step::Call(request, state) => replies.len() > 0 ==> {
            &&& answers(request, replies[0])
            &&& answered(target, state.next(target, replies[0]), replies.skip(1))
        },
    }
}

/// The result of a system call that returned `res` and left `errno`: a call
/// fails by returning -1.
pub fn syscall(res: c_int, errno: c_int) -> (r: Result<c_int, c_int>)
    ensures
        r == (if res == -1 { Err(errno) } else { Ok::<c_int, c_int>(res) }),
{
    if res == -1 {
        Err(errno)
    } else {
        Ok(res)
    }
}

/// As [`syscall`], for a call that returns a number of bytes.
pub fn syscall_len(res: isize, errno: c_int) -> (r: Result<isize, c_int>)
    ensures
        r == (if res == -1 { Err(errno) } else { Ok::<isize, c_int>(res) }),
{
    if res == -1 {
        Err(errno)
    } else {
        Ok(res)
    }
}

/// As [`syscall`], for a `poll` that left `revents` on its one descriptor.
pub fn syscall_poll(res: c_int, errno: c_int, revents: i16) -> (polled: Polled)
    ensures
        polled == (if res == -1 {
            Polled::Failed { code: errno }
        } else {
            Polled::Ready { count: res, revents }
        }),
{
    match syscall(res, errno) {
        Err(code) => Polled::Failed { code },
        Ok(count) => Polled::Ready { count, revents },
    }
}

/// The code of an accepted [`Reply::Code`].
pub(crate) fn code_of(reply: Reply) -> (r: Result<c_int, c_int>)
    requires
        reply is Code,
    ensures
        reply == Reply::Code(r),
{
    match reply {
        Reply::Code(r) => r,
        _ => Err(0),
    }
}

/// The value of an accepted [`Reply::Opt`].
pub(crate) fn opt_of(reply: Reply) -> (r: Result<OptValue, c_int>)
    requires
        reply is Opt,
    ensures
        reply == Reply::Opt(r),
{
    match reply {
        Reply::Opt(r) => r,
        _ => Err(0),
    }
}

} // verus!
