//! Making sockets and changing flags: the whole talk, on every way that it can
//! go.

use libc::c_int;
use vstd::prelude::*;

use crate::accept::Accept;
use crate::addr::SockAddr;
use crate::duplicate::TryClone;
use crate::error::Error;
use crate::flags::{cloexec_change, set_cloexec, Change, SetFlags};
use crate::open::New;
use crate::pair::Pair;
use crate::socket::Socket;
use crate::syscall::{OptValue, Reply, Request, Step};
use crate::talk::{after, goes, lemma_after_add};
use crate::target::{Target, TargetOs};

verus! {

/// The flags of `fd` are read to be `previous`, and, if the flag to close it on
/// `exec` is not among them, are written with that flag joined.
pub open spec fn marking<'a>(target: Target, fd: c_int, previous: c_int, wrote: c_int) -> Seq<
    (Request<'a>, Reply),
> {
    let get = Request::Fcntl { fd, cmd: target.fcntl.getfd, arg: None };
    let new = previous | target.fcntl.fd_cloexec;
    if new == previous {
        seq![(get, Reply::Code(Ok(previous)))]
    } else {
        seq![
            (get, Reply::Code(Ok(previous))),
            (
                Request::Fcntl { fd, cmd: target.fcntl.setfd, arg: Some(new) },
                Reply::Code(Ok(wrote)),
            ),
        ]
    }
}

/// The system refuses to tell the flags of `fd`; or tells them as `read`, and
/// refuses to join the flag to close it on `exec`.
pub open spec fn not_marking<'a>(
    target: Target,
    fd: c_int,
    read: Option<c_int>,
    error: c_int,
) -> Seq<(Request<'a>, Reply)> {
    let get = Request::Fcntl { fd, cmd: target.fcntl.getfd, arg: None };
    match read {
        None => seq![(get, Reply::Code(Err(error)))],
        Some(previous) => seq![
            (get, Reply::Code(Ok(previous))),
            (
                Request::Fcntl {
                    fd,
                    cmd: target.fcntl.setfd,
                    arg: Some(previous | target.fcntl.fd_cloexec),
                },
                Reply::Code(Err(error)),
            ),
        ],
    }
}

/// Whether the flag to close a descriptor on `exec` is missing from the flags
/// that were read, if they were.
pub open spec fn lacks_mark(target: Target, read: Option<c_int>) -> bool {
    read matches Some(previous) ==> previous | target.fcntl.fd_cloexec != previous
}

/// The request that keeps `SIGPIPE` from being raised for `fd`.
pub open spec fn silence<'a>(target: Target, fd: c_int, name: c_int) -> Request<'a> {
    Request::SetSockOpt { fd, level: target.socket.level, name, value: OptValue::Int(1) }
}

/// Where a socket has to be told so, `SIGPIPE` is kept from being raised.
pub open spec fn silencing<'a>(target: Target, fd: c_int, done: c_int) -> Seq<
    (Request<'a>, Reply),
> {
    match target.nosigpipe {
        Some(name) => seq![(silence(target, fd, name), Reply::Code(Ok(done)))],
        None => seq![],
    }
}

/// A descriptor is closed, and no matter how that went.
pub open spec fn closing<'a>(fd: c_int, closed: Result<c_int, c_int>) -> Seq<
    (Request<'a>, Reply),
> {
    seq![(Request::Close { fd }, Reply::Code(closed))]
}

/// A descriptor is marked by reading its flags, and writing them only if the
/// mark is missing; what fails is told.
pub proof fn law_set_cloexec<'a>(
    target: &Target,
    fd: c_int,
    step: Step<'a, SetFlags, ()>,
    previous: c_int,
    wrote: c_int,
    read: Option<c_int>,
    error: c_int,
)
    requires
        call_ensures(set_cloexec, (target, fd), step),
        lacks_mark(*target, read),
    ensures
        goes(*target, step, marking(*target, fd, previous, wrote), Ok(())),
        goes(*target, step, not_marking(*target, fd, read, error), Err(Error::Os(error))),
{
    reveal_with_fuel(after, 3);
}

/// A change of any flag reads the flags, and writes them only if that makes a
/// difference: with no bit changed but those of the flag.
pub proof fn law_change<'a>(
    target: Target,
    change: Change,
    step: Step<'a, SetFlags, ()>,
    previous: c_int,
    wrote: Result<c_int, c_int>,
    error: c_int,
)
    requires
        call_ensures(Change::start, (change,), step),
    ensures
        ({
            let get = Request::Fcntl { fd: change.fd, cmd: change.get, arg: None };
            let new = if change.on {
                previous | change.flag
            } else {
                previous & !change.flag
            };
            let set = Request::Fcntl { fd: change.fd, cmd: change.set, arg: Some(new) };
            let read = Reply::Code(Ok(previous));
            &&& goes(target, step, seq![(get, Reply::Code(Err(error)))], Err(Error::Os(error)))
            &&& new == previous ==> goes(target, step, seq![(get, read)], Ok(()))
            &&& new != previous ==> goes(
                target,
                step,
                seq![(get, read), (set, Reply::Code(wrote))],
                crate::talk::told(wrote),
            )
        }),
{
    reveal_with_fuel(after, 3);
}

/// Once a socket has been made plain, it is marked, and where it has to be, told
/// to raise no signal.  If either fails, it is closed, and that failure told.
///
/// The socket is made plain from the start on any system but Linux; `target` is
/// the system that it is then made on, which differs in no number.
pub proof fn law_new<'a>(
    begin: &Target,
    target: Target,
    family: c_int,
    ty: c_int,
    protocol: c_int,
    step: Step<'a, New, Socket>,
    fd: c_int,
    previous: c_int,
    done: (c_int, c_int),
    read: Option<c_int>,
    error: c_int,
    closed: Result<c_int, c_int>,
)
    requires
        !(begin.os is Linux),
        target == (Target { os: target.os, ..*begin }),
        call_ensures(Socket::new, (begin, family, ty, protocol), step),
        lacks_mark(target, read),
    ensures
        ({
            let request = Request::Socket { family, ty, protocol };
            let made = seq![(request, Reply::Code(Ok(fd)))];
            let marked = made + marking(target, fd, previous, done.0);
            let failed = Err(Error::Os(error));
            &&& goes(target, step, marked + silencing(target, fd, done.1), Ok(Socket { fd }))
            &&& goes(target, step, seq![(request, Reply::Code(Err(error)))], failed)
            &&& goes(
                target,
                step,
                made + not_marking(target, fd, read, error) + closing(fd, closed),
                failed,
            )
            &&& target.nosigpipe matches Some(name) ==> goes(
                target,
                step,
                marked + seq![(silence(target, fd, name), Reply::Code(Err(error)))] + closing(
                    fd,
                    closed,
                ),
                failed,
            )
        }),
{
    reveal_with_fuel(after, 3);
    let request: Request<'a> = Request::Socket { family, ty, protocol };
    let made = seq![(request, Reply::Code(Ok(fd)))];
    let mark = marking::<'a>(target, fd, previous, done.0);
    let not_mark = not_marking::<'a>(target, fd, read, error);
    let change = cloexec_change(target, fd);
    let state = New::Marking { fd, flags: SetFlags::Reading(change) };
    let at = Step::<'a, New, Socket>::Call(change.request(), state);
    assert(after(target, step, made) == Some(at));
    assert(after(target, at, mark) == Some(New::marked::<'a>(target, fd)));
    assert(after(target, at, not_mark) == Some(New::failed::<'a>(fd, Error::Os(error))));
    lemma_after_add(target, step, made, mark);
    lemma_after_add(target, step, made + mark, silencing(target, fd, done.1));
    lemma_after_add(target, step, made, not_mark);
    lemma_after_add(target, step, made + not_mark, closing(fd, closed));
    if let Some(name) = target.nosigpipe {
        let refused = seq![(silence::<'a>(target, fd, name), Reply::Code(Err(error)))];
        lemma_after_add(target, step, made + mark, refused);
        lemma_after_add(target, step, made + mark + refused, closing(fd, closed));
    }
}

/// On Linux a socket is made with its mark, in one call.  If the kernel calls
/// that invalid, and only then, it is made as on any other system.
pub proof fn law_new_on_linux<'a>(
    target: &Target,
    other: &Target,
    family: c_int,
    ty: c_int,
    protocol: c_int,
    step: Step<'a, New, Socket>,
    plain: Step<'a, New, Socket>,
    fd: c_int,
    error: c_int,
)
    requires
        target.os is Linux,
        !(other.os is Linux),
        call_ensures(Socket::new, (target, family, ty, protocol), step),
        call_ensures(Socket::new, (other, family, ty, protocol), plain),
    ensures
        ({
            let request = Request::Socket { family, ty: ty | target.ty.cloexec, protocol };
            let refused = seq![(request, Reply::Code(Err(error)))];
            &&& goes(*target, step, seq![(request, Reply::Code(Ok(fd)))], Ok(Socket { fd }))
            &&& error == target.errno.einval ==> after(*target, step, refused) == Some(plain)
            &&& error != target.errno.einval ==> goes(
                *target,
                step,
                refused,
                Err(Error::Os(error)),
            )
        }),
{
    reveal_with_fuel(after, 2);
}

/// A pair is made of the family, the type and the protocol that were asked for.
/// Both of it are marked, and where they have to be, told to raise no signal.
/// If anything fails, both are closed, and that failure told.
pub proof fn law_pair<'a>(
    target: Target,
    family: c_int,
    ty: c_int,
    protocol: c_int,
    step: Step<'a, Pair, (Socket, Socket)>,
    fds: (c_int, c_int),
    previous: (c_int, c_int),
    wrote: (c_int, c_int),
    done: (c_int, c_int),
    read: Option<c_int>,
    error: c_int,
    closed: (Result<c_int, c_int>, Result<c_int, c_int>),
)
    requires
        call_ensures(Socket::pair, (family, ty, protocol), step),
        lacks_mark(target, read),
    ensures
        step matches Step::Call(Request::SocketPair { family: f, ty: t, protocol: p }, _) && f
            == family && t == ty && p == protocol,
        ({
            let request = Request::SocketPair { family, ty, protocol };
            let made = seq![(request, Reply::Pair(Ok(fds)))];
            let first = made + marking(target, fds.0, previous.0, wrote.0);
            let marked = first + marking(target, fds.1, previous.1, wrote.1);
            let failed = Err(Error::Os(error));
            let end = closing(fds.0, closed.0) + closing(fds.1, closed.1);
            &&& goes(
                target,
                step,
                marked + silencing(target, fds.0, done.0) + silencing(target, fds.1, done.1),
                Ok((Socket { fd: fds.0 }, Socket { fd: fds.1 })),
            )
            &&& goes(target, step, seq![(request, Reply::Pair(Err(error)))], failed)
            &&& goes(target, step, made + not_marking(target, fds.0, read, error) + end, failed)
            &&& goes(target, step, first + not_marking(target, fds.1, read, error) + end, failed)
            &&& target.nosigpipe matches Some(name) ==> {
                &&& goes(
                    target,
                    step,
                    marked + seq![(silence(target, fds.0, name), Reply::Code(Err(error)))] + end,
                    failed,
                )
                &&& goes(
                    target,
                    step,
                    marked + silencing(target, fds.0, done.0) + seq![
                        (silence(target, fds.1, name), Reply::Code(Err(error))),
                    ] + end,
                    failed,
                )
            }
        }),
{
    reveal_with_fuel(after, 3);
    let request: Request<'a> = Request::SocketPair { family, ty, protocol };
    let made = seq![(request, Reply::Pair(Ok(fds)))];
    let mark0 = marking::<'a>(target, fds.0, previous.0, wrote.0);
    let mark1 = marking::<'a>(target, fds.1, previous.1, wrote.1);
    let not0 = not_marking::<'a>(target, fds.0, read, error);
    let not1 = not_marking::<'a>(target, fds.1, read, error);
    let quiet0 = silencing::<'a>(target, fds.0, done.0);
    let quiet1 = silencing::<'a>(target, fds.1, done.1);
    let end = closing::<'a>(fds.0, closed.0) + closing::<'a>(fds.1, closed.1);
    let change0 = cloexec_change(target, fds.0);
    let change1 = cloexec_change(target, fds.1);
    let at0 = Step::<'a, Pair, (Socket, Socket)>::Call(
        change0.request(),
        Pair::MarkingFirst { fds, flags: SetFlags::Reading(change0) },
    );
    let at1 = Step::<'a, Pair, (Socket, Socket)>::Call(
        change1.request(),
        Pair::MarkingSecond { fds, flags: SetFlags::Reading(change1) },
    );
    let at2 = Pair::marked::<'a>(target, fds);
    let lost = Pair::failed::<'a>(fds, Error::Os(error));
    assert(after(target, step, made) == Some(at0));
    assert(after(target, at0, mark0) == Some(at1));
    assert(after(target, at0, not0) == Some(lost));
    assert(after(target, at1, mark1) == Some(at2));
    assert(after(target, at1, not1) == Some(lost));
    lemma_after_add(target, lost, closing::<'a>(fds.0, closed.0), closing::<'a>(fds.1, closed.1));
    assert(goes(target, lost, end, Err(Error::Os(error))));
    lemma_after_add(target, step, made, mark0);
    lemma_after_add(target, step, made + mark0, mark1);
    lemma_after_add(target, step, made + mark0 + mark1, quiet0);
    lemma_after_add(target, step, made + mark0 + mark1 + quiet0, quiet1);
    lemma_after_add(target, step, made, not0);
    lemma_after_add(target, step, made + not0, end);
    lemma_after_add(target, step, made + mark0, not1);
    lemma_after_add(target, step, made + mark0 + not1, end);
    if let Some(name) = target.nosigpipe {
        let loud0 = seq![(silence::<'a>(target, fds.0, name), Reply::Code(Err(error)))];
        let loud1 = seq![(silence::<'a>(target, fds.1, name), Reply::Code(Err(error)))];
        lemma_after_add(target, step, made + mark0 + mark1, loud0);
        lemma_after_add(target, step, made + mark0 + mark1 + loud0, end);
        lemma_after_add(target, step, made + mark0 + mark1 + quiet0, loud1);
        lemma_after_add(target, step, made + mark0 + mark1 + quiet0 + loud1, end);
    }
}

/// Where a socket cannot be duplicated and marked in one call, it is duplicated,
/// and the duplicate marked.  If that fails, the duplicate is closed, and the
/// failure told.
pub proof fn law_try_clone_in_two<'a>(
    socket: &Socket,
    target: &Target,
    step: Step<'a, TryClone, Socket>,
    new: c_int,
    previous: c_int,
    wrote: c_int,
    read: Option<c_int>,
    error: c_int,
    closed: Result<c_int, c_int>,
)
    requires
        call_ensures(Socket::try_clone, (socket, target, true), step),
        lacks_mark(*target, read),
    ensures
        ({
            let request = Request::Fcntl {
                fd: socket.fd,
                cmd: target.fcntl.dupfd,
                arg: Some(0),
            };
            let made = seq![(request, Reply::Code(Ok(new)))];
            let failed = Err(Error::Os(error));
            &&& goes(
                *target,
                step,
                made + marking(*target, new, previous, wrote),
                Ok(Socket { fd: new }),
            )
            &&& goes(*target, step, seq![(request, Reply::Code(Err(error)))], failed)
            &&& goes(
                *target,
                step,
                made + not_marking(*target, new, read, error) + closing(new, closed),
                failed,
            )
        }),
{
    let request: Request<'a> = Request::Fcntl {
        fd: socket.fd,
        cmd: target.fcntl.dupfd,
        arg: Some(0),
    };
    reveal_with_fuel(after, 3);
    lemma_clone_marks(*target, step, request, new, previous, wrote, read, error, closed);
}

/// After a duplicate that is to be marked.
proof fn lemma_clone_marks<'a>(
    target: Target,
    step: Step<'a, TryClone, Socket>,
    request: Request<'a>,
    new: c_int,
    previous: c_int,
    wrote: c_int,
    read: Option<c_int>,
    error: c_int,
    closed: Result<c_int, c_int>,
)
    requires
        lacks_mark(target, read),
        after(target, step, seq![(request, Reply::Code(Ok(new)))]) == Some(
            TryClone::mark::<'a>(target, new),
        ),
    ensures
        ({
            let made = seq![(request, Reply::Code(Ok(new)))];
            &&& goes(
                target,
                step,
                made + marking(target, new, previous, wrote),
                Ok(Socket { fd: new }),
            )
            &&& goes(
                target,
                step,
                made + not_marking(target, new, read, error) + closing(new, closed),
                Err(Error::Os(error)),
            )
        }),
{
    reveal_with_fuel(after, 3);
    let made = seq![(request, Reply::Code(Ok(new)))];
    let mark = marking::<'a>(target, new, previous, wrote);
    let not_mark = not_marking::<'a>(target, new, read, error);
    let at = TryClone::mark::<'a>(target, new);
    let lost = Step::<'a, TryClone, Socket>::Call(
        Request::Close { fd: new },
        TryClone::Closing { error: Error::Os(error) },
    );
    assert(goes(target, at, mark, Ok(Socket { fd: new })));
    assert(after(target, at, not_mark) == Some(lost));
    assert(goes(target, lost, closing(new, closed), Err(Error::Os(error))));
    lemma_after_add(target, step, made, mark);
    lemma_after_add(target, step, made, not_mark);
    lemma_after_add(target, step, made + not_mark, closing(new, closed));
}

/// A socket is duplicated and marked in one call; on Linux the mark is looked
/// at once more.  If the system calls that invalid, and only then, it is noted,
/// and done in two calls.
pub proof fn law_try_clone<'a>(
    socket: &Socket,
    target: &Target,
    step: Step<'a, TryClone, Socket>,
    in_two: Step<'a, TryClone, Socket>,
    new: c_int,
    previous: c_int,
    wrote: c_int,
    read: Option<c_int>,
    error: c_int,
    closed: Result<c_int, c_int>,
)
    requires
        call_ensures(Socket::try_clone, (socket, target, false), step),
        call_ensures(Socket::try_clone, (socket, target, true), in_two),
        lacks_mark(*target, read),
    ensures
        ({
            let request = Request::Fcntl {
                fd: socket.fd,
                cmd: target.fcntl.dupfd_cloexec,
                arg: Some(0),
            };
            let made = seq![(request, Reply::Code(Ok(new)))];
            let refused = seq![(request, Reply::Code(Err(error)))];
            let failed = Err(Error::Os(error));
            &&& !(target.os is Linux) ==> goes(*target, step, made, Ok(Socket { fd: new }))
            &&& target.os is Linux ==> goes(
                *target,
                step,
                made + marking(*target, new, previous, wrote),
                Ok(Socket { fd: new }),
            )
            &&& target.os is Linux ==> goes(
                *target,
                step,
                made + not_marking(*target, new, read, error) + closing(new, closed),
                failed,
            )
            &&& error != target.errno.einval ==> goes(*target, step, refused, failed)
            &&& error == target.errno.einval ==> after(
                *target,
                step,
                refused + seq![(Request::NoteDupCloexecFailed, Reply::Done)],
            ) == Some(in_two)
        }),
{
    reveal_with_fuel(after, 3);
    let request: Request<'a> = Request::Fcntl {
        fd: socket.fd,
        cmd: target.fcntl.dupfd_cloexec,
        arg: Some(0),
    };
    let refused = seq![(request, Reply::Code(Err(error)))];
    lemma_after_add(
        *target,
        step,
        refused,
        seq![(Request::NoteDupCloexecFailed, Reply::Done)],
    );
    if target.os is Linux {
        lemma_clone_marks(*target, step, request, new, previous, wrote, read, error, closed);
    }
}

/// A connection that was taken plain has its socket marked, and is handed out
/// with its address.  If that fails, the socket is closed, and the failure told.
///
/// It is taken plain from the start on any system but Linux; `target` is the
/// system that it is then taken on, which differs in no number.
pub proof fn law_accept<'a>(
    socket: &Socket,
    begin: &Target,
    target: Target,
    step: Step<'a, Accept, (Socket, SockAddr)>,
    new: c_int,
    addr: SockAddr,
    previous: c_int,
    wrote: c_int,
    read: Option<c_int>,
    error: c_int,
    closed: Result<c_int, c_int>,
)
    requires
        !(begin.os is Linux),
        target == (Target { os: target.os, ..*begin }),
        call_ensures(Socket::accept, (socket, begin), step),
        addr.len <= addr.storage@.len(),
        lacks_mark(target, read),
    ensures
        ({
            let request = Request::Accept { fd: socket.fd, room: target.layout.storage };
            let made = seq![(request, Reply::Accepted(Ok((new, addr))))];
            let failed = Err(Error::Os(error));
            &&& goes(
                target,
                step,
                made + marking(target, new, previous, wrote),
                Ok((Socket { fd: new }, addr)),
            )
            &&& goes(target, step, seq![(request, Reply::Accepted(Err(error)))], failed)
            &&& goes(
                target,
                step,
                made + not_marking(target, new, read, error) + closing(new, closed),
                failed,
            )
        }),
{
    reveal_with_fuel(after, 3);
    let request: Request<'a> = Request::Accept { fd: socket.fd, room: target.layout.storage };
    let made = seq![(request, Reply::Accepted(Ok((new, addr))))];
    let mark = marking::<'a>(target, new, previous, wrote);
    let not_mark = not_marking::<'a>(target, new, read, error);
    let change = cloexec_change(target, new);
    let at = Step::<'a, Accept, (Socket, SockAddr)>::Call(
        change.request(),
        Accept::Marking { fd: new, addr, flags: SetFlags::Reading(change) },
    );
    let lost = Step::<'a, Accept, (Socket, SockAddr)>::Call(
        Request::Close { fd: new },
        Accept::Closing { error: Error::Os(error) },
    );
    assert(after(target, step, made) == Some(at));
    assert(goes(target, at, mark, Ok((Socket { fd: new }, addr))));
    assert(after(target, at, not_mark) == Some(lost));
    assert(goes(target, lost, closing(new, closed), Err(Error::Os(error))));
    lemma_after_add(target, step, made, mark);
    lemma_after_add(target, step, made, not_mark);
    lemma_after_add(target, step, made + not_mark, closing(new, closed));
}

/// On Linux a connection is taken with its socket marked, in one call.  If the
/// kernel does not know that call, and only then, it is taken as on any other
/// system.
pub proof fn law_accept_on_linux<'a>(
    socket: &Socket,
    target: &Target,
    step: Step<'a, Accept, (Socket, SockAddr)>,
    plain: Step<'a, Accept, (Socket, SockAddr)>,
    new: c_int,
    addr: SockAddr,
    error: c_int,
)
    requires
        target.os is Linux,
        call_ensures(Socket::accept, (socket, target), step),
        call_ensures(
            Socket::accept,
            (socket, &Target { os: TargetOs::Other, ..*target }),
            plain,
        ),
        addr.len <= addr.storage@.len(),
    ensures
        ({
            let request = Request::Accept4 {
                fd: socket.fd,
                room: target.layout.storage,
                flags: target.ty.cloexec,
            };
            let refused = seq![(request, Reply::Accepted(Err(error)))];
            &&& goes(
                *target,
                step,
                seq![(request, Reply::Accepted(Ok((new, addr))))],
                Ok((Socket { fd: new }, addr)),
            )
            &&& error == target.errno.enosys ==> after(*target, step, refused) == Some(plain)
            &&& error != target.errno.enosys ==> goes(
                *target,
                step,
                refused,
                Err(Error::Os(error)),
            )
        }),
{
    reveal_with_fuel(after, 2);
}

} // verus!
