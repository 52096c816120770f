//! Operations of one call: what is asked for, and what is told of the reply.

use libc::c_int;
use vstd::prelude::*;

use crate::addr::SockAddr;
use crate::error::Error;
use crate::read::{Ignore, ReadAddr, ReadCount, ReadCountFrom, ReadError, ReadNothing};
use crate::socket::{max_len, Describe, Description, Shutdown, Socket};
use crate::syscall::{OptKind, OptValue, Reply, Request, Step};
use crate::talk::{after, goes, told};
use crate::target::{Target, TargetOs};

verus! {

/// How many of `len` bytes are asked for at once: all of them, if a signed size
/// holds that many; on macOS, if a `c_int` holds one more.
pub open spec fn asked_for(os: TargetOs, len: nat) -> nat {
    let limit: nat = if os is MacOs {
        0x7fff_fffe
    } else {
        isize::MAX as nat
    };
    if len <= limit {
        len
    } else {
        limit
    }
}

/// The most that is asked for at once is what is asked for of a buffer that is
/// as large as can be.
pub proof fn law_max_len(target: &Target, len: usize)
    requires
        call_ensures(max_len, (target,), len),
    ensures
        len == asked_for(target.os, usize::MAX as nat),
        target.os is MacOs ==> len == 0x7fff_fffe,
        !(target.os is MacOs) ==> len == isize::MAX,
{
}

/// The number of bytes that a call moved, as the number that it returned; a
/// negative one, which no system returns, is taken as unsigned.
pub open spec fn moved(reply: Result<isize, c_int>) -> Result<usize, Error> {
    match reply {
        Ok(n) => Ok(
            (if n >= 0 {
                n as int
            } else {
                n + usize::MAX + 1
            }) as usize,
        ),
        Err(e) => Err(Error::Os(e)),
    }
}

/// A number of bytes is told as the same number.
pub proof fn law_count_is_told(n: isize)
    requires
        n >= 0,
    ensures
        moved(Ok(n)) matches Ok(m) && m == n,
{
}

/// Binding asks for the address, and tells what came of it.
pub proof fn law_bind<'a>(
    socket: &Socket,
    target: Target,
    addr: &'a SockAddr,
    step: Step<'a, ReadNothing, ()>,
    reply: Result<c_int, c_int>,
)
    requires
        call_ensures(Socket::bind, (socket, addr), step),
    ensures
        goes(
            target,
            step,
            seq![(Request::Bind { fd: socket.fd, addr }, Reply::Code(reply))],
            told(reply),
        ),
{
    reveal_with_fuel(after, 2);
}

/// Listening asks for the backlog, and tells what came of it.
pub proof fn law_listen<'a>(
    socket: &Socket,
    target: Target,
    backlog: i32,
    step: Step<'a, ReadNothing, ()>,
    reply: Result<c_int, c_int>,
)
    requires
        call_ensures(Socket::listen, (socket, backlog), step),
    ensures
        goes(
            target,
            step,
            seq![(Request::Listen { fd: socket.fd, backlog }, Reply::Code(reply))],
            told(reply),
        ),
{
    reveal_with_fuel(after, 2);
}

/// Connecting asks for the address, and tells what came of it: a connection
/// that is only under way is an error too.
pub proof fn law_connect<'a>(
    socket: &Socket,
    target: Target,
    addr: &'a SockAddr,
    step: Step<'a, ReadNothing, ()>,
    reply: Result<c_int, c_int>,
)
    requires
        call_ensures(Socket::connect, (socket, addr), step),
    ensures
        goes(
            target,
            step,
            seq![(Request::Connect { fd: socket.fd, addr }, Reply::Code(reply))],
            told(reply),
        ),
{
    reveal_with_fuel(after, 2);
}

/// Shutting down asks for the half that was named, and tells what came of it.
pub proof fn law_shutdown<'a>(
    socket: &Socket,
    target: &Target,
    how: Shutdown,
    step: Step<'a, ReadNothing, ()>,
    reply: Result<c_int, c_int>,
)
    requires
        call_ensures(Socket::shutdown, (socket, target, how), step),
    ensures
        how is Read ==> goes(
            *target,
            step,
            seq![
                (
                    Request::Shutdown { fd: socket.fd, how: target.transfer.shut_rd },
                    Reply::Code(reply),
                ),
            ],
            told(reply),
        ),
        how is Write ==> goes(
            *target,
            step,
            seq![
                (
                    Request::Shutdown { fd: socket.fd, how: target.transfer.shut_wr },
                    Reply::Code(reply),
                ),
            ],
            told(reply),
        ),
        how is Both ==> goes(
            *target,
            step,
            seq![
                (
                    Request::Shutdown { fd: socket.fd, how: target.transfer.shut_rdwr },
                    Reply::Code(reply),
                ),
            ],
            told(reply),
        ),
{
    reveal_with_fuel(after, 2);
}

/// Closing asks for the descriptor, and ends well whatever came of it.
pub proof fn law_close<'a>(
    socket: Socket,
    target: Target,
    step: Step<'a, Ignore, ()>,
    reply: Result<c_int, c_int>,
)
    requires
        call_ensures(Socket::close, (socket,), step),
    ensures
        goes(
            target,
            step,
            seq![(Request::Close { fd: socket.fd }, Reply::Code(reply))],
            Ok(()),
        ),
{
    reveal_with_fuel(after, 2);
}

/// Flushing asks for nothing and ends well.
pub proof fn law_flush<'a>(socket: &Socket, target: Target, step: Step<'a, Ignore, ()>)
    requires
        call_ensures(Socket::flush, (socket,), step),
    ensures
        goes(target, step, seq![], Ok(())),
{
}

/// What is told of a call for an address: the address, or the error.
pub open spec fn address(reply: Result<SockAddr, c_int>) -> Result<SockAddr, Error> {
    match reply {
        Ok(addr) => Ok(addr),
        Err(e) => Err(Error::Os(e)),
    }
}

/// The own address is asked for with all the room there is, and told as it is.
pub proof fn law_local_addr<'a>(
    socket: &Socket,
    target: &Target,
    step: Step<'a, ReadAddr, SockAddr>,
    reply: Result<SockAddr, c_int>,
)
    requires
        call_ensures(Socket::local_addr, (socket, target), step),
        reply matches Ok(addr) ==> addr.len <= addr.storage@.len(),
    ensures
        goes(
            *target,
            step,
            seq![
                (
                    Request::GetSockName { fd: socket.fd, room: target.layout.storage },
                    Reply::Addr(reply),
                ),
            ],
            address(reply),
        ),
{
    reveal_with_fuel(after, 2);
}

/// The peer's address is asked for with all the room there is, and told as it
/// is.
pub proof fn law_peer_addr<'a>(
    socket: &Socket,
    target: &Target,
    step: Step<'a, ReadAddr, SockAddr>,
    reply: Result<SockAddr, c_int>,
)
    requires
        call_ensures(Socket::peer_addr, (socket, target), step),
        reply matches Ok(addr) ==> addr.len <= addr.storage@.len(),
    ensures
        goes(
            *target,
            step,
            seq![
                (
                    Request::GetPeerName { fd: socket.fd, room: target.layout.storage },
                    Reply::Addr(reply),
                ),
            ],
            address(reply),
        ),
{
    reveal_with_fuel(after, 2);
}

/// An address that may be missing.
pub open spec fn if_known(reply: Result<SockAddr, c_int>) -> Option<SockAddr> {
    match reply {
        Ok(addr) => Some(addr),
        Err(_) => None,
    }
}

/// A socket tells its descriptor, and each address that it has.
pub proof fn law_describe<'a>(
    socket: &Socket,
    target: &Target,
    step: Step<'a, Describe, Description>,
    local: Result<SockAddr, c_int>,
    peer: Result<SockAddr, c_int>,
)
    requires
        call_ensures(Socket::describe, (socket, target), step),
        local matches Ok(addr) ==> addr.len <= addr.storage@.len(),
        peer matches Ok(addr) ==> addr.len <= addr.storage@.len(),
    ensures
        goes(
            *target,
            step,
            seq![
                (
                    Request::GetSockName { fd: socket.fd, room: target.layout.storage },
                    Reply::Addr(local),
                ),
                (
                    Request::GetPeerName { fd: socket.fd, room: target.layout.storage },
                    Reply::Addr(peer),
                ),
            ],
            Ok(
                Description {
                    fd: socket.fd,
                    local_addr: if_known(local),
                    peer_addr: if_known(peer),
                },
            ),
        ),
{
    reveal_with_fuel(after, 3);
}

/// The error that a socket holds is the code that it tells, unless that is
/// zero.
pub proof fn law_take_error<'a>(
    socket: &Socket,
    target: &Target,
    step: Step<'a, ReadError, Option<Error>>,
    reply: Result<c_int, c_int>,
)
    requires
        call_ensures(Socket::take_error, (socket, target), step),
    ensures
        ({
            let request = Request::GetSockOpt {
                fd: socket.fd,
                level: target.socket.level,
                name: target.socket.error,
                kind: OptKind::Int,
            };
            match reply {
                Ok(raw) => goes(
                    *target,
                    step,
                    seq![(request, Reply::Opt(Ok(OptValue::Int(raw))))],
                    if raw == 0 {
                        Ok(None)
                    } else {
                        Ok(Some(Error::Os(raw)))
                    },
                ),
                Err(e) => goes(
                    *target,
                    step,
                    seq![(request, Reply::Opt(Err(e)))],
                    Err(Error::Os(e)),
                ),
            }
        }),
{
    reveal_with_fuel(after, 2);
}

/// Receiving asks for as much of the buffer as may be, with the flags as they
/// are, and tells how much came.
pub proof fn law_recv<'a>(
    socket: &Socket,
    target: &Target,
    len: usize,
    flags: c_int,
    step: Step<'a, ReadCount, usize>,
    reply: Result<isize, c_int>,
)
    requires
        call_ensures(Socket::recv, (socket, target, len, flags), step),
    ensures
        goes(
            *target,
            step,
            seq![
                (
                    Request::Recv {
                        fd: socket.fd,
                        len: asked_for(target.os, len as nat) as usize,
                        flags,
                    },
                    Reply::Count(reply),
                ),
            ],
            moved(reply),
        ),
{
    reveal_with_fuel(after, 2);
}

/// Peeking is receiving with the flag to peek.
pub proof fn law_peek<'a>(
    socket: &Socket,
    target: &Target,
    len: usize,
    step: Step<'a, ReadCount, usize>,
    reply: Result<isize, c_int>,
)
    requires
        call_ensures(Socket::peek, (socket, target, len), step),
    ensures
        goes(
            *target,
            step,
            seq![
                (
                    Request::Recv {
                        fd: socket.fd,
                        len: asked_for(target.os, len as nat) as usize,
                        flags: target.transfer.msg_peek,
                    },
                    Reply::Count(reply),
                ),
            ],
            moved(reply),
        ),
{
    reveal_with_fuel(after, 2);
}

/// Reading asks for as much of the buffer as may be, and tells how much came.
pub proof fn law_read<'a>(
    socket: &Socket,
    target: &Target,
    len: usize,
    step: Step<'a, ReadCount, usize>,
    reply: Result<isize, c_int>,
)
    requires
        call_ensures(Socket::read, (socket, target, len), step),
    ensures
        goes(
            *target,
            step,
            seq![
                (
                    Request::Read { fd: socket.fd, len: asked_for(target.os, len as nat) as usize },
                    Reply::Count(reply),
                ),
            ],
            moved(reply),
        ),
{
    reveal_with_fuel(after, 2);
}

/// What is told of data and where it came from.
pub open spec fn moved_from(reply: Result<(isize, SockAddr), c_int>) -> Result<
    (usize, SockAddr),
    Error,
> {
    match reply {
        Ok((n, addr)) => Ok((moved(Ok(n))->Ok_0, addr)),
        Err(e) => Err(Error::Os(e)),
    }
}

/// Receiving from anywhere asks for as much of the buffer as may be, with the
/// flags as they are, and tells how much came, and where from.
pub proof fn law_recv_from<'a>(
    socket: &Socket,
    target: &Target,
    len: usize,
    flags: c_int,
    step: Step<'a, ReadCountFrom, (usize, SockAddr)>,
    reply: Result<(isize, SockAddr), c_int>,
)
    requires
        call_ensures(Socket::recv_from, (socket, target, len, flags), step),
        reply matches Ok((n, addr)) ==> addr.len <= addr.storage@.len(),
    ensures
        goes(
            *target,
            step,
            seq![
                (
                    Request::RecvFrom {
                        fd: socket.fd,
                        len: asked_for(target.os, len as nat) as usize,
                        flags,
                        room: target.layout.storage,
                    },
                    Reply::CountFrom(reply),
                ),
            ],
            moved_from(reply),
        ),
{
    reveal_with_fuel(after, 2);
}

/// Peeking from anywhere is receiving from anywhere with the flag to peek.
pub proof fn law_peek_from<'a>(
    socket: &Socket,
    target: &Target,
    len: usize,
    step: Step<'a, ReadCountFrom, (usize, SockAddr)>,
    reply: Result<(isize, SockAddr), c_int>,
)
    requires
        call_ensures(Socket::peek_from, (socket, target, len), step),
        reply matches Ok((n, addr)) ==> addr.len <= addr.storage@.len(),
    ensures
        goes(
            *target,
            step,
            seq![
                (
                    Request::RecvFrom {
                        fd: socket.fd,
                        len: asked_for(target.os, len as nat) as usize,
                        flags: target.transfer.msg_peek,
                        room: target.layout.storage,
                    },
                    Reply::CountFrom(reply),
                ),
            ],
            moved_from(reply),
        ),
{
    reveal_with_fuel(after, 2);
}

/// `data` is as much from the front of `buf` as may be sent at once.
pub open spec fn front(target: Target, data: Seq<u8>, buf: Seq<u8>) -> bool {
    &&& data.len() == asked_for(target.os, buf.len())
    &&& forall|i: int| 0 <= i < data.len() ==> data[i] == buf[i]
}

/// Sending asks for as much from the front of the data as may be, with the
/// flags as they are, and tells how much went.
pub proof fn law_send<'a>(
    socket: &Socket,
    target: &Target,
    buf: &'a [u8],
    flags: c_int,
    step: Step<'a, ReadCount, usize>,
    reply: Result<isize, c_int>,
)
    requires
        call_ensures(Socket::send, (socket, target, buf, flags), step),
    ensures
        step matches Step::Call(request, _) && {
            &&& request matches Request::Send { fd, data, flags: f } && fd == socket.fd && front(
                *target,
                data@,
                buf@,
            ) && f == flags
            &&& goes(*target, step, seq![(request, Reply::Count(reply))], moved(reply))
        },
{
    assert(buf@.len() == buf.len());
    reveal_with_fuel(after, 2);
}

/// Writing is sending without flags.
pub proof fn law_write<'a>(
    socket: &Socket,
    target: &Target,
    buf: &'a [u8],
    step: Step<'a, ReadCount, usize>,
    reply: Result<isize, c_int>,
)
    requires
        call_ensures(Socket::write, (socket, target, buf), step),
    ensures
        step matches Step::Call(request, _) && {
            &&& request matches Request::Send { fd, data, flags } && fd == socket.fd && front(
                *target,
                data@,
                buf@,
            ) && flags == 0
            &&& goes(*target, step, seq![(request, Reply::Count(reply))], moved(reply))
        },
{
    assert(buf@.len() == buf.len());
    reveal_with_fuel(after, 2);
}

/// Sending to an address asks for as much from the front of the data as may be,
/// with the flags and the address as they are, and tells how much went.
pub proof fn law_send_to<'a>(
    socket: &Socket,
    target: &Target,
    buf: &'a [u8],
    flags: c_int,
    addr: &'a SockAddr,
    step: Step<'a, ReadCount, usize>,
    reply: Result<isize, c_int>,
)
    requires
        call_ensures(Socket::send_to, (socket, target, buf, flags, addr), step),
    ensures
        step matches Step::Call(request, _) && {
            &&& request matches Request::SendTo { fd, data, flags: f, addr: a } && fd == socket.fd
                && front(*target, data@, buf@) && f == flags && a == addr
            &&& goes(*target, step, seq![(request, Reply::Count(reply))], moved(reply))
        },
{
    assert(buf@.len() == buf.len());
    reveal_with_fuel(after, 2);
}

/// A descriptor goes into a socket and comes out of it as it is.
pub proof fn law_descriptor_is_kept(fd: c_int, socket: Socket, seen: c_int, taken: c_int)
    requires
        call_ensures(Socket::from_fd, (fd,), socket),
        call_ensures(Socket::as_raw_fd, (&socket,), seen),
        call_ensures(Socket::into_raw_fd, (socket,), taken),
    ensures
        socket.fd == fd,
        seen == fd,
        taken == fd,
{
}

/// A call fails by returning -1, with the code that it left, and only so.
pub proof fn law_failure(
    res: c_int,
    len: isize,
    errno: c_int,
    revents: i16,
    r: Result<c_int, c_int>,
    n: Result<isize, c_int>,
    polled: crate::syscall::Polled,
)
    requires
        call_ensures(crate::syscall::syscall, (res, errno), r),
        call_ensures(crate::syscall::syscall_len, (len, errno), n),
        call_ensures(crate::syscall::syscall_poll, (res, errno, revents), polled),
    ensures
        res == -1 ==> r == Err::<c_int, c_int>(errno),
        res != -1 ==> r == Ok::<c_int, c_int>(res),
        len == -1 ==> n == Err::<isize, c_int>(errno),
        len != -1 ==> n == Ok::<isize, c_int>(len),
        res == -1 ==> polled == (crate::syscall::Polled::Failed { code: errno }),
        res != -1 ==> polled == (crate::syscall::Polled::Ready { count: res, revents }),
{
}

} // verus!
