//! A socket, and the operations on it that take one call.

use libc::c_int;
use vstd::prelude::*;

use crate::addr::SockAddr;
use crate::flags::{nonblocking, nonblocking_change, SetFlags};
use crate::read::{Ignore, ReadAddr, ReadCount, ReadCountFrom, ReadError, ReadNothing};
use crate::syscall::{asks, ends, get_opt, OptKind, Operation, Reply, Request, Step};
use crate::target::{Target, TargetOs};

verus! {

/// A socket, by its descriptor.
#[derive(Debug, PartialEq, Eq, Structural)]
pub struct Socket {
    pub fd: c_int,
}

/// Which halves of a connection to shut down.
#[derive(Clone, Copy, Debug, PartialEq, Eq, Structural)]
pub enum Shutdown {
    Read,
    Write,
    Both,
}

/// The most bytes that are asked for in one call.
pub open spec fn most(target: Target) -> int {
    if target.os is MacOs {
        c_int::MAX - 1
    } else {
        isize::MAX as int
    }
}

/// How many of `len` bytes are asked for in one call.
pub open spec fn capped(target: Target, len: usize) -> usize {
    if len <= most(target) {
        len
    } else {
        most(target) as usize
    }
}

/// The most bytes that are asked for in one call: beyond what a signed size
/// holds the outcome is not specified, and macOS refuses more than a `c_int`
/// less one.
pub fn max_len(target: &Target) -> (len: usize)
    ensures
        len == most(*target),
{
    match target.os {
        TargetOs::MacOs => c_int::MAX as usize - 1,
        _ => isize::MAX as usize,
    }
}

/// How many of `len` bytes to ask for.
fn cap(target: &Target, len: usize) -> (r: usize)
    ensures
        r == capped(*target, len),
{
    if len <= max_len(target) {
        len
    } else {
        max_len(target)
    }
}

impl Socket {
    /// The socket of a descriptor.
    pub fn from_fd(fd: c_int) -> (socket: Socket)
        ensures
            socket == (Socket { fd }),
    {
        Socket { fd }
    }

    /// The descriptor.
    pub fn as_raw_fd(&self) -> (fd: c_int)
        ensures
            fd == self.fd,
    {
        self.fd
    }

    /// Gives the descriptor up, without closing it.
    pub fn into_raw_fd(self) -> (fd: c_int)
        ensures
            fd == self.fd,
    {
        self.fd
    }

    /// Closes the socket, which is the end of it whether the call succeeds or
    /// not.
    pub fn close<'a>(self) -> (step: Step<'a, Ignore, ()>)
        ensures
            asks(step, (Request::Close { fd: self.fd }), Ignore),
    {
        Step::Call(Request::Close { fd: self.fd }, Ignore)
    }

    /// Binds the socket to `addr`.
    pub fn bind<'a>(&self, addr: &'a SockAddr) -> (step: Step<'a, ReadNothing, ()>)
        ensures
            asks(step, (Request::Bind { fd: self.fd, addr }), ReadNothing),
    {
        Step::Call(Request::Bind { fd: self.fd, addr }, ReadNothing)
    }

    /// Has the socket take connections, `backlog` of which may be waiting.
    pub fn listen<'a>(&self, backlog: i32) -> (step: Step<'a, ReadNothing, ()>)
        ensures
            asks(step, (Request::Listen { fd: self.fd, backlog }), ReadNothing),
    {
        Step::Call(Request::Listen { fd: self.fd, backlog }, ReadNothing)
    }

    /// Connects the socket to `addr`.
    pub fn connect<'a>(&self, addr: &'a SockAddr) -> (step: Step<'a, ReadNothing, ()>)
        ensures
            asks(step, (Request::Connect { fd: self.fd, addr }), ReadNothing),
    {
        Step::Call(Request::Connect { fd: self.fd, addr }, ReadNothing)
    }

    /// The address that the socket is bound to.
    pub fn local_addr<'a>(&self, target: &Target) -> (step: Step<'a, ReadAddr, SockAddr>)
        ensures
            asks(
                step,
                (Request::GetSockName { fd: self.fd, room: target.layout.storage }),
                ReadAddr,
            ),
    {
        Step::Call(Request::GetSockName { fd: self.fd, room: target.layout.storage }, ReadAddr)
    }

    /// The address that the socket is connected to.
    pub fn peer_addr<'a>(&self, target: &Target) -> (step: Step<'a, ReadAddr, SockAddr>)
        ensures
            asks(
                step,
                (Request::GetPeerName { fd: self.fd, room: target.layout.storage }),
                ReadAddr,
            ),
    {
        Step::Call(Request::GetPeerName { fd: self.fd, room: target.layout.storage }, ReadAddr)
    }

    /// The error that the socket holds, which it then holds no longer.
    pub fn take_error<'a>(&self, target: &Target) -> (step: Step<
        'a,
        ReadError,
        Option<crate::error::Error>,
    >)
        ensures
            asks(
                step,
                get_opt(self.fd, target.socket.level, target.socket.error, OptKind::Int),
                ReadError,
            ),
    {
        Step::Call(
            Request::GetSockOpt {
                fd: self.fd,
                level: target.socket.level,
                name: target.socket.error,
                kind: OptKind::Int,
            },
            ReadError,
        )
    }

    /// Has the calls on the socket not wait, or wait again.
    pub fn set_nonblocking<'a>(&self, target: &Target, on: bool) -> (step: Step<'a, SetFlags, ()>)
        ensures
            step == nonblocking_change(*target, self.fd, on).first(),
    {
        nonblocking(target, self.fd, on).start()
    }

    /// Shuts down one half of the connection, or both.
    pub fn shutdown<'a>(&self, target: &Target, how: Shutdown) -> (step: Step<
        'a,
        ReadNothing,
        (),
    >)
        ensures
            asks(
                step,
                (Request::Shutdown {
                    fd: self.fd,
                    how: match how {
                        Shutdown::Write => target.transfer.shut_wr,
                        Shutdown::Read => target.transfer.shut_rd,
                        Shutdown::Both => target.transfer.shut_rdwr,
                    },
                }),
                ReadNothing,
            ),
    {
        let how: c_int = match how {
            Shutdown::Write => target.transfer.shut_wr,
            Shutdown::Read => target.transfer.shut_rd,
            Shutdown::Both => target.transfer.shut_rdwr,
        };
        Step::Call(Request::Shutdown { fd: self.fd, how }, ReadNothing)
    }

    /// Receives into a buffer of `len` bytes.
    pub fn recv<'a>(&self, target: &Target, len: usize, flags: c_int) -> (step: Step<
        'a,
        ReadCount,
        usize,
    >)
        ensures
            asks(
                step,
                (Request::Recv { fd: self.fd, len: capped(*target, len), flags }),
                ReadCount,
            ),
    {
        Step::Call(Request::Recv { fd: self.fd, len: cap(target, len), flags }, ReadCount)
    }

    /// Receives into a buffer of `len` bytes, leaving the data to be received
    /// again.
    pub fn peek<'a>(&self, target: &Target, len: usize) -> (step: Step<'a, ReadCount, usize>)
        ensures
            asks(
                step,
                (Request::Recv {
                    fd: self.fd,
                    len: capped(*target, len),
                    flags: target.transfer.msg_peek,
                }),
                ReadCount,
            ),
    {
        self.recv(target, len, target.transfer.msg_peek)
    }

    /// Receives into a buffer of `len` bytes and tells where from, leaving the
    /// data to be received again.
    pub fn peek_from<'a>(&self, target: &Target, len: usize) -> (step: Step<
        'a,
        ReadCountFrom,
        (usize, SockAddr),
    >)
        ensures
            asks(
                step,
                (Request::RecvFrom {
                    fd: self.fd,
                    len: capped(*target, len),
                    flags: target.transfer.msg_peek,
                    room: target.layout.storage,
                }),
                ReadCountFrom,
            ),
    {
        self.recv_from(target, len, target.transfer.msg_peek)
    }

    /// Receives into a buffer of `len` bytes and tells where from.
    pub fn recv_from<'a>(&self, target: &Target, len: usize, flags: c_int) -> (step: Step<
        'a,
        ReadCountFrom,
        (usize, SockAddr),
    >)
        ensures
            asks(
                step,
                (Request::RecvFrom {
                    fd: self.fd,
                    len: capped(*target, len),
                    flags,
                    room: target.layout.storage,
                }),
                ReadCountFrom,
            ),
    {
        Step::Call(
            Request::RecvFrom {
                fd: self.fd,
                len: cap(target, len),
                flags,
                room: target.layout.storage,
            },
            ReadCountFrom,
        )
    }

    /// Sends from the front of `buf`.
    pub fn send<'a>(&self, target: &Target, buf: &'a [u8], flags: c_int) -> (step: Step<
        'a,
        ReadCount,
        usize,
    >)
        ensures
            step matches Step::Call(Request::Send { fd, data, flags: f }, state) && {
                &&& fd == self.fd
                &&& data@ == buf@.take(capped(*target, buf@.len() as usize) as int)
                &&& f == flags
                &&& state == ReadCount
            },
    {
        let data = vstd::slice::slice_subrange(buf, 0, cap(target, buf.len()));
        Step::Call(Request::Send { fd: self.fd, data, flags }, ReadCount)
    }

    /// Sends from the front of `buf` to `addr`.
    pub fn send_to<'a>(
        &self,
        target: &Target,
        buf: &'a [u8],
        flags: c_int,
        addr: &'a SockAddr,
    ) -> (step: Step<'a, ReadCount, usize>)
        ensures
            step matches Step::Call(Request::SendTo { fd, data, flags: f, addr: a }, state) && {
                &&& fd == self.fd
                &&& data@ == buf@.take(capped(*target, buf@.len() as usize) as int)
                &&& f == flags
                &&& a == addr
                &&& state == ReadCount
            },
    {
        let data = vstd::slice::slice_subrange(buf, 0, cap(target, buf.len()));
        Step::Call(Request::SendTo { fd: self.fd, data, flags, addr }, ReadCount)
    }

    /// Reads into a buffer of `len` bytes.
    pub fn read<'a>(&self, target: &Target, len: usize) -> (step: Step<'a, ReadCount, usize>)
        ensures
            asks(
                step,
                (Request::Read { fd: self.fd, len: capped(*target, len) }),
                ReadCount,
            ),
    {
        Step::Call(Request::Read { fd: self.fd, len: cap(target, len) }, ReadCount)
    }

    /// Writes from the front of `buf`: sends it without flags.
    pub fn write<'a>(&self, target: &Target, buf: &'a [u8]) -> (step: Step<'a, ReadCount, usize>)
        ensures
            step matches Step::Call(Request::Send { fd, data, flags }, state) && {
                &&& fd == self.fd
                &&& data@ == buf@.take(capped(*target, buf@.len() as usize) as int)
                &&& flags == 0
                &&& state == ReadCount
            },
    {
        self.send(target, buf, 0)
    }

    /// Flushes the socket, which holds nothing back.
    pub fn flush<'a>(&self) -> (step: Step<'a, Ignore, ()>)
        ensures
            ends(step, Ok(())),
    {
        Step::Done(Ok(()))
    }
}

/// What there is to tell of a socket.
#[derive(Debug)]
pub struct Description {
    pub fd: c_int,
    pub local_addr: Option<SockAddr>,
    pub peer_addr: Option<SockAddr>,
}

/// Finding out what there is to tell of a socket.
#[derive(Debug)]
pub enum Describe {
    Local { fd: c_int },
    Peer { fd: c_int, local_addr: Option<SockAddr> },
}

/// The address in `reply`, if the call for it succeeded.
pub open spec fn known(reply: Reply) -> Option<SockAddr> {
    match reply->Addr_0 {
        Ok(addr) => Some(addr),
        Err(_) => None,
    }
}

impl<'a> Operation<'a> for Describe {
    type Output = Description;

    open spec fn accepts(self, reply: Reply) -> bool {
        reply is Addr
    }

    open spec fn next(self, target: Target, reply: Reply) -> Step<'a, Self, Description> {
        match self {
            Describe::Local { fd } => Step::Call(
                Request::GetPeerName { fd, room: target.layout.storage },
                Describe::Peer { fd, local_addr: known(reply) },
            ),
            Describe::Peer { fd, local_addr } => Step::Done(
                Ok(Description { fd, local_addr, peer_addr: known(reply) }),
            ),
        }
    }

    fn resume(self, target: &Target, reply: Reply) -> (step: Step<'a, Self, Description>) {
        let addr = match reply {
            Reply::Addr(Ok(addr)) => Some(addr),
            _ => None,
        };
        match self {
            Describe::Local { fd } => Step::Call(
                Request::GetPeerName { fd, room: target.layout.storage },
                Describe::Peer { fd, local_addr: addr },
            ),
            Describe::Peer { fd, local_addr } => Step::Done(
                Ok(Description { fd, local_addr, peer_addr: addr }),
            ),
        }
    }
}

impl Socket {
    /// Finds out what there is to tell of the socket: its descriptor, and its
    /// addresses as far as it has them.
    pub fn describe<'a>(&self, target: &Target) -> (step: Step<'a, Describe, Description>)
        ensures
            asks(
                step,
                (Request::GetSockName { fd: self.fd, room: target.layout.storage }),
                (Describe::Local { fd: self.fd }),
            ),
    {
        let fd: c_int = self.fd;
        Step::Call(
            Request::GetSockName { fd, room: target.layout.storage },
            Describe::Local { fd },
        )
    }
}

} // verus!
