//! Taking a connection.

use libc::c_int;
use vstd::prelude::*;

use crate::addr::SockAddr;
use crate::error::Error;
use crate::flags::{cloexec, cloexec_change, SetFlags};
use crate::socket::Socket;
use crate::syscall::{Operation, Reply, Request, Step};
use crate::target::{Target, TargetOs};

verus! {

/// Taking a connection.
#[derive(Debug)]
pub enum Accept {
    /// A socket that is marked from the start was asked for, on `fd`.
    Marked { fd: c_int },
    /// A plain socket was asked for.
    Plain,
    Marking { fd: c_int, addr: SockAddr, flags: SetFlags },
    Closing { error: Error },
}

impl Accept {
    /// The beginning.
    pub open spec fn first<'a>(target: Target, fd: c_int) -> Step<'a, Accept, (Socket, SockAddr)> {
        if target.os is Linux {
            Step::Call(
                Request::Accept4 { fd, room: target.layout.storage, flags: target.ty.cloexec },
                Accept::Marked { fd },
            )
        } else {
            Accept::plain(target, fd)
        }
    }

    /// At the request for a plain socket.
    pub open spec fn plain<'a>(target: Target, fd: c_int) -> Step<'a, Accept, (Socket, SockAddr)> {
        Step::Call(Request::Accept { fd, room: target.layout.storage }, Accept::Plain)
    }
}

impl<'a> Operation<'a> for Accept {
    type Output = (Socket, SockAddr);

    open spec fn accepts(self, reply: Reply) -> bool {
        match self {
            Accept::Marked { .. } | Accept::Plain => reply is Accepted,
            _ => reply is Code,
        }
    }

    open spec fn next(self, target: Target, reply: Reply) -> Step<'a, Self, (Socket, SockAddr)> {
        match self {
            Accept::Marked { fd } => match reply->Accepted_0 {
                Ok((new, addr)) => Step::Done(Ok((Socket { fd: new }, addr))),
                Err(e) => if e == target.errno.enosys {
                    Accept::plain(target, fd)
                } else {
                    Step::Done(Err(Error::Os(e)))
                },
            },
            Accept::Plain => match reply->Accepted_0 {
                Ok((new, addr)) => {
                    let change = cloexec_change(target, new);
                    Step::Call(
                        change.request(),
                        Accept::Marking { fd: new, addr, flags: SetFlags::Reading(change) },
                    )
                },
                Err(e) => Step::Done(Err(Error::Os(e))),
            },
            Accept::Marking { fd, addr, flags } => match flags.next(target, reply) {
                Step::Call(request, flags) => Step::Call(
                    request,
                    Accept::Marking { fd, addr, flags },
                ),
                Step::Done(Ok(_)) => Step::Done(Ok((Socket { fd }, addr))),
                Step::Done(Err(error)) => Step::Call(
                    Request::Close { fd },
                    Accept::Closing { error },
                ),
            },
            Accept::Closing { error } => Step::Done(Err(error)),
        }
    }

    fn resume(self, target: &Target, reply: Reply) -> (step: Step<'a, Self, (Socket, SockAddr)>) {
        match self {
            Accept::Marked { fd } => match accepted_of(reply) {
                Ok((new, addr)) => Step::Done(Ok((Socket { fd: new }, addr))),
                Err(e) => if e == target.errno.enosys {
                    Step::Call(Request::Accept { fd, room: target.layout.storage }, Accept::Plain)
                } else {
                    Step::Done(Err(Error::Os(e)))
                },
            },
            Accept::Plain => match accepted_of(reply) {
                Ok((new, addr)) => {
                    let change = cloexec(target, new);
                    Step::Call(
                        change.ask(),
                        Accept::Marking { fd: new, addr, flags: SetFlags::Reading(change) },
                    )
                },
                Err(e) => Step::Done(Err(Error::Os(e))),
            },
            Accept::Marking { fd, addr, flags } => match flags.resume(target, reply) {
                Step::Call(request, flags) => Step::Call(
                    request,
                    Accept::Marking { fd, addr, flags },
                ),
                Step::Done(Ok(_)) => Step::Done(Ok((Socket { fd }, addr))),
                Step::Done(Err(error)) => Step::Call(
                    Request::Close { fd },
                    Accept::Closing { error },
                ),
            },
            Accept::Closing { error } => Step::Done(Err(error)),
        }
    }
}

/// The connection of an accepted [`Reply::Accepted`].
fn accepted_of(reply: Reply) -> (r: Result<(c_int, SockAddr), c_int>)
    requires
        reply is Accepted,
    ensures
        reply == Reply::Accepted(r),
{
    match reply {
        Reply::Accepted(r) => r,
        _ => Err(0),
    }
}

impl Socket {
    /// Takes a connection; its socket is closed on `exec`.  On Linux one that
    /// is marked so from the start is asked for first; kernels that do not
    /// know the call say so, and then the socket is marked afterwards.
    pub fn accept<'a>(&self, target: &Target) -> (step: Step<'a, Accept, (Socket, SockAddr)>)
        ensures
            step == Accept::first(*target, self.fd),
    {
        let fd: c_int = self.fd;
        match target.os {
            TargetOs::Linux => Step::Call(
                Request::Accept4 { fd, room: target.layout.storage, flags: target.ty.cloexec },
                Accept::Marked { fd },
            ),
            _ => Step::Call(Request::Accept { fd, room: target.layout.storage }, Accept::Plain),
        }
    }
}

} // verus!
