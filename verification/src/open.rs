//! Making a socket.

use libc::c_int;
use vstd::prelude::*;

use crate::error::Error;
use crate::flags::{cloexec, cloexec_change, SetFlags};
use crate::socket::Socket;
use crate::syscall::{code_of, OptValue, Operation, Reply, Request, Step};
use crate::target::{Target, TargetOs};

verus! {

/// Making one socket.
#[derive(Clone, Copy, Debug)]
pub enum New {
    /// A socket that is marked from the start was asked for.
    Marked { family: c_int, ty: c_int, protocol: c_int },
    /// A plain socket was asked for.
    Plain,
    Marking { fd: c_int, flags: SetFlags },
    Silencing { fd: c_int },
    Closing { error: Error },
}

impl New {
    /// The beginning.
    pub open spec fn first<'a>(
        target: Target,
        family: c_int,
        ty: c_int,
        protocol: c_int,
    ) -> Step<'a, New, Socket> {
        if target.os is Linux {
            Step::Call(
                Request::Socket { family, ty: ty | target.ty.cloexec, protocol },
                New::Marked { family, ty, protocol },
            )
        } else {
            Step::Call(Request::Socket { family, ty, protocol }, New::Plain)
        }
    }

    /// After the socket `fd` was marked.
    pub open spec fn marked<'a>(target: Target, fd: c_int) -> Step<'a, New, Socket> {
        match target.nosigpipe {
            Some(name) => Step::Call(
                Request::SetSockOpt {
                    fd,
                    level: target.socket.level,
                    name,
                    value: OptValue::Int(1),
                },
                New::Silencing { fd },
            ),
            None => Step::Done(Ok(Socket { fd })),
        }
    }

    /// After something failed on the new socket `fd`.
    pub open spec fn failed<'a>(fd: c_int, error: Error) -> Step<'a, New, Socket> {
        Step::Call(Request::Close { fd }, New::Closing { error })
    }
}

impl<'a> Operation<'a> for New {
    type Output = Socket;

    open spec fn accepts(self, reply: Reply) -> bool {
        reply is Code
    }

    open spec fn next(self, target: Target, reply: Reply) -> Step<'a, Self, Socket> {
        match self {
            New::Marked { family, ty, protocol } => match reply->Code_0 {
                Ok(fd) => Step::Done(Ok(Socket { fd })),
                Err(e) => if e == target.errno.einval {
                    Step::Call(Request::Socket { family, ty, protocol }, New::Plain)
                } else {
                    Step::Done(Err(Error::Os(e)))
                },
            },
            New::Plain => match reply->Code_0 {
                Ok(fd) => {
                    let change = cloexec_change(target, fd);
                    Step::Call(
                        change.request(),
                        New::Marking { fd, flags: SetFlags::Reading(change) },
                    )
                },
                Err(e) => Step::Done(Err(Error::Os(e))),
            },
            New::Marking { fd, flags } => match flags.next(target, reply) {
                Step::Call(request, flags) => Step::Call(request, New::Marking { fd, flags }),
                Step::Done(Ok(_)) => New::marked(target, fd),
                Step::Done(Err(error)) => New::failed(fd, error),
            },
            New::Silencing { fd } => match reply->Code_0 {
                Ok(_) => Step::Done(Ok(Socket { fd })),
                Err(e) => New::failed(fd, Error::Os(e)),
            },
            New::Closing { error } => Step::Done(Err(error)),
        }
    }

    fn resume(self, target: &Target, reply: Reply) -> (step: Step<'a, Self, Socket>) {
        match self {
            New::Marked { family, ty, protocol } => match code_of(reply) {
                Ok(fd) => Step::Done(Ok(Socket { fd })),
                Err(e) => if e == target.errno.einval {
                    Step::Call(Request::Socket { family, ty, protocol }, New::Plain)
                } else {
                    Step::Done(Err(Error::Os(e)))
                },
            },
            New::Plain => match code_of(reply) {
                Ok(fd) => {
                    let change = cloexec(target, fd);
                    Step::Call(
                        change.ask(),
                        New::Marking { fd, flags: SetFlags::Reading(change) },
                    )
                },
                Err(e) => Step::Done(Err(Error::Os(e))),
            },
            New::Marking { fd, flags } => match flags.resume(target, reply) {
                Step::Call(request, flags) => Step::Call(request, New::Marking { fd, flags }),
                Step::Done(Ok(_)) => match target.nosigpipe {
                    Some(name) => Step::Call(
                        Request::SetSockOpt {
                            fd,
                            level: target.socket.level,
                            name,
                            value: OptValue::Int(1),
                        },
                        New::Silencing { fd },
                    ),
                    None => Step::Done(Ok(Socket { fd })),
                },
                Step::Done(Err(error)) => Step::Call(
                    Request::Close { fd },
                    New::Closing { error },
                ),
            },
            New::Silencing { fd } => match code_of(reply) {
                Ok(_) => Step::Done(Ok(Socket { fd })),
                Err(e) => Step::Call(
                    Request::Close { fd },
                    New::Closing { error: Error::Os(e) },
                ),
            },
            New::Closing { error } => Step::Done(Err(error)),
        }
    }
}

impl Socket {
    /// Makes a socket that is closed on `exec`.  On Linux one that is marked
    /// so from the start is asked for first; kernels that do not know the flag
    /// answer that it is invalid, and then the socket is marked afterwards.
    pub fn new<'a>(target: &Target, family: c_int, ty: c_int, protocol: c_int) -> (step: Step<
        'a,
        New,
        Socket,
    >)
        ensures
            step == New::first(*target, family, ty, protocol),
    {
        match target.os {
            TargetOs::Linux => Step::Call(
                Request::Socket { family, ty: ty | target.ty.cloexec, protocol },
                New::Marked { family, ty, protocol },
            ),
            _ => Step::Call(Request::Socket { family, ty, protocol }, New::Plain),
        }
    }
}

} // verus!
