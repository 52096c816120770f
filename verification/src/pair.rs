//! Making a pair of sockets.

use libc::c_int;
use vstd::prelude::*;

use crate::error::Error;
use crate::flags::{cloexec, cloexec_change, SetFlags};
use crate::socket::Socket;
use crate::syscall::{code_of, OptValue, Operation, Reply, Request, Step};
use crate::target::Target;

verus! {

/// Making two connected sockets.
#[derive(Clone, Copy, Debug)]
pub enum Pair {
    Plain,
    MarkingFirst { fds: (c_int, c_int), flags: SetFlags },
    MarkingSecond { fds: (c_int, c_int), flags: SetFlags },
    SilencingFirst { fds: (c_int, c_int), name: c_int },
    SilencingSecond { fds: (c_int, c_int) },
    /// The first socket is being closed, the second is still open.
    ClosingFirst { second: c_int, error: Error },
    ClosingSecond { error: Error },
}

impl Pair {
    /// The beginning.
    pub open spec fn first<'a>(family: c_int, ty: c_int, protocol: c_int) -> Step<
        'a,
        Pair,
        (Socket, Socket),
    > {
        Step::Call(Request::SocketPair { family, ty, protocol }, Pair::Plain)
    }

    /// The end, with both sockets.
    pub open spec fn made<'a>(fds: (c_int, c_int)) -> Step<'a, Pair, (Socket, Socket)> {
        Step::Done(Ok((Socket { fd: fds.0 }, Socket { fd: fds.1 })))
    }

    /// After both sockets were marked.
    pub open spec fn marked<'a>(target: Target, fds: (c_int, c_int)) -> Step<
        'a,
        Pair,
        (Socket, Socket),
    > {
        match target.nosigpipe {
            Some(name) => Step::Call(
                Request::SetSockOpt {
                    fd: fds.0,
                    level: target.socket.level,
                    name,
                    value: OptValue::Int(1),
                },
                Pair::SilencingFirst { fds, name },
            ),
            None => Pair::made(fds),
        }
    }

    /// After something failed on one of the new sockets.
    pub open spec fn failed<'a>(fds: (c_int, c_int), error: Error) -> Step<
        'a,
        Pair,
        (Socket, Socket),
    > {
        Step::Call(Request::Close { fd: fds.0 }, Pair::ClosingFirst { second: fds.1, error })
    }
}

impl<'a> Operation<'a> for Pair {
    type Output = (Socket, Socket);

    open spec fn accepts(self, reply: Reply) -> bool {
        match self {
            Pair::Plain => reply is Pair,
            _ => reply is Code,
        }
    }

    open spec fn next(self, target: Target, reply: Reply) -> Step<'a, Self, (Socket, Socket)> {
        match self {
            Pair::Plain => match reply->Pair_0 {
                Ok(fds) => {
                    let change = cloexec_change(target, fds.0);
                    Step::Call(
                        change.request(),
                        Pair::MarkingFirst { fds, flags: SetFlags::Reading(change) },
                    )
                },
                Err(e) => Step::Done(Err(Error::Os(e))),
            },
            Pair::MarkingFirst { fds, flags } => match flags.next(target, reply) {
                Step::Call(request, flags) => Step::Call(
                    request,
                    Pair::MarkingFirst { fds, flags },
                ),
                Step::Done(Ok(_)) => {
                    let change = cloexec_change(target, fds.1);
                    Step::Call(
                        change.request(),
                        Pair::MarkingSecond { fds, flags: SetFlags::Reading(change) },
                    )
                },
                Step::Done(Err(error)) => Pair::failed(fds, error),
            },
            Pair::MarkingSecond { fds, flags } => match flags.next(target, reply) {
                Step::Call(request, flags) => Step::Call(
                    request,
                    Pair::MarkingSecond { fds, flags },
                ),
                Step::Done(Ok(_)) => Pair::marked(target, fds),
                Step::Done(Err(error)) => Pair::failed(fds, error),
            },
            Pair::SilencingFirst { fds, name } => match reply->Code_0 {
                Ok(_) => Step::Call(
                    Request::SetSockOpt {
                        fd: fds.1,
                        level: target.socket.level,
                        name,
                        value: OptValue::Int(1),
                    },
                    Pair::SilencingSecond { fds },
                ),
                Err(e) => Pair::failed(fds, Error::Os(e)),
            },
            Pair::SilencingSecond { fds } => match reply->Code_0 {
                Ok(_) => Pair::made(fds),
                Err(e) => Pair::failed(fds, Error::Os(e)),
            },
            Pair::ClosingFirst { second, error } => Step::Call(
                Request::Close { fd: second },
                Pair::ClosingSecond { error },
            ),
            Pair::ClosingSecond { error } => Step::Done(Err(error)),
        }
    }

    fn resume(self, target: &Target, reply: Reply) -> (step: Step<'a, Self, (Socket, Socket)>) {
        match self {
            Pair::Plain => match pair_of(reply) {
                Ok(fds) => {
                    let change = cloexec(target, fds.0);
                    Step::Call(
                        change.ask(),
                        Pair::MarkingFirst { fds, flags: SetFlags::Reading(change) },
                    )
                },
                Err(e) => Step::Done(Err(Error::Os(e))),
            },
            Pair::MarkingFirst { fds, flags } => match flags.resume(target, reply) {
                Step::Call(request, flags) => Step::Call(
                    request,
                    Pair::MarkingFirst { fds, flags },
                ),
                Step::Done(Ok(_)) => {
                    let change = cloexec(target, fds.1);
                    Step::Call(
                        change.ask(),
                        Pair::MarkingSecond { fds, flags: SetFlags::Reading(change) },
                    )
                },
                Step::Done(Err(error)) => close_both(fds, error),
            },
            Pair::MarkingSecond { fds, flags } => match flags.resume(target, reply) {
                Step::Call(request, flags) => Step::Call(
                    request,
                    Pair::MarkingSecond { fds, flags },
                ),
                Step::Done(Ok(_)) => match target.nosigpipe {
                    Some(name) => Step::Call(
                        Request::SetSockOpt {
                            fd: fds.0,
                            level: target.socket.level,
                            name,
                            value: OptValue::Int(1),
                        },
                        Pair::SilencingFirst { fds, name },
                    ),
                    None => made(fds),
                },
                Step::Done(Err(error)) => close_both(fds, error),
            },
            Pair::SilencingFirst { fds, name } => match code_of(reply) {
                Ok(_) => Step::Call(
                    Request::SetSockOpt {
                        fd: fds.1,
                        level: target.socket.level,
                        name,
                        value: OptValue::Int(1),
                    },
                    Pair::SilencingSecond { fds },
                ),
                Err(e) => close_both(fds, Error::Os(e)),
            },
            Pair::SilencingSecond { fds } => match code_of(reply) {
                Ok(_) => made(fds),
                Err(e) => close_both(fds, Error::Os(e)),
            },
            Pair::ClosingFirst { second, error } => Step::Call(
                Request::Close { fd: second },
                Pair::ClosingSecond { error },
            ),
            Pair::ClosingSecond { error } => Step::Done(Err(error)),
        }
    }
}

/// Ends with both sockets.
fn made<'a>(fds: (c_int, c_int)) -> (step: Step<'a, Pair, (Socket, Socket)>)
    ensures
        step == Pair::made(fds),
{
    Step::Done(Ok((Socket { fd: fds.0 }, Socket { fd: fds.1 })))
}

/// Closes both sockets, the first one first.
fn close_both<'a>(fds: (c_int, c_int), error: Error) -> (step: Step<'a, Pair, (Socket, Socket)>)
    ensures
        step == Pair::failed(fds, error),
{
    Step::Call(Request::Close { fd: fds.0 }, Pair::ClosingFirst { second: fds.1, error })
}

/// The descriptors of an accepted [`Reply::Pair`].
fn pair_of(reply: Reply) -> (r: Result<(c_int, c_int), c_int>)
    requires
        reply is Pair,
    ensures
        reply == Reply::Pair(r),
{
    match reply {
        Reply::Pair(r) => r,
        _ => Err(0),
    }
}

impl Socket {
    /// Makes two sockets that are connected to each other and closed on
    /// `exec`.
    pub fn pair<'a>(family: c_int, ty: c_int, protocol: c_int) -> (step: Step<
        'a,
        Pair,
        (Socket, Socket),
    >)
        ensures
            step == Pair::first(family, ty, protocol),
    {
        Step::Call(Request::SocketPair { family, ty, protocol }, Pair::Plain)
    }
}

} // verus!
