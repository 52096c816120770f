//! Duplicating a socket.

use libc::c_int;
use vstd::prelude::*;

use crate::error::Error;
use crate::flags::{cloexec, cloexec_change, SetFlags};
use crate::socket::Socket;
use crate::syscall::{code_of, Operation, Reply, Request, Step};
use crate::target::{Target, TargetOs};

verus! {

/// Duplicating a socket.
#[derive(Clone, Copy, Debug)]
pub enum TryClone {
    /// A duplicate of `fd` that is marked from the start was asked for.
    Marked { fd: c_int },
    Noting { fd: c_int },
    /// A plain duplicate was asked for.
    Plain,
    Marking { fd: c_int, flags: SetFlags },
    Closing { error: Error },
}

impl TryClone {
    /// The beginning.
    pub open spec fn first<'a>(target: Target, fd: c_int, cloexec_failed: bool) -> Step<
        'a,
        TryClone,
        Socket,
    > {
        if cloexec_failed {
            TryClone::plain(target, fd)
        } else {
            Step::Call(
                Request::Fcntl { fd, cmd: target.fcntl.dupfd_cloexec, arg: Some(0) },
                TryClone::Marked { fd },
            )
        }
    }

    /// At the request for a plain duplicate of `fd`.
    pub open spec fn plain<'a>(target: Target, fd: c_int) -> Step<'a, TryClone, Socket> {
        Step::Call(
            Request::Fcntl { fd, cmd: target.fcntl.dupfd, arg: Some(0) },
            TryClone::Plain,
        )
    }

    /// At the first request to mark the duplicate `fd`.
    pub open spec fn mark<'a>(target: Target, fd: c_int) -> Step<'a, TryClone, Socket> {
        let change = cloexec_change(target, fd);
        Step::Call(change.request(), TryClone::Marking { fd, flags: SetFlags::Reading(change) })
    }
}

impl<'a> Operation<'a> for TryClone {
    type Output = Socket;

    open spec fn accepts(self, reply: Reply) -> bool {
        match self {
            TryClone::Noting { .. } => reply is Done,
            _ => reply is Code,
        }
    }

    open spec fn next(self, target: Target, reply: Reply) -> Step<'a, Self, Socket> {
        match self {
            TryClone::Marked { fd } => match reply->Code_0 {
                Ok(new) => if target.os is Linux {
                    TryClone::mark(target, new)
                } else {
                    Step::Done(Ok(Socket { fd: new }))
                },
                Err(e) => if e == target.errno.einval {
                    Step::Call(Request::NoteDupCloexecFailed, TryClone::Noting { fd })
                } else {
                    Step::Done(Err(Error::Os(e)))
                },
            },
            TryClone::Noting { fd } => TryClone::plain(target, fd),
            TryClone::Plain => match reply->Code_0 {
                Ok(new) => TryClone::mark(target, new),
                Err(e) => Step::Done(Err(Error::Os(e))),
            },
            TryClone::Marking { fd, flags } => match flags.next(target, reply) {
                Step::Call(request, flags) => Step::Call(
                    request,
                    TryClone::Marking { fd, flags },
                ),
                Step::Done(Ok(_)) => Step::Done(Ok(Socket { fd })),
                Step::Done(Err(error)) => Step::Call(
                    Request::Close { fd },
                    TryClone::Closing { error },
                ),
            },
            TryClone::Closing { error } => Step::Done(Err(error)),
        }
    }

    fn resume(self, target: &Target, reply: Reply) -> (step: Step<'a, Self, Socket>) {
        match self {
            TryClone::Marked { fd } => match code_of(reply) {
                Ok(new) => match target.os {
                    TargetOs::Linux => {
                        let change = cloexec(target, new);
                        Step::Call(
                            change.ask(),
                            TryClone::Marking { fd: new, flags: SetFlags::Reading(change) },
                        )
                    },
                    _ => Step::Done(Ok(Socket { fd: new })),
                },
                Err(e) => if e == target.errno.einval {
                    Step::Call(Request::NoteDupCloexecFailed, TryClone::Noting { fd })
                } else {
                    Step::Done(Err(Error::Os(e)))
                },
            },
            TryClone::Noting { fd } => Step::Call(
                Request::Fcntl { fd, cmd: target.fcntl.dupfd, arg: Some(0) },
                TryClone::Plain,
            ),
            TryClone::Plain => match code_of(reply) {
                Ok(new) => {
                    let change = cloexec(target, new);
                    Step::Call(
                        change.ask(),
                        TryClone::Marking { fd: new, flags: SetFlags::Reading(change) },
                    )
                },
                Err(e) => Step::Done(Err(Error::Os(e))),
            },
            TryClone::Marking { fd, flags } => match flags.resume(target, reply) {
                Step::Call(request, flags) => Step::Call(
                    request,
                    TryClone::Marking { fd, flags },
                ),
                Step::Done(Ok(_)) => Step::Done(Ok(Socket { fd })),
                Step::Done(Err(error)) => Step::Call(
                    Request::Close { fd },
                    TryClone::Closing { error },
                ),
            },
            TryClone::Closing { error } => Step::Done(Err(error)),
        }
    }
}

impl Socket {
    /// Duplicates the socket; the duplicate is closed on `exec`.
    /// `cloexec_failed` tells that an earlier operation noted that duplicating
    /// and marking in one call does not work here.
    pub fn try_clone<'a>(&self, target: &Target, cloexec_failed: bool) -> (step: Step<
        'a,
        TryClone,
        Socket,
    >)
        ensures
            step == TryClone::first(*target, self.fd, cloexec_failed),
    {
        let fd: c_int = self.fd;
        if !cloexec_failed {
            Step::Call(
                Request::Fcntl { fd, cmd: target.fcntl.dupfd_cloexec, arg: Some(0) },
                TryClone::Marked { fd },
            )
        } else {
            Step::Call(
                Request::Fcntl { fd, cmd: target.fcntl.dupfd, arg: Some(0) },
                TryClone::Plain,
            )
        }
    }
}

} // verus!
