//! Changing one flag of a descriptor.

use libc::c_int;
use vstd::prelude::*;

use crate::error::Error;
use crate::syscall::{code_of, Operation, Reply, Request, Step};
use crate::target::Target;

verus! {

/// A flag of a descriptor, and what it is to become.
#[derive(Clone, Copy, Debug)]
pub struct Change {
    pub fd: c_int,
    /// The command that reads the flags.
    pub get: c_int,
    /// The command that writes them.
    pub set: c_int,
    pub flag: c_int,
    pub on: bool,
}

/// The flags `previous`, with `change` made to them.
pub open spec fn changed(change: Change, previous: c_int) -> c_int {
    if change.on {
        previous | change.flag
    } else {
        previous & !change.flag
    }
}

/// Reads the flags, and writes them where the change makes a difference.
#[derive(Clone, Copy, Debug)]
pub enum SetFlags {
    Reading(Change),
    Writing,
}

impl Change {
    /// The first request.
    pub open spec fn request<'a>(self) -> Request<'a> {
        Request::Fcntl { fd: self.fd, cmd: self.get, arg: None }
    }

    /// The beginning of the change.
    pub open spec fn first<'a>(self) -> Step<'a, SetFlags, ()> {
        Step::Call(self.request(), SetFlags::Reading(self))
    }

    /// Asks for the flags.
    pub(crate) fn ask<'a>(&self) -> (request: Request<'a>)
        ensures
            request == self.request(),
    {
        Request::Fcntl { fd: self.fd, cmd: self.get, arg: None }
    }

    /// Begins the change.
    pub fn start<'a>(self) -> (step: Step<'a, SetFlags, ()>)
        ensures
            step == self.first(),
    {
        Step::Call(self.ask(), SetFlags::Reading(self))
    }
}

impl<'a> Operation<'a> for SetFlags {
    type Output = ();

    open spec fn accepts(self, reply: Reply) -> bool {
        reply is Code
    }

    open spec fn next(self, target: Target, reply: Reply) -> Step<'a, Self, ()> {
        match (self, reply->Code_0) {
            (_, Err(e)) => Step::Done(Err(Error::Os(e))),
            (SetFlags::Reading(change), Ok(previous)) => {
                let new = changed(change, previous);
                if new == previous {
                    Step::Done(Ok(()))
                } else {
                    Step::Call(
                        Request::Fcntl { fd: change.fd, cmd: change.set, arg: Some(new) },
                        SetFlags::Writing,
                    )
                }
            },
            (SetFlags::Writing, Ok(_)) => Step::Done(Ok(())),
        }
    }

    fn resume(self, target: &Target, reply: Reply) -> (step: Step<'a, Self, ()>) {
        match (self, code_of(reply)) {
            (_, Err(e)) => Step::Done(Err(Error::Os(e))),
            (SetFlags::Reading(change), Ok(previous)) => {
                let new: c_int = if change.on {
                    previous | change.flag
                } else {
                    previous & !change.flag
                };
                if new != previous {
                    Step::Call(
                        Request::Fcntl { fd: change.fd, cmd: change.set, arg: Some(new) },
                        SetFlags::Writing,
                    )
                } else {
                    Step::Done(Ok(()))
                }
            },
            (SetFlags::Writing, Ok(_)) => Step::Done(Ok(())),
        }
    }
}

/// The change that has a descriptor closed when another program is executed.
pub open spec fn cloexec_change(target: Target, fd: c_int) -> Change {
    Change {
        fd,
        get: target.fcntl.getfd,
        set: target.fcntl.setfd,
        flag: target.fcntl.fd_cloexec,
        on: true,
    }
}

/// The change that has the calls on a descriptor wait, or not.
pub open spec fn nonblocking_change(target: Target, fd: c_int, nonblocking: bool) -> Change {
    Change {
        fd,
        get: target.fcntl.getfl,
        set: target.fcntl.setfl,
        flag: target.fcntl.o_nonblock,
        on: nonblocking,
    }
}

/// Names [`cloexec_change`].
pub(crate) fn cloexec(target: &Target, fd: c_int) -> (change: Change)
    ensures
        change == cloexec_change(*target, fd),
{
    Change {
        fd,
        get: target.fcntl.getfd,
        set: target.fcntl.setfd,
        flag: target.fcntl.fd_cloexec,
        on: true,
    }
}

/// Names [`nonblocking_change`].
pub(crate) fn nonblocking(target: &Target, fd: c_int, on: bool) -> (change: Change)
    ensures
        change == nonblocking_change(*target, fd, on),
{
    Change {
        fd,
        get: target.fcntl.getfl,
        set: target.fcntl.setfl,
        flag: target.fcntl.o_nonblock,
        on,
    }
}

/// Has `fd` closed when another program is executed.
pub fn set_cloexec<'a>(target: &Target, fd: c_int) -> (step: Step<'a, SetFlags, ()>)
    ensures
        step == cloexec_change(*target, fd).first(),
{
    cloexec(target, fd).start()
}

} // verus!
