//! Connecting within a time.

use libc::c_int;
use vstd::prelude::*;

use crate::addr::SockAddr;
use crate::error::Error;
use crate::flags::{nonblocking, nonblocking_change, SetFlags};
use crate::read::{is_int, ReadError};
use crate::socket::Socket;
use crate::syscall::{answers, code_of, OptKind, Operation, Polled, Reply, Request, Step};
use crate::target::Target;
use crate::time::{poll_millis, poll_timeout, Duration};

verus! {

/// What has been asked for last.
#[derive(Clone, Copy, Debug)]
pub enum Phase {
    /// That calls on the socket do not wait.
    Unblocking { flags: SetFlags },
    /// The connection.
    Connecting,
    /// That calls on the socket wait again; `connected` is what came of the
    /// connection.
    Blocking { connected: Result<c_int, c_int>, flags: SetFlags },
    /// That time be counted.
    Starting,
    /// The time that has passed.
    Measuring,
    /// That the socket become writable.
    Polling,
    /// The error that the socket holds.
    TakingError,
}

/// Connecting within a time.
#[derive(Clone, Copy, Debug)]
pub struct ConnectTimeout<'a> {
    pub fd: c_int,
    pub addr: &'a SockAddr,
    pub timeout: Duration,
    pub phase: Phase,
}

impl<'a> ConnectTimeout<'a> {
    /// The same connection, in another phase.
    pub open spec fn at(self, phase: Phase) -> ConnectTimeout<'a> {
        ConnectTimeout { phase, ..self }
    }

    /// The beginning.
    pub open spec fn first(target: Target, fd: c_int, addr: &'a SockAddr, timeout: Duration) -> Step<
        'a,
        ConnectTimeout<'a>,
        (),
    > {
        let change = nonblocking_change(target, fd, true);
        let phase = Phase::Unblocking { flags: SetFlags::Reading(change) };
        Step::Call(change.request(), ConnectTimeout { fd, addr, timeout, phase })
    }

    /// Once calls on the socket wait again: the connection is made, has
    /// failed, or is under way.
    pub open spec fn connected(self, target: Target, connected: Result<c_int, c_int>) -> Step<
        'a,
        ConnectTimeout<'a>,
        (),
    > {
        match connected {
            Ok(_) => Step::Done(Ok(())),
            Err(e) => if e != target.errno.einprogress {
                Step::Done(Err(Error::Os(e)))
            } else if self.timeout@ == 0 {
                Step::Done(Err(Error::ZeroTimeout))
            } else {
                Step::Call(Request::StartClock, self.at(Phase::Starting))
            },
        }
    }

    /// At the question how much time has passed.
    pub open spec fn measure(self) -> Step<'a, ConnectTimeout<'a>, ()> {
        Step::Call(Request::Elapsed, self.at(Phase::Measuring))
    }

    /// After a time has passed: too much, or there is some left to wait.
    pub open spec fn wait(self, target: Target, elapsed: Duration) -> Step<
        'a,
        ConnectTimeout<'a>,
        (),
    > {
        if elapsed@ >= self.timeout@ {
            Step::Done(Err(Error::TimedOut))
        } else {
            Step::Call(
                Request::Poll {
                    fd: self.fd,
                    events: target.transfer.pollout,
                    timeout: poll_millis((self.timeout@ - elapsed@) as nat),
                },
                self.at(Phase::Polling),
            )
        }
    }

    /// After a wait, which is taken up again if a signal interrupted it.  A
    /// refused connection is writable too, but hung up.
    pub open spec fn polled(self, target: Target, polled: Polled) -> Step<
        'a,
        ConnectTimeout<'a>,
        (),
    > {
        match polled {
            Polled::Failed { code } => if code == target.errno.eintr {
                self.measure()
            } else {
                Step::Done(Err(Error::Os(code)))
            },
            Polled::Ready { count, revents } => if count == 0 {
                Step::Done(Err(Error::TimedOut))
            } else if revents & target.transfer.pollhup != 0 {
                Step::Call(
                    Request::GetSockOpt {
                        fd: self.fd,
                        level: target.socket.level,
                        name: target.socket.error,
                        kind: OptKind::Int,
                    },
                    self.at(Phase::TakingError),
                )
            } else {
                Step::Done(Ok(()))
            },
        }
    }
}

impl<'a> Operation<'a> for ConnectTimeout<'a> {
    type Output = ();

    open spec fn accepts(self, reply: Reply) -> bool {
        &&& self.timeout.wf()
        &&& match self.phase {
            Phase::Starting => reply is Done,
            Phase::Measuring => reply matches Reply::Elapsed(d) && d.wf(),
            Phase::Polling => reply is Polled,
            Phase::TakingError => is_int(reply),
            _ => reply is Code,
        }
    }

    open spec fn next(self, target: Target, reply: Reply) -> Step<'a, Self, ()> {
        match self.phase {
            Phase::Unblocking { flags } => match flags.next(target, reply) {
                Step::Call(request, flags) => Step::Call(
                    request,
                    self.at(Phase::Unblocking { flags }),
                ),
                Step::Done(Ok(_)) => Step::Call(
                    Request::Connect { fd: self.fd, addr: self.addr },
                    self.at(Phase::Connecting),
                ),
                Step::Done(Err(error)) => Step::Done(Err(error)),
            },
            Phase::Connecting => {
                let change = nonblocking_change(target, self.fd, false);
                let flags = SetFlags::Reading(change);
                Step::Call(
                    change.request(),
                    self.at(Phase::Blocking { connected: reply->Code_0, flags }),
                )
            },
            Phase::Blocking { connected, flags } => match flags.next(target, reply) {
                Step::Call(request, flags) => Step::Call(
                    request,
                    self.at(Phase::Blocking { connected, flags }),
                ),
                Step::Done(Ok(_)) => self.connected(target, connected),
                Step::Done(Err(error)) => Step::Done(Err(error)),
            },
            Phase::Starting => self.measure(),
            Phase::Measuring => self.wait(target, reply->Elapsed_0),
            Phase::Polling => self.polled(target, reply->Polled_0),
            Phase::TakingError => match ReadError.next(target, reply) {
                Step::Call(_, _) => Step::Done(Err(Error::NoErrorSet)),
                Step::Done(Ok(Some(error))) => Step::Done(Err(error)),
                Step::Done(Ok(None)) => Step::Done(Err(Error::NoErrorSet)),
                Step::Done(Err(error)) => Step::Done(Err(error)),
            },
        }
    }

    fn resume(self, target: &Target, reply: Reply) -> (step: Step<'a, Self, ()>) {
        match self.phase {
            Phase::Unblocking { flags } => match flags.resume(target, reply) {
                Step::Call(request, flags) => Step::Call(
                    request,
                    ConnectTimeout { phase: Phase::Unblocking { flags }, ..self },
                ),
                Step::Done(Ok(_)) => Step::Call(
                    Request::Connect { fd: self.fd, addr: self.addr },
                    ConnectTimeout { phase: Phase::Connecting, ..self },
                ),
                Step::Done(Err(error)) => Step::Done(Err(error)),
            },
            Phase::Connecting => {
                let connected = code_of(reply);
                let change = nonblocking(target, self.fd, false);
                let flags = SetFlags::Reading(change);
                Step::Call(
                    change.ask(),
                    ConnectTimeout { phase: Phase::Blocking { connected, flags }, ..self },
                )
            },
            Phase::Blocking { connected, flags } => match flags.resume(target, reply) {
                Step::Call(request, flags) => Step::Call(
                    request,
                    ConnectTimeout { phase: Phase::Blocking { connected, flags }, ..self },
                ),
                Step::Done(Ok(_)) => match connected {
                    Ok(_) => Step::Done(Ok(())),
                    Err(e) => if e != target.errno.einprogress {
                        Step::Done(Err(Error::Os(e)))
                    } else if self.timeout.as_secs() == 0 && self.timeout.subsec_nanos() == 0 {
                        Step::Done(Err(Error::ZeroTimeout))
                    } else {
                        Step::Call(
                            Request::StartClock,
                            ConnectTimeout { phase: Phase::Starting, ..self },
                        )
                    },
                },
                Step::Done(Err(error)) => Step::Done(Err(error)),
            },
            Phase::Starting => Step::Call(
                Request::Elapsed,
                ConnectTimeout { phase: Phase::Measuring, ..self },
            ),
            Phase::Measuring => {
                let elapsed = elapsed_of(reply);
                if elapsed.at_least(&self.timeout) {
                    Step::Done(Err(Error::TimedOut))
                } else {
                    let left = self.timeout.minus(&elapsed);
                    Step::Call(
                        Request::Poll {
                            fd: self.fd,
                            events: target.transfer.pollout,
                            timeout: poll_timeout(left),
                        },
                        ConnectTimeout { phase: Phase::Polling, ..self },
                    )
                }
            },
            Phase::Polling => match polled_of(reply) {
                Polled::Failed { code } => if code == target.errno.eintr {
                    Step::Call(
                        Request::Elapsed,
                        ConnectTimeout { phase: Phase::Measuring, ..self },
                    )
                } else {
                    Step::Done(Err(Error::Os(code)))
                },
                Polled::Ready { count, revents } => if count == 0 {
                    Step::Done(Err(Error::TimedOut))
                } else if revents & target.transfer.pollhup != 0 {
                    Step::Call(
                        Request::GetSockOpt {
                            fd: self.fd,
                            level: target.socket.level,
                            name: target.socket.error,
                            kind: OptKind::Int,
                        },
                        ConnectTimeout { phase: Phase::TakingError, ..self },
                    )
                } else {
                    Step::Done(Ok(()))
                },
            },
            Phase::TakingError => match ReadError.resume(target, reply) {
                Step::Call(_, _) => Step::Done(Err(Error::NoErrorSet)),
                Step::Done(Ok(Some(error))) => Step::Done(Err(error)),
                Step::Done(Ok(None)) => Step::Done(Err(Error::NoErrorSet)),
                Step::Done(Err(error)) => Step::Done(Err(error)),
            },
        }
    }
}

/// The time of an accepted [`Reply::Elapsed`].
fn elapsed_of(reply: Reply) -> (elapsed: Duration)
    requires
        reply is Elapsed,
    ensures
        reply == Reply::Elapsed(elapsed),
{
    match reply {
        Reply::Elapsed(elapsed) => elapsed,
        _ => Duration::from_secs(0),
    }
}

/// The outcome of an accepted [`Reply::Polled`].
fn polled_of(reply: Reply) -> (polled: Polled)
    requires
        reply is Polled,
    ensures
        reply == Reply::Polled(polled),
{
    match reply {
        Reply::Polled(polled) => polled,
        _ => Polled::Ready { count: 0, revents: 0 },
    }
}

impl Socket {
    /// Connects the socket, waiting no longer than `timeout`.
    pub fn connect_timeout<'a>(
        &self,
        target: &Target,
        addr: &'a SockAddr,
        timeout: Duration,
    ) -> (step: Step<'a, ConnectTimeout<'a>, ()>)
        requires
            timeout.wf(),
        ensures
            step == ConnectTimeout::first(*target, self.fd, addr, timeout),
            step matches Step::Call(request, state) && forall|r: Reply| #[trigger]
                answers(request, r) ==> state.accepts(r),
    {
        let fd: c_int = self.fd;
        let change = nonblocking(target, fd, true);
        let phase = Phase::Unblocking { flags: SetFlags::Reading(change) };
        Step::Call(change.ask(), ConnectTimeout { fd, addr, timeout, phase })
    }
}

} // verus!
