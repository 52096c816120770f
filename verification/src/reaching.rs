//! Connecting within a time: the whole talk, on every way that it can go.

use libc::c_int;
use vstd::prelude::*;

use crate::addr::SockAddr;
use crate::connect::{ConnectTimeout, Phase};
use crate::error::Error;
use crate::flags::{nonblocking_change, SetFlags};
use crate::socket::Socket;
use crate::syscall::{OptKind, OptValue, Operation, Polled, Reply, Request, Step};
use crate::talk::{after, goes, lemma_after_add, then_asks};
use crate::target::Target;
use crate::time::Duration;

verus! {

/// The flags of `fd` with its calls not waiting, or waiting again.
pub open spec fn switched(target: Target, on: bool, previous: c_int) -> c_int {
    if on {
        previous | target.fcntl.o_nonblock
    } else {
        previous & !target.fcntl.o_nonblock
    }
}

/// The flags of `fd` are read to be `previous`, and, if its calls do not wait as
/// they should, are written so that they do.
pub open spec fn switching<'a>(
    target: Target,
    fd: c_int,
    on: bool,
    previous: c_int,
    wrote: c_int,
) -> Seq<(Request<'a>, Reply)> {
    let get = Request::Fcntl { fd, cmd: target.fcntl.getfl, arg: None };
    let new = switched(target, on, previous);
    if new == previous {
        seq![(get, Reply::Code(Ok(previous)))]
    } else {
        seq![
            (get, Reply::Code(Ok(previous))),
            (
                Request::Fcntl { fd, cmd: target.fcntl.setfl, arg: Some(new) },
                Reply::Code(Ok(wrote)),
            ),
        ]
    }
}

/// The system refuses to tell the flags of `fd`; or tells them as `read`, and
/// refuses to have them changed.
pub open spec fn not_switching<'a>(
    target: Target,
    fd: c_int,
    on: bool,
    read: Option<c_int>,
    error: c_int,
) -> Seq<(Request<'a>, Reply)> {
    let get = Request::Fcntl { fd, cmd: target.fcntl.getfl, arg: None };
    match read {
        None => seq![(get, Reply::Code(Err(error)))],
        Some(previous) => seq![
            (get, Reply::Code(Ok(previous))),
            (
                Request::Fcntl {
                    fd,
                    cmd: target.fcntl.setfl,
                    arg: Some(switched(target, on, previous)),
                },
                Reply::Code(Err(error)),
            ),
        ],
    }
}

/// Whether the flags that were read, if they were, have to be changed.
pub open spec fn to_switch(target: Target, on: bool, read: Option<c_int>) -> bool {
    read matches Some(previous) ==> switched(target, on, previous) != previous
}

/// The calls on a socket are had not to wait, or to wait again, by reading its
/// flags, and writing them only if that makes a difference; what fails is told.
pub proof fn law_set_nonblocking<'a>(
    socket: &Socket,
    target: &Target,
    on: bool,
    step: Step<'a, SetFlags, ()>,
    previous: c_int,
    wrote: c_int,
    read: Option<c_int>,
    error: c_int,
)
    requires
        call_ensures(Socket::set_nonblocking, (socket, target, on), step),
        to_switch(*target, on, read),
    ensures
        goes(*target, step, switching(*target, socket.fd, on, previous, wrote), Ok(())),
        goes(
            *target,
            step,
            not_switching(*target, socket.fd, on, read, error),
            Err(Error::Os(error)),
        ),
{
    reveal_with_fuel(after, 3);
}

/// Connecting within a time has the calls on the socket not wait, connects, and
/// has them wait again.  Then it is done, if the connection was made or was
/// refused; and else it looks at the clock, unless no time was given.
pub proof fn law_connect_timeout_begins<'a>(
    socket: &Socket,
    target: &Target,
    addr: &'a SockAddr,
    timeout: Duration,
    step: Step<'a, ConnectTimeout<'a>, ()>,
    previous: (c_int, c_int),
    wrote: (c_int, c_int),
    connected: Result<c_int, c_int>,
    read: (Option<c_int>, Option<c_int>),
    error: c_int,
)
    requires
        timeout.nanos < 1_000_000_000,
        call_ensures(Socket::connect_timeout, (socket, target, addr, timeout), step),
        to_switch(*target, true, read.0),
        to_switch(*target, false, read.1),
    ensures
        call_requires(Socket::connect_timeout, (socket, target, addr, timeout)),
        ({
            let t = *target;
            let fd = socket.fd;
            let asked = switching(t, fd, true, previous.0, wrote.0) + seq![
                (Request::Connect { fd, addr }, Reply::Code(connected)),
            ];
            let back = asked + switching(t, fd, false, previous.1, wrote.1);
            let failed = Err(Error::Os(error));
            &&& goes(t, step, not_switching(t, fd, true, read.0, error), failed)
            &&& goes(t, step, asked + not_switching(t, fd, false, read.1, error), failed)
            &&& match connected {
                Ok(_) => goes(t, step, back, Ok(())),
                Err(e) => if e != t.errno.einprogress {
                    goes(t, step, back, Err(Error::Os(e)))
                } else if timeout.secs == 0 && timeout.nanos == 0 {
                    goes(t, step, back, Err(Error::ZeroTimeout))
                } else {
                    &&& then_asks(t, step, back, Request::StartClock)
                    &&& then_asks(
                        t,
                        step,
                        back + seq![(Request::StartClock, Reply::Done)],
                        Request::Elapsed,
                    )
                },
            }
        }),
{
    reveal_with_fuel(after, 3);
    let t = *target;
    let fd = socket.fd;
    let off = switching::<'a>(t, fd, true, previous.0, wrote.0);
    let not_off = not_switching::<'a>(t, fd, true, read.0, error);
    let on = switching::<'a>(t, fd, false, previous.1, wrote.1);
    let not_on = not_switching::<'a>(t, fd, false, read.1, error);
    let connect: Request<'a> = Request::Connect { fd, addr };
    let asked = seq![(connect, Reply::Code(connected))];
    let change = nonblocking_change(t, fd, false);
    let flags = SetFlags::Reading(change);
    let state = ConnectTimeout { fd, addr, timeout, phase: Phase::Connecting };
    let at = Step::<'a, ConnectTimeout<'a>, ()>::Call(connect, state);
    let at_back = Step::<'a, ConnectTimeout<'a>, ()>::Call(
        change.request(),
        state.at(Phase::Blocking { connected, flags }),
    );
    assert(after(t, step, off) == Some(at));
    assert(goes(t, step, not_off, Err(Error::Os(error))));
    assert(after(t, at, asked) == Some(at_back));
    assert(after(t, at_back, on) == Some(state.connected(t, connected)));
    assert(goes(t, at_back, not_on, Err(Error::Os(error))));
    lemma_after_add(t, step, off, asked);
    lemma_after_add(t, step, off + asked, on);
    lemma_after_add(t, step, off + asked, not_on);
    lemma_after_add(t, step, off + asked + on, seq![(Request::StartClock, Reply::Done)]);
}

/// The request that a state waits on goes with its phase.
spec fn fits(request: Request, phase: Phase) -> bool {
    match phase {
        Phase::Unblocking { .. } | Phase::Blocking { .. } => request is Fcntl,
        Phase::Connecting => request is Connect,
        Phase::Starting => request is StartClock,
        Phase::Measuring => request is Elapsed,
        Phase::Polling => request is Poll,
        Phase::TakingError => request is GetSockOpt,
    }
}

/// Wherever a talk has led, the operation is at a request that goes with its
/// phase, for the socket and the time that it began with.
proof fn lemma_anywhere<'a>(
    target: Target,
    request: Request<'a>,
    state: ConnectTimeout<'a>,
    talk: Seq<(Request<'a>, Reply)>,
)
    requires
        fits(request, state.phase),
    ensures
        after(target, Step::Call(request, state), talk) matches Some(Step::Call(asked, now)) ==> {
            &&& fits(asked, now.phase)
            &&& now == state.at(now.phase)
        },
    decreases talk.len(),
{
    if talk.len() > 0 && request == talk[0].0 && state.accepts(talk[0].1) {
        let step: Step<'a, ConnectTimeout<'a>, ()> = state.next(target, talk[0].1);
        match step {
            Step::Call(next, then) => {
                assert(fits(next, then.phase) && then == state.at(then.phase));
                lemma_anywhere(target, next, then, talk.skip(1));
            },
            Step::Done(_) => {
                if talk.skip(1).len() > 0 {
                    assert(after(target, step, talk.skip(1)) is None);
                }
            },
        }
    }
}

/// `millis` is `nanos` in whole milliseconds; one at least, and the most that
/// fits, if there are more.
pub open spec fn in_millis(nanos: int, millis: c_int) -> bool {
    &&& nanos < 1_000_000 ==> millis == 1
    &&& 1_000_000 <= nanos < 0x8000_0000 * 1_000_000 ==> {
        &&& millis * 1_000_000 <= nanos
        &&& nanos < (millis + 1) * 1_000_000
    }
    &&& nanos >= 0x8000_0000 * 1_000_000 ==> millis == 0x7fff_ffff
}

/// The nanoseconds of a duration.
pub open spec fn nanos_of(d: Duration) -> int {
    d.secs * 1_000_000_000 + d.nanos
}

/// Whenever connecting within a time looks at the clock, whatever was said
/// before, it gives up if the time is over, and else waits, for what is left,
/// that the socket become writable.
///
/// If it becomes so, and was not hung up, the connection is made; if nothing
/// happens, the time is over; if a signal interrupts the wait, and only then,
/// it looks at the clock again; any other failure is told.
pub proof fn law_connect_timeout_waits_on<'a>(
    socket: &Socket,
    target: &Target,
    addr: &'a SockAddr,
    timeout: Duration,
    step: Step<'a, ConnectTimeout<'a>, ()>,
    talk: Seq<(Request<'a>, Reply)>,
    elapsed: Duration,
    millis: c_int,
    code: c_int,
    count: c_int,
    revents: i16,
)
    requires
        timeout.nanos < 1_000_000_000,
        elapsed.nanos < 1_000_000_000,
        call_ensures(Socket::connect_timeout, (socket, target, addr, timeout), step),
        then_asks(*target, step, talk, Request::Elapsed),
        in_millis(nanos_of(timeout) - nanos_of(elapsed), millis),
    ensures
        ({
            let t = *target;
            let told = talk + seq![(Request::Elapsed, Reply::Elapsed(elapsed))];
            let poll = Request::Poll {
                fd: socket.fd,
                events: t.transfer.pollout,
                timeout: millis,
            };
            let failed = told + seq![(poll, Reply::Polled(Polled::Failed { code }))];
            let ready = told + seq![(poll, Reply::Polled(Polled::Ready { count, revents }))];
            if nanos_of(elapsed) >= nanos_of(timeout) {
                goes(t, step, told, Err(Error::TimedOut))
            } else {
                &&& then_asks(t, step, told, poll)
                &&& code == t.errno.eintr ==> then_asks(t, step, failed, Request::Elapsed)
                &&& code != t.errno.eintr ==> goes(t, step, failed, Err(Error::Os(code)))
                &&& count == 0 ==> goes(t, step, ready, Err(Error::TimedOut))
                &&& count != 0 && revents & t.transfer.pollhup == 0 ==> goes(
                    t,
                    step,
                    ready,
                    Ok(()),
                )
                &&& count != 0 && revents & t.transfer.pollhup != 0 ==> then_asks(
                    t,
                    step,
                    ready,
                    Request::GetSockOpt {
                        fd: socket.fd,
                        level: t.socket.level,
                        name: t.socket.error,
                        kind: OptKind::Int,
                    },
                )
            }
        }),
{
    reveal_with_fuel(after, 2);
    let t = *target;
    let first = step->Call_1;
    lemma_anywhere(t, step->Call_0, first, talk);
    let at = after(t, step, talk)->Some_0;
    let state = at->Call_1;
    let told = seq![(Request::<'a>::Elapsed, Reply::Elapsed(elapsed))];
    lemma_after_add(t, step, talk, told);
    assert(after(t, at, told) == Some(state.wait(t, elapsed)));
    if nanos_of(elapsed) < nanos_of(timeout) {
        let poll: Request<'a> = Request::Poll {
            fd: socket.fd,
            events: t.transfer.pollout,
            timeout: millis,
        };
        let waiting = state.wait(t, elapsed);
        lemma_millis(nanos_of(timeout) - nanos_of(elapsed), millis);
        assert(waiting == Step::<'a, ConnectTimeout<'a>, ()>::Call(
            poll,
            state.at(Phase::Polling),
        ));
        let bad = Polled::Failed { code };
        let good = Polled::Ready { count, revents };
        assert(after(t, waiting, seq![(poll, Reply::Polled(bad))]) == Some(
            state.at(Phase::Polling).polled(t, bad),
        ));
        assert(after(t, waiting, seq![(poll, Reply::Polled(good))]) == Some(
            state.at(Phase::Polling).polled(t, good),
        ));
        lemma_after_add(t, step, talk + told, seq![(poll, Reply::Polled(bad))]);
        lemma_after_add(t, step, talk + told, seq![(poll, Reply::Polled(good))]);
    }
}

/// The milliseconds are determined.
proof fn lemma_millis(nanos: int, millis: c_int)
    requires
        nanos > 0,
        in_millis(nanos, millis),
    ensures
        millis == crate::time::poll_millis(nanos as nat),
{
}

/// Once connecting within a time asks for the error that the socket holds, it
/// fails: with that error, or with that there is none, or with that it could
/// not be told.
pub proof fn law_connect_timeout_after_hang_up<'a>(
    socket: &Socket,
    target: &Target,
    addr: &'a SockAddr,
    timeout: Duration,
    step: Step<'a, ConnectTimeout<'a>, ()>,
    talk: Seq<(Request<'a>, Reply)>,
    request: Request<'a>,
    raw: c_int,
    error: c_int,
)
    requires
        timeout.nanos < 1_000_000_000,
        call_ensures(Socket::connect_timeout, (socket, target, addr, timeout), step),
        then_asks(*target, step, talk, request),
        request is GetSockOpt,
    ensures
        goes(
            *target,
            step,
            talk + seq![(request, Reply::Opt(Ok(OptValue::Int(raw))))],
            Err(
                if raw == 0 {
                    Error::NoErrorSet
                } else {
                    Error::Os(raw)
                },
            ),
        ),
        goes(
            *target,
            step,
            talk + seq![(request, Reply::Opt(Err(error)))],
            Err(Error::Os(error)),
        ),
{
    reveal_with_fuel(after, 2);
    let t = *target;
    lemma_anywhere(t, step->Call_0, step->Call_1, talk);
    lemma_after_add(t, step, talk, seq![(request, Reply::Opt(Ok(OptValue::Int(raw))))]);
    lemma_after_add(t, step, talk, seq![(request, Reply::Opt(Err(error)))]);
}

/// The last that was said is that a descriptor was ready, and hung up.
pub open spec fn hung_up(target: Target, talk: Seq<(Request, Reply)>) -> bool {
    &&& talk.len() > 0
    &&& talk.last().0 is Poll
    &&& talk.last().1 matches Reply::Polled(Polled::Ready { count, revents })
    &&& count != 0
    &&& revents & target.transfer.pollhup != 0
}

/// Connecting within a time asks for the error that the socket holds only when
/// that was hung up; and only then, and when there was no error, it fails with
/// that there is none.
pub proof fn law_connect_timeout_asks_when_hung_up<'a>(
    socket: &Socket,
    target: &Target,
    addr: &'a SockAddr,
    timeout: Duration,
    step: Step<'a, ConnectTimeout<'a>, ()>,
    talk: Seq<(Request<'a>, Reply)>,
)
    requires
        timeout.nanos < 1_000_000_000,
        call_ensures(Socket::connect_timeout, (socket, target, addr, timeout), step),
    ensures
        after(*target, step, talk) matches Some(Step::Call(request, _)) && request is GetSockOpt
            ==> hung_up(*target, talk),
        goes(*target, step, talk, Err(Error::NoErrorSet)) ==> {
            &&& talk.len() > 1
            &&& talk.last().1 == Reply::Opt(Ok(OptValue::Int(0)))
            &&& hung_up(*target, talk.drop_last())
        },
{
    reveal_with_fuel(after, 2);
    let t = *target;
    if talk.len() > 0 {
        lemma_last(t, step, talk);
        let before = talk.drop_last();
        lemma_anywhere(t, step->Call_0, step->Call_1, before);
        if before.len() > 0 {
            lemma_last(t, step, before);
            lemma_anywhere(t, step->Call_0, step->Call_1, before.drop_last());
        }
    }
}

/// A talk ends with one more reply to what came before.
proof fn lemma_last<'a>(
    target: Target,
    step: Step<'a, ConnectTimeout<'a>, ()>,
    talk: Seq<(Request<'a>, Reply)>,
)
    requires
        talk.len() > 0,
    ensures
        after(target, step, talk) == (match after(target, step, talk.drop_last()) {
            Some(Step::Call(request, state)) => if request == talk.last().0 && state.accepts(
                talk.last().1,
            ) {
                Some(state.next(target, talk.last().1))
            } else {
                None
            },
            _ => None,
        }),
{
    reveal_with_fuel(after, 2);
    assert(talk =~= talk.drop_last() + seq![talk.last()]);
    lemma_after_add(target, step, talk.drop_last(), seq![talk.last()]);
}

} // verus!
