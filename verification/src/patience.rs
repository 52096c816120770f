//! What connecting within a time does, whatever the system replies.

use libc::c_int;
use vstd::prelude::*;

use crate::addr::SockAddr;
use crate::connect::{ConnectTimeout, Phase};
use crate::error::Error;
use crate::flags::{nonblocking_change, SetFlags};
use crate::syscall::{answered, run, Operation, OptValue, Polled, Reply, Request, Step};
use crate::target::Target;
use crate::time::Duration;

verus! {

/// The wait before request `i`, if that is one to wait: it is for the socket
/// to become writable, comes right after the time was told, when some was left,
/// and lasts for what was left, in whole milliseconds: for no more, but one at
/// least, and for no less than fits.
pub open spec fn waits_in_time(
    target: Target,
    fd: c_int,
    timeout: Duration,
    requests: Seq<Request>,
    replies: Seq<Reply>,
    i: int,
) -> bool {
    requests[i] matches Request::Poll { fd: on, events, timeout: millis } ==> {
        &&& on == fd
        &&& events == target.transfer.pollout
        &&& 0 < i <= replies.len()
        &&& requests[i - 1] is Elapsed
        &&& replies[i - 1] matches Reply::Elapsed(elapsed)
        &&& elapsed@ < timeout@
        &&& millis >= 1
        &&& millis == 1 || millis * 1_000_000 <= timeout@ - elapsed@
        &&& millis == c_int::MAX || timeout@ - elapsed@ < (millis + 1) * 1_000_000
    }
}

/// The time is told again after a wait only if a signal interrupted it.
pub open spec fn goes_around(
    target: Target,
    requests: Seq<Request>,
    replies: Seq<Reply>,
    i: int,
) -> bool {
    0 < i && requests[i] is Elapsed && requests[i - 1] is Poll ==> i <= replies.len() && replies[i
        - 1] == Reply::Polled(Polled::Failed { code: target.errno.eintr })
}

/// The request that a state waits on goes with its phase.
spec fn fits_phase(request: Request, phase: Phase) -> bool {
    match phase {
        Phase::Unblocking { .. } | Phase::Blocking { .. } => request is Fcntl,
        Phase::Connecting => request is Connect,
        Phase::Starting => request is StartClock,
        Phase::Measuring => request is Elapsed,
        Phase::Polling => request is Poll,
        Phase::TakingError => request matches Request::GetSockOpt { kind, .. } && kind is Int,
    }
}

/// Every step goes to a request that goes with its phase.
proof fn lemma_fits<'a>(target: Target, state: ConnectTimeout<'a>, reply: Reply)
    ensures
        state.next(target, reply) matches Step::Call(request, next) ==> {
            &&& fits_phase(request, next.phase)
            &&& next == state.at(next.phase)
        },
{
}

proof fn lemma_waits<'a>(
    target: Target,
    request: Request<'a>,
    state: ConnectTimeout<'a>,
    replies: Seq<Reply>,
)
    requires
        fits_phase(request, state.phase),
        answered(target, Step::Call(request, state), replies),
    ensures
        ({
            let requests = run(target, Step::Call(request, state), replies).0;
            &&& requests.len() > 0
            &&& requests[0] == request
            &&& forall|i: int| #![trigger requests[i]]
                0 < i < requests.len() ==> waits_in_time(
                    target,
                    state.fd,
                    state.timeout,
                    requests,
                    replies,
                    i,
                ) && goes_around(target, requests, replies, i)
        }),
    decreases replies.len(),
{
    if replies.len() > 0 {
        let step: Step<'a, ConnectTimeout<'a>, ()> = state.next(target, replies[0]);
        let rest = run(target, step, replies.skip(1)).0;
        let requests = seq![request] + rest;
        lemma_fits(target, state, replies[0]);
        if let Step::Call(next_request, next) = step {
            lemma_waits(target, next_request, next, replies.skip(1));
            assert forall|i: int| #![trigger requests[i]] 0 < i < requests.len() implies
                waits_in_time(target, state.fd, state.timeout, requests, replies, i)
                && goes_around(target, requests, replies, i) by {
                assert(requests[i] == rest[i - 1]);
                if i > 1 {
                    assert(requests[i - 1] == rest[i - 2]);
                    assert(i <= replies.len() ==> replies.skip(1)[i - 2] == replies[i - 1]);
                    assert(waits_in_time(
                        target,
                        next.fd,
                        next.timeout,
                        rest,
                        replies.skip(1),
                        i - 1,
                    ));
                    assert(goes_around(target, rest, replies.skip(1), i - 1));
                }
            }
        } else {
            assert(rest =~= seq![]);
        }
    }
}

/// However the system replies, connecting within a time waits for nothing but
/// that the socket become writable, only when some time is left, for no longer
/// than that (or a millisecond, if less is left), and waits again only when a
/// signal interrupted it.
pub proof fn law_connect_timeout_waits<'a>(
    target: Target,
    fd: c_int,
    addr: &'a SockAddr,
    timeout: Duration,
    replies: Seq<Reply>,
)
    requires
        answered(target, ConnectTimeout::first(target, fd, addr, timeout), replies),
    ensures
        ({
            let requests = run(target, ConnectTimeout::first(target, fd, addr, timeout), replies).0;
            forall|i: int| #![trigger requests[i]]
                0 <= i < requests.len() ==> waits_in_time(
                    target,
                    fd,
                    timeout,
                    requests,
                    replies,
                    i,
                ) && goes_around(target, requests, replies, i)
        }),
{
    let change = nonblocking_change(target, fd, true);
    let phase = Phase::Unblocking { flags: SetFlags::Reading(change) };
    lemma_waits(
        target,
        change.request(),
        ConnectTimeout { fd, addr, timeout, phase },
        replies,
    );
}

/// `reply` to `request` shows that calls on `fd` wait: its flags were read or
/// written so.
pub open spec fn shows_waiting(target: Target, fd: c_int, request: Request, reply: Reply) -> bool {
    &&& request matches Request::Fcntl { fd: of, cmd, arg }
    &&& of == fd
    &&& reply matches Reply::Code(Ok(got))
    &&& {
        ||| cmd == target.fcntl.getfl && arg is None && got & target.fcntl.o_nonblock == 0
        ||| cmd == target.fcntl.setfl && (arg matches Some(set) && set & target.fcntl.o_nonblock
            == 0)
    }
}

/// The replies show at request `i` that calls on `fd` wait, and flags are not
/// touched after that.
pub open spec fn waits_from(
    target: Target,
    fd: c_int,
    requests: Seq<Request>,
    replies: Seq<Reply>,
    i: int,
) -> bool {
    &&& 0 <= i < requests.len() == replies.len()
    &&& shows_waiting(target, fd, requests[i], replies[i])
    &&& forall|k: int| i < k < requests.len() ==> !(#[trigger] requests[k] is Fcntl)
}

/// At the end calls on `fd` wait, or the last request was to read or to write
/// its flags, and was refused, which is the result.
pub open spec fn left_waiting(
    target: Target,
    fd: c_int,
    requests: Seq<Request>,
    replies: Seq<Reply>,
    result: Result<(), Error>,
) -> bool {
    ||| exists|i: int| #[trigger] waits_from(target, fd, requests, replies, i)
    ||| {
        &&& requests.len() == replies.len() > 0
        &&& requests.last() is Fcntl
        &&& replies.last() matches Reply::Code(Err(e)) && result == Err::<(), Error>(Error::Os(e))
    }
}

/// What is left at the end does not depend on what came first.
proof fn lemma_left_waiting(
    target: Target,
    fd: c_int,
    first: Request,
    rest: Seq<Request>,
    replies: Seq<Reply>,
    result: Result<(), Error>,
)
    requires
        replies.len() > 0,
        left_waiting(target, fd, rest, replies.skip(1), result),
    ensures
        left_waiting(target, fd, seq![first] + rest, replies, result),
{
    let requests = seq![first] + rest;
    if exists|i: int| #[trigger] waits_from(target, fd, rest, replies.skip(1), i) {
        let i = choose|i: int| #[trigger] waits_from(target, fd, rest, replies.skip(1), i);
        assert forall|k: int| i + 1 < k < requests.len() implies !(#[trigger] requests[k]
            is Fcntl) by {
            assert(requests[k] == rest[k - 1]);
        }
        assert(requests[i + 1] == rest[i]);
        assert(replies[i + 1] == replies.skip(1)[i]);
        assert(waits_from(target, fd, requests, replies, i + 1));
    } else {
        assert(requests.last() == rest.last());
        assert(replies.last() == replies.skip(1).last());
    }
}

/// A phase after the flags have been settled.
spec fn settled(phase: Phase) -> bool {
    match phase {
        Phase::Starting | Phase::Measuring | Phase::Polling | Phase::TakingError => true,
        _ => false,
    }
}

/// Once the flags are settled they are not touched.
proof fn lemma_settled<'a>(
    target: Target,
    request: Request<'a>,
    state: ConnectTimeout<'a>,
    replies: Seq<Reply>,
)
    requires
        settled(state.phase),
        fits_phase(request, state.phase),
        answered(target, Step::Call(request, state), replies),
    ensures
        ({
            let (requests, result) = run(target, Step::Call(request, state), replies);
            &&& result is Some ==> requests.len() == replies.len()
            &&& forall|k: int| 0 <= k < requests.len() ==> !(#[trigger] requests[k] is Fcntl)
        }),
    decreases replies.len(),
{
    if replies.len() > 0 {
        let step: Step<'a, ConnectTimeout<'a>, ()> = state.next(target, replies[0]);
        lemma_fits(target, state, replies[0]);
        assert(answered(target, step, replies.skip(1)));
        if let Step::Call(next_request, next) = step {
            lemma_settled(target, next_request, next, replies.skip(1));
        }
        let rest = run(target, step, replies.skip(1)).0;
        let requests = seq![request] + rest;
        assert forall|k: int| 0 <= k < requests.len() implies !(#[trigger] requests[k] is Fcntl) by {
            if k > 0 {
                assert(requests[k] == rest[k - 1]);
            }
        }
    }
}

proof fn lemma_cleared(flags: c_int, flag: c_int)
    ensures
        (flags & !flag) & flag == 0,
{
    assert((flags & !flag) & flag == 0) by (bit_vector);
}

/// `request` is the one that having calls on `fd` wait again is at.
spec fn clearing(target: Target, fd: c_int, request: Request, flags: SetFlags) -> bool {
    match flags {
        SetFlags::Reading(change) => {
            &&& change == nonblocking_change(target, fd, false)
            &&& request == change.request()
        },
        SetFlags::Writing => {
            &&& request matches Request::Fcntl { fd: of, cmd, arg: Some(flags) }
            &&& of == fd
            &&& cmd == target.fcntl.setfl
            &&& flags & target.fcntl.o_nonblock == 0
        },
    }
}

proof fn lemma_blocking<'a>(
    target: Target,
    connected: Result<c_int, c_int>,
    flags: SetFlags,
    request: Request<'a>,
    state: ConnectTimeout<'a>,
    replies: Seq<Reply>,
)
    requires
        state.phase == (Phase::Blocking { connected, flags }),
        clearing(target, state.fd, request, flags),
        answered(target, Step::Call(request, state), replies),
    ensures
        ({
            let (requests, result) = run(target, Step::Call(request, state), replies);
            result matches Some(r) ==> left_waiting(target, state.fd, requests, replies, r)
        }),
    decreases replies.len(),
{
    if replies.len() > 0 {
        let rest_replies = replies.skip(1);
        let step: Step<'a, ConnectTimeout<'a>, ()> = state.next(target, replies[0]);
        let (rest, result) = run(target, step, rest_replies);
        let requests = seq![request] + rest;
        assert(answered(target, step, rest_replies));
        if let Ok(previous) = replies[0]->Code_0 {
            lemma_cleared(previous, target.fcntl.o_nonblock);
        }
        let flag_step: Step<'a, SetFlags, ()> = flags.next(target, replies[0]);
        match flag_step {
            Step::Call(next_request, next_flags) => {
                let next = state.at(Phase::Blocking { connected, flags: next_flags });
                lemma_blocking(target, connected, next_flags, next_request, next, rest_replies);
                if let Some(r) = result {
                    lemma_left_waiting(target, state.fd, request, rest, replies, r);
                }
            },
            Step::Done(Ok(_)) => {
                assert(shows_waiting(target, state.fd, request, replies[0]));
                if let Step::Call(next_request, next) = step {
                    lemma_settled(target, next_request, next, rest_replies);
                }
                if let Some(r) = result {
                    assert(rest.len() == rest_replies.len());
                    assert forall|k: int| 0 < k < requests.len() implies !(#[trigger] requests[k]
                        is Fcntl) by {
                        assert(requests[k] == rest[k - 1]);
                    }
                    assert(waits_from(target, state.fd, requests, replies, 0));
                }
            },
            Step::Done(Err(_)) => {
                assert(rest =~= seq![]);
                assert(requests.last() == request);
                assert(replies.last() == replies[0]);
            },
        }
    }
}

proof fn lemma_unblocking<'a>(
    target: Target,
    flags: SetFlags,
    request: Request<'a>,
    state: ConnectTimeout<'a>,
    replies: Seq<Reply>,
)
    requires
        state.phase == (Phase::Unblocking { flags }),
        request is Fcntl,
        answered(target, Step::Call(request, state), replies),
    ensures
        ({
            let (requests, result) = run(target, Step::Call(request, state), replies);
            result matches Some(r) ==> left_waiting(target, state.fd, requests, replies, r)
        }),
    decreases replies.len(),
{
    if replies.len() > 0 {
        let rest_replies = replies.skip(1);
        let step: Step<'a, ConnectTimeout<'a>, ()> = state.next(target, replies[0]);
        let (rest, result) = run(target, step, rest_replies);
        let requests = seq![request] + rest;
        assert(answered(target, step, rest_replies));
        let flag_step: Step<'a, SetFlags, ()> = flags.next(target, replies[0]);
        match flag_step {
            Step::Call(next_request, next_flags) => {
                let next = state.at(Phase::Unblocking { flags: next_flags });
                lemma_unblocking(target, next_flags, next_request, next, rest_replies);
                if let Some(r) = result {
                    lemma_left_waiting(target, state.fd, request, rest, replies, r);
                }
            },
            Step::Done(Ok(_)) => {
                let connect: Request<'a> = Request::Connect { fd: state.fd, addr: state.addr };
                if rest_replies.len() > 0 {
                    let connected = rest_replies[0]->Code_0;
                    let change = nonblocking_change(target, state.fd, false);
                    let next_flags = SetFlags::Reading(change);
                    let next = state.at(Phase::Blocking { connected, flags: next_flags });
                    let last_replies = rest_replies.skip(1);
                    lemma_blocking(
                        target,
                        connected,
                        next_flags,
                        change.request(),
                        next,
                        last_replies,
                    );
                    if let Some(r) = result {
                        let last = run(target, Step::Call(change.request(), next), last_replies).0;
                        lemma_left_waiting(target, state.fd, connect, last, rest_replies, r);
                        assert(rest =~= seq![connect] + last);
                        lemma_left_waiting(target, state.fd, request, rest, replies, r);
                    }
                }
            },
            Step::Done(Err(_)) => {
                assert(rest =~= seq![]);
                assert(requests.last() == request);
                assert(replies.last() == replies[0]);
            },
        }
    }
}

/// However the system replies, when connecting within a time ends, calls on
/// the socket wait again, unless the system refused to tell or to change that,
/// which then is the result.
pub proof fn law_connect_timeout_leaves_waiting<'a>(
    target: Target,
    fd: c_int,
    addr: &'a SockAddr,
    timeout: Duration,
    replies: Seq<Reply>,
)
    requires
        answered(target, ConnectTimeout::first(target, fd, addr, timeout), replies),
    ensures
        ({
            let (requests, result) = run(
                target,
                ConnectTimeout::first(target, fd, addr, timeout),
                replies,
            );
            result matches Some(r) ==> left_waiting(target, fd, requests, replies, r)
        }),
{
    let change = nonblocking_change(target, fd, true);
    let flags = SetFlags::Reading(change);
    let state = ConnectTimeout { fd, addr, timeout, phase: Phase::Unblocking { flags } };
    lemma_unblocking(target, flags, change.request(), state, replies);
}

/// The system replied `connected` to the request to connect: as is known in
/// `gave`, or is among the replies.
pub open spec fn connect_gave(
    gave: Option<Result<c_int, c_int>>,
    requests: Seq<Request>,
    replies: Seq<Reply>,
    connected: Result<c_int, c_int>,
) -> bool {
    ||| gave == Some(connected)
    ||| exists|i: int|
        0 <= i < requests.len() && i < replies.len() && #[trigger] requests[i] is Connect
            && replies[i] == Reply::Code(connected)
}

/// `result` is what the replies call for.
pub open spec fn explained(
    target: Target,
    timeout: Duration,
    gave: Option<Result<c_int, c_int>>,
    requests: Seq<Request>,
    replies: Seq<Reply>,
    result: Result<(), Error>,
) -> bool {
    let last = replies.last();
    match result {
        // The connection was made at once, or the socket became writable and
        // was not hung up.
        Ok(_) => {
            ||| exists|n: c_int| #[trigger] connect_gave(gave, requests, replies, Ok(n))
            ||| last matches Reply::Polled(Polled::Ready { count, revents }) && count != 0
                && revents & target.transfer.pollhup == 0
        },
        // The time is up, or the wait for what was left of it is.
        Err(Error::TimedOut) => {
            ||| last matches Reply::Elapsed(elapsed) && elapsed@ >= timeout@
            ||| last matches Reply::Polled(Polled::Ready { count, .. }) && count == 0
        },
        // The connection is under way, and no time was given.
        Err(Error::ZeroTimeout) => timeout@ == 0 && connect_gave(
            gave,
            requests,
            replies,
            Err(target.errno.einprogress),
        ),
        // The socket was hung up, and holds no error.
        Err(Error::NoErrorSet) => last matches Reply::Opt(Ok(OptValue::Int(raw))) && raw == 0,
        // The socket was hung up, and holds this error; or a call failed with
        // it: the one to connect, but for the error that it is under way, or
        // any other, but for a wait that was interrupted.
        Err(Error::Os(e)) => {
            ||| last matches Reply::Opt(Ok(OptValue::Int(raw))) && raw == e && raw != 0
            ||| e != target.errno.einprogress && connect_gave(gave, requests, replies, Err(e))
            ||| last matches Reply::Polled(Polled::Failed { code }) && code == e && code
                != target.errno.eintr
            ||| requests.last() is Fcntl && last == Reply::Code(Err(e))
            ||| last matches Reply::Opt(Err(code)) && code == e
        },
        Err(Error::PathTooLong) => false,
    }
}

/// An explanation that knows of the connection from the first reply stands
/// without knowing of it.
proof fn lemma_explained(
    target: Target,
    timeout: Duration,
    gave: Option<Result<c_int, c_int>>,
    now: Option<Result<c_int, c_int>>,
    requests: Seq<Request>,
    replies: Seq<Reply>,
    result: Result<(), Error>,
)
    requires
        requests.len() > 1,
        replies.len() > 1,
        explained(target, timeout, now, requests.skip(1), replies.skip(1), result),
        now == gave || requests[0] is Connect && (now matches Some(c) && replies[0]
            == Reply::Code(c)),
    ensures
        explained(target, timeout, gave, requests, replies, result),
{
    let rest = requests.skip(1);
    let rest_replies = replies.skip(1);
    assert(requests.last() == rest.last());
    assert(replies.last() == rest_replies.last());
    assert forall|connected: Result<c_int, c_int>|
        connect_gave(now, rest, rest_replies, connected) implies #[trigger] connect_gave(
        gave,
        requests,
        replies,
        connected,
    ) by {
        if now == Some(connected) {
            if now != gave {
                assert(requests[0] is Connect);
            }
        } else {
            let i = choose|i: int|
                0 <= i < rest.len() && i < rest_replies.len() && #[trigger] rest[i] is Connect
                    && rest_replies[i] == Reply::Code(connected);
            assert(requests[i + 1] == rest[i]);
            assert(replies[i + 1] == rest_replies[i]);
        }
    }
    if exists|n: c_int| #[trigger] connect_gave(now, rest, rest_replies, Ok(n)) {
        let n = choose|n: c_int| #[trigger] connect_gave(now, rest, rest_replies, Ok(n));
        assert(connect_gave(gave, requests, replies, Ok(n)));
    }
}

proof fn lemma_explains<'a>(
    target: Target,
    gave: Option<Result<c_int, c_int>>,
    request: Request<'a>,
    state: ConnectTimeout<'a>,
    replies: Seq<Reply>,
)
    requires
        fits_phase(request, state.phase),
        state.phase matches Phase::Blocking { connected, .. } ==> gave == Some(connected),
        answered(target, Step::Call(request, state), replies),
    ensures
        ({
            let (requests, result) = run(target, Step::Call(request, state), replies);
            result matches Some(r) ==> {
                &&& requests.len() == replies.len() > 0
                &&& explained(target, state.timeout, gave, requests, replies, r)
            }
        }),
    decreases replies.len(),
{
    if replies.len() > 0 {
        let rest_replies = replies.skip(1);
        let step: Step<'a, ConnectTimeout<'a>, ()> = state.next(target, replies[0]);
        let (rest, result) = run(target, step, rest_replies);
        let requests = seq![request] + rest;
        assert(answered(target, step, rest_replies));
        lemma_fits(target, state, replies[0]);
        match step {
            Step::Call(next_request, next) => {
                let now = if request is Connect {
                    Some(replies[0]->Code_0)
                } else {
                    gave
                };
                lemma_explains(target, now, next_request, next, rest_replies);
                if let Some(r) = result {
                    assert(requests.skip(1) =~= rest);
                    lemma_explained(target, state.timeout, gave, now, requests, replies, r);
                }
            },
            Step::Done(r) => {
                assert(rest =~= seq![]);
                assert(requests.last() == request);
                assert(replies.last() == replies[0]);
                if let Phase::Blocking { connected: Ok(n), .. } = state.phase {
                    assert(connect_gave(gave, requests, replies, Ok(n)));
                }
            },
        }
    }
}

/// However the system replies, connecting within a time ends with the result
/// that the replies call for.
pub proof fn law_connect_timeout_explained<'a>(
    target: Target,
    fd: c_int,
    addr: &'a SockAddr,
    timeout: Duration,
    replies: Seq<Reply>,
)
    requires
        answered(target, ConnectTimeout::first(target, fd, addr, timeout), replies),
    ensures
        ({
            let (requests, result) = run(
                target,
                ConnectTimeout::first(target, fd, addr, timeout),
                replies,
            );
            result matches Some(r) ==> {
                &&& requests.len() == replies.len() > 0
                &&& explained(target, timeout, None, requests, replies, r)
            }
        }),
{
    let change = nonblocking_change(target, fd, true);
    let flags = SetFlags::Reading(change);
    let state = ConnectTimeout { fd, addr, timeout, phase: Phase::Unblocking { flags } };
    lemma_explains(target, None, change.request(), state, replies);
}

} // verus!
