//! What an operation and the system say to each other.
//!
//! The laws that speak of a talk give every request by its fields and every
//! result by the replies, and rest on what the functions themselves promise.

use libc::c_int;
use vstd::prelude::*;

use crate::addr::SockAddr;
use crate::error::Error;
use crate::syscall::{answers, Operation, OptValue, Polled, Reply, Request, Step};
use crate::target::Target;
use crate::time::{Duration, Linger, Timeval};

verus! {

/// Where an operation stands after `talk`: if it made just these requests, and
/// could go on from each of these replies.
pub open spec fn after<'a, S: Operation<'a>>(
    target: Target,
    step: Step<'a, S, S::Output>,
    talk: Seq<(Request<'a>, Reply)>,
) -> Option<Step<'a, S, S::Output>>
    decreases talk.len(),
{
    if talk.len() == 0 {
        Some(step)
    } else {
        match step {
            Step::Call(request, state) => if request == talk[0].0 && state.accepts(talk[0].1) {
                after(target, state.next(target, talk[0].1), talk.skip(1))
            } else {
                None
            },
            Step::Done(_) => None,
        }
    }
}

/// The operation makes just the requests of `talk`, and on its replies ends
/// with `result`.
pub open spec fn goes<'a, S: Operation<'a>>(
    target: Target,
    step: Step<'a, S, S::Output>,
    talk: Seq<(Request<'a>, Reply)>,
    result: Result<S::Output, Error>,
) -> bool {
    after(target, step, talk) == Some(Step::<'a, S, S::Output>::Done(result))
}

/// After `talk`, the operation asks for `request`.
pub open spec fn then_asks<'a, S: Operation<'a>>(
    target: Target,
    step: Step<'a, S, S::Output>,
    talk: Seq<(Request<'a>, Reply)>,
    request: Request<'a>,
) -> bool {
    after(target, step, talk) matches Some(Step::Call(asked, _)) && asked == request
}

/// What a call that only succeeds or fails is reported as: as success just when
/// it succeeded, and else with the code that the system gave.
pub open spec fn told(reply: Result<c_int, c_int>) -> Result<(), Error> {
    match reply {
        Ok(_) => Ok(()),
        Err(e) => Err(Error::Os(e)),
    }
}

/// Whatever code a call that has one ends with is a reply to it.
pub proof fn law_any_code_answers(request: Request, code: Result<c_int, c_int>)
    requires
        request is Socket || request is Bind || request is Listen || request is Connect
            || request is Fcntl || request is Shutdown || request is SetSockOpt
            || request is Close,
    ensures
        answers(request, Reply::Code(code)),
{
}

/// Whatever a call that moves data, makes a pair, or waits ends with is a reply
/// to it; and so is any time that has passed.
pub proof fn law_any_outcome_answers(
    request: Request,
    count: Result<isize, c_int>,
    fds: Result<(c_int, c_int), c_int>,
    polled: Polled,
    elapsed: Duration,
)
    ensures
        request is Read || request is Recv || request is Send || request is SendTo ==> answers(
            request,
            Reply::Count(count),
        ),
        request is SocketPair ==> answers(request, Reply::Pair(fds)),
        request is Poll ==> answers(request, Reply::Polled(polled)),
        request is Elapsed && elapsed.nanos < 1_000_000_000 ==> answers(
            request,
            Reply::Elapsed(elapsed),
        ),
        request is StartClock || request is NoteDupCloexecFailed ==> answers(request, Reply::Done),
{
}

/// Whatever address a call for one ends with is a reply to it, if the bytes that
/// count are there; and so is any error.
pub proof fn law_any_address_answers(
    request: Request,
    addr: Result<SockAddr, c_int>,
    fd: c_int,
    count: isize,
)
    requires
        addr matches Ok(a) ==> a.len <= a.storage@.len(),
    ensures
        request is GetSockName || request is GetPeerName ==> answers(request, Reply::Addr(addr)),
        request is Accept || request is Accept4 ==> answers(
            request,
            Reply::Accepted(
                match addr {
                    Ok(a) => Ok((fd, a)),
                    Err(e) => Err(e),
                },
            ),
        ),
        request is RecvFrom ==> answers(
            request,
            Reply::CountFrom(
                match addr {
                    Ok(a) => Ok((count, a)),
                    Err(e) => Err(e),
                },
            ),
        ),
{
}

/// Whatever value of its kind the question for an option ends with is a reply to
/// it, and so is any error; of a timeout, if it can be read.
pub proof fn law_any_value_answers(
    request: Request,
    n: c_int,
    linger: Linger,
    addr: u32,
    time: Timeval,
    error: c_int,
)
    requires
        request is GetSockOpt,
    ensures
        request->GetSockOpt_kind is Int ==> answers(request, Reply::Opt(Ok(OptValue::Int(n)))),
        request->GetSockOpt_kind is Linger ==> answers(
            request,
            Reply::Opt(Ok(OptValue::Linger(linger))),
        ),
        request->GetSockOpt_kind is InAddr ==> answers(
            request,
            Reply::Opt(Ok(OptValue::InAddr(addr))),
        ),
        request->GetSockOpt_kind is Timeval && 0 <= time.tv_sec && 0 <= time.tv_usec < 1_000_000
            ==> answers(request, Reply::Opt(Ok(OptValue::Timeval(time)))),
        answers(request, Reply::Opt(Err(error))),
{
}

/// A talk goes on from where its first part led.
pub proof fn lemma_after_add<'a, S: Operation<'a>>(
    target: Target,
    step: Step<'a, S, S::Output>,
    first: Seq<(Request<'a>, Reply)>,
    second: Seq<(Request<'a>, Reply)>,
)
    ensures
        after(target, step, first + second) == (match after(target, step, first) {
            Some(next) => after(target, next, second),
            None => None,
        }),
    decreases first.len(),
{
    let whole = first + second;
    if first.len() == 0 {
        assert(whole =~= second);
    } else {
        assert(whole[0] == first[0]);
        assert(whole.skip(1) =~= first.skip(1) + second);
        if let Step::Call(_, state) = step {
            lemma_after_add(target, state.next(target, first[0].1), first.skip(1), second);
        }
    }
}

} // verus!
