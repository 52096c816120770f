//! The descriptors that the operations are handed and give back: none is lost,
//! and none is closed that a result holds.

use libc::c_int;
use vstd::prelude::*;

use crate::accept::Accept;
use crate::addr::SockAddr;
use crate::duplicate::TryClone;
use crate::flags::SetFlags;
use crate::open::New;
use crate::pair::Pair;
use crate::socket::Socket;
use crate::syscall::{answered, run, Operation, Reply, Request, Step};
use crate::target::Target;

verus! {

/// The descriptors that `reply` to `request` hands out, newly open.  To
/// duplicate is told from the other commands by the lowest number that the
/// duplicate may have, which is always zero.
pub open spec fn handed_out(target: Target, request: Request, reply: Reply) -> Seq<c_int> {
    match (request, reply) {
        (Request::Socket { .. }, Reply::Code(Ok(fd))) => seq![fd],
        (Request::SocketPair { .. }, Reply::Pair(Ok((a, b)))) => seq![a, b],
        (Request::Accept { .. }, Reply::Accepted(Ok((fd, _)))) => seq![fd],
        (Request::Accept4 { .. }, Reply::Accepted(Ok((fd, _)))) => seq![fd],
        (Request::Fcntl { cmd, arg, .. }, Reply::Code(Ok(fd))) => if arg == Some(0i32) && (cmd
            == target.fcntl.dupfd || cmd == target.fcntl.dupfd_cloexec) {
            seq![fd]
        } else {
            seq![]
        },
        _ => seq![],
    }
}

/// The descriptors that `replies` to `requests` hand out, in turn.
pub open spec fn opened(target: Target, requests: Seq<Request>, replies: Seq<Reply>) -> Seq<c_int>
    decreases replies.len(),
{
    if requests.len() == 0 || replies.len() == 0 {
        seq![]
    } else {
        handed_out(target, requests[0], replies[0]) + opened(
            target,
            requests.skip(1),
            replies.skip(1),
        )
    }
}

/// The descriptors that `requests` close, in turn.
pub open spec fn closed(requests: Seq<Request>) -> Seq<c_int>
    decreases requests.len(),
{
    if requests.len() == 0 {
        seq![]
    } else {
        (match requests[0] {
            Request::Close { fd } => seq![fd],
            _ => seq![],
        }) + closed(requests.skip(1))
    }
}

/// An operation that goes on from `step`, holding the descriptors `held`,
/// accounts for them: if it succeeds it closes none and its result has them
/// all, those handed out on the way included; if it fails it closes them all.
pub open spec fn accounts<'a, S: Operation<'a>>(
    target: Target,
    held: Seq<c_int>,
    step: Step<'a, S, S::Output>,
    replies: Seq<Reply>,
    kept: spec_fn(S::Output) -> Seq<c_int>,
) -> bool {
    let (requests, result) = run(target, step, replies);
    match result {
        None => true,
        Some(Ok(output)) => {
            &&& closed(requests) == Seq::<c_int>::empty()
            &&& held + opened(target, requests, replies) == kept(output)
        },
        Some(Err(_)) => held + opened(target, requests, replies) == closed(requests),
    }
}

/// One step of the accounts, by a request that closes nothing.
proof fn lemma_step<'a, S: Operation<'a>>(
    target: Target,
    held: Seq<c_int>,
    request: Request<'a>,
    state: S,
    replies: Seq<Reply>,
    kept: spec_fn(S::Output) -> Seq<c_int>,
)
    requires
        !(request is Close),
        replies.len() > 0 ==> accounts(
            target,
            held + handed_out(target, request, replies[0]),
            state.next(target, replies[0]),
            replies.skip(1),
            kept,
        ),
    ensures
        accounts(target, held, Step::<'a, S, S::Output>::Call(request, state), replies, kept),
{
    if replies.len() > 0 {
        let out = handed_out(target, request, replies[0]);
        let (rest, result) = run(target, state.next(target, replies[0]), replies.skip(1));
        let requests = seq![request] + rest;
        assert(requests.skip(1) =~= rest);
        assert(opened(target, requests, replies) == out + opened(target, rest, replies.skip(1)));
        assert(closed(requests) =~= closed(rest));
        assert(held + opened(target, requests, replies) =~= (held + out) + opened(
            target,
            rest,
            replies.skip(1),
        ));
    }
}

/// One step of the accounts, by closing the descriptor held longest, on the
/// way to failing.
proof fn lemma_close<'a, S: Operation<'a>>(
    target: Target,
    fd: c_int,
    held: Seq<c_int>,
    state: S,
    replies: Seq<Reply>,
    kept: spec_fn(S::Output) -> Seq<c_int>,
)
    requires
        replies.len() > 0 ==> {
            let step = state.next(target, replies[0]);
            &&& accounts(target, held, step, replies.skip(1), kept)
            &&& !(run(target, step, replies.skip(1)).1 matches Some(Ok(_)))
        },
    ensures
        accounts(
            target,
            seq![fd] + held,
            Step::<'a, S, S::Output>::Call((Request::Close { fd }), state),
            replies,
            kept,
        ),
        !(run(
            target,
            Step::<'a, S, S::Output>::Call((Request::Close { fd }), state),
            replies,
        ).1 matches Some(Ok(_))),
{
    if replies.len() > 0 {
        let request: Request<'a> = Request::Close { fd };
        let (rest, result) = run(target, state.next(target, replies[0]), replies.skip(1));
        let requests = seq![request] + rest;
        assert(requests.skip(1) =~= rest);
        assert(opened(target, requests, replies) =~= opened(target, rest, replies.skip(1)));
        assert(closed(requests) == seq![fd] + closed(rest));
        assert((seq![fd] + held) + opened(target, requests, replies) =~= seq![fd] + (held + opened(
            target,
            rest,
            replies.skip(1),
        )));
    }
}

/// The end of the accounts.
proof fn lemma_end<'a, S: Operation<'a>>(
    target: Target,
    held: Seq<c_int>,
    step: Step<'a, S, S::Output>,
    replies: Seq<Reply>,
    kept: spec_fn(S::Output) -> Seq<c_int>,
)
    requires
        match step {
            Step::Call(_, _) => false,
            Step::Done(Ok(output)) => kept(output) == held,
            Step::Done(Err(_)) => held == Seq::<c_int>::empty(),
        },
    ensures
        accounts(target, held, step, replies, kept),
{
    assert(opened(target, Seq::<Request>::empty(), replies) == Seq::<c_int>::empty());
    assert(held + Seq::<c_int>::empty() =~= held);
}

/// Written flags are never zero where a flag is switched on.
proof fn lemma_written_nonzero(previous: c_int, flag: c_int)
    ensures
        previous | flag != previous ==> previous | flag != 0,
{
    assert(previous | flag != previous ==> previous | flag != 0) by (bit_vector);
}

/// The descriptor of a socket.
pub open spec fn one_kept() -> spec_fn(Socket) -> Seq<c_int> {
    |socket: Socket| seq![socket.fd]
}

/// The descriptors of a pair of sockets.
pub open spec fn both_kept() -> spec_fn((Socket, Socket)) -> Seq<c_int> {
    |pair: (Socket, Socket)| seq![pair.0.fd, pair.1.fd]
}

/// The descriptor of a socket that came with an address.
pub open spec fn accepted_kept() -> spec_fn((Socket, SockAddr)) -> Seq<c_int> {
    |accepted: (Socket, SockAddr)| seq![accepted.0.fd]
}

proof fn lemma_new_failed<'a>(
    target: Target,
    fd: c_int,
    error: crate::error::Error,
    replies: Seq<Reply>,
)
    ensures
        accounts::<'a, New>(target, seq![fd], New::failed(fd, error), replies, one_kept()),
{
    let state = New::Closing { error };
    if replies.len() > 0 {
        lemma_end::<'a, New>(
            target,
            seq![],
            state.next(target, replies[0]),
            replies.skip(1),
            one_kept(),
        );
    }
    lemma_close::<'a, New>(target, fd, seq![], state, replies, one_kept());
    assert(seq![fd] + Seq::<c_int>::empty() =~= seq![fd]);
}

proof fn lemma_new_marked<'a>(target: Target, fd: c_int, replies: Seq<Reply>)
    ensures
        accounts::<'a, New>(target, seq![fd], New::marked(target, fd), replies, one_kept()),
{
    match New::marked(target, fd) {
        Step::Call(request, state) => {
            if replies.len() > 0 {
                assert(seq![fd] + handed_out(target, request, replies[0]) =~= seq![fd]);
                match replies[0]->Code_0 {
                    Ok(_) => lemma_end::<'a, New>(
                        target,
                        seq![fd],
                        state.next(target, replies[0]),
                        replies.skip(1),
                        one_kept(),
                    ),
                    Err(e) => lemma_new_failed(
                        target,
                        fd,
                        crate::error::Error::Os(e),
                        replies.skip(1),
                    ),
                }
            }
            lemma_step::<'a, New>(target, seq![fd], request, state, replies, one_kept());
        },
        step => lemma_end::<'a, New>(target, seq![fd], step, replies, one_kept()),
    }
}

/// `request` is one that marking a descriptor makes.
spec fn marking(request: Request) -> bool {
    request matches Request::Fcntl { arg, .. } && arg != Some(0i32)
}

/// `flags` switches a flag on.
spec fn switches_on(flags: SetFlags) -> bool {
    flags matches SetFlags::Reading(change) ==> change.on
}

/// The next step of marking a descriptor makes such a request too.
proof fn lemma_marking(target: Target, flags: SetFlags, reply: Reply)
    requires
        switches_on(flags),
    ensures
        flags.next(target, reply) matches Step::Call(request, next) ==> marking(request)
            && switches_on(next),
{
    if let SetFlags::Reading(change) = flags {
        if let Ok(previous) = reply->Code_0 {
            lemma_written_nonzero(previous, change.flag);
        }
    }
}

proof fn lemma_new_marking<'a>(
    target: Target,
    fd: c_int,
    request: Request<'a>,
    flags: SetFlags,
    replies: Seq<Reply>,
)
    requires
        marking(request),
        switches_on(flags),
    ensures
        accounts(
            target,
            seq![fd],
            Step::<'a, New, Socket>::Call(request, New::Marking { fd, flags }),
            replies,
            one_kept(),
        ),
    decreases replies.len(),
{
    let state = New::Marking { fd, flags };
    if replies.len() > 0 {
        assert(seq![fd] + handed_out(target, request, replies[0]) =~= seq![fd]);
        lemma_marking(target, flags, replies[0]);
        let step: Step<'a, SetFlags, ()> = flags.next(target, replies[0]);
        match step {
            Step::Call(request, flags) => lemma_new_marking(
                target,
                fd,
                request,
                flags,
                replies.skip(1),
            ),
            Step::Done(Ok(_)) => lemma_new_marked(target, fd, replies.skip(1)),
            Step::Done(Err(error)) => lemma_new_failed(target, fd, error, replies.skip(1)),
        }
    }
    lemma_step(target, seq![fd], request, state, replies, one_kept());
}

proof fn lemma_new_plain<'a>(
    target: Target,
    family: c_int,
    ty: c_int,
    protocol: c_int,
    replies: Seq<Reply>,
)
    requires
        replies.len() > 0 ==> replies[0] is Code,
    ensures
        accounts(
            target,
            seq![],
            Step::<'a, New, Socket>::Call((Request::Socket { family, ty, protocol }), New::Plain),
            replies,
            one_kept(),
        ),
{
    let request: Request<'a> = Request::Socket { family, ty, protocol };
    if replies.len() > 0 {
        let held = Seq::<c_int>::empty() + handed_out(target, request, replies[0]);
        match replies[0]->Code_0 {
            Ok(fd) => {
                let change = crate::flags::cloexec_change(target, fd);
                assert(held =~= seq![fd]);
                lemma_new_marking(
                    target,
                    fd,
                    change.request(),
                    SetFlags::Reading(change),
                    replies.skip(1),
                );
            },
            Err(_) => {
                assert(held =~= seq![]);
                lemma_end(
                    target,
                    seq![],
                    New::Plain.next(target, replies[0]),
                    replies.skip(1),
                    one_kept(),
                );
            },
        }
    }
    lemma_step(target, seq![], request, New::Plain, replies, one_kept());
}

/// Making a socket loses no descriptor: on success the one descriptor that the
/// system handed out is the socket's and stays open; on failure whatever was
/// handed out is closed.
pub proof fn law_new_accounts<'a>(
    target: Target,
    family: c_int,
    ty: c_int,
    protocol: c_int,
    replies: Seq<Reply>,
)
    requires
        answered::<'a, New>(target, New::first(target, family, ty, protocol), replies),
    ensures
        accounts::<'a, New>(
            target,
            seq![],
            New::first(target, family, ty, protocol),
            replies,
            one_kept(),
        ),
{
    if target.os is Linux {
        let request: Request<'a> = Request::Socket { family, ty: ty | target.ty.cloexec, protocol };
        let state = New::Marked { family, ty, protocol };
        if replies.len() > 0 {
            let rest = replies.skip(1);
            let step: Step<'a, New, Socket> = state.next(target, replies[0]);
            let held = Seq::<c_int>::empty() + handed_out(target, request, replies[0]);
            match step {
                Step::Call(_, _) => {
                    assert(held =~= seq![]);
                    assert(answered(target, step, rest));
                    lemma_new_plain(target, family, ty, protocol, rest);
                },
                Step::Done(Ok(socket)) => {
                    assert(held =~= seq![socket.fd]);
                    lemma_end(target, held, step, rest, one_kept());
                },
                Step::Done(Err(_)) => {
                    assert(held =~= seq![]);
                    lemma_end(target, held, step, rest, one_kept());
                },
            }
        }
        lemma_step(target, seq![], request, state, replies, one_kept());
    } else {
        lemma_new_plain(target, family, ty, protocol, replies);
    }
}

proof fn lemma_pair_failed<'a>(
    target: Target,
    fds: (c_int, c_int),
    error: crate::error::Error,
    replies: Seq<Reply>,
)
    ensures
        accounts::<'a, Pair>(
            target,
            seq![fds.0, fds.1],
            Pair::failed(fds, error),
            replies,
            both_kept(),
        ),
{
    let first = Pair::ClosingFirst { second: fds.1, error };
    let second = Pair::ClosingSecond { error };
    if replies.len() > 0 {
        let rest = replies.skip(1);
        if rest.len() > 0 {
            lemma_end::<'a, Pair>(
                target,
                seq![],
                second.next(target, rest[0]),
                rest.skip(1),
                both_kept(),
            );
        }
        lemma_close::<'a, Pair>(target, fds.1, seq![], second, rest, both_kept());
        assert(seq![fds.1] + Seq::<c_int>::empty() =~= seq![fds.1]);
    }
    lemma_close::<'a, Pair>(target, fds.0, seq![fds.1], first, replies, both_kept());
    assert(seq![fds.0] + seq![fds.1] =~= seq![fds.0, fds.1]);
}

proof fn lemma_pair_silencing<'a>(
    target: Target,
    fds: (c_int, c_int),
    request: Request<'a>,
    state: Pair,
    replies: Seq<Reply>,
)
    requires
        request is SetSockOpt,
        match state {
            Pair::SilencingFirst { fds: f, .. } => f == fds,
            Pair::SilencingSecond { fds: f } => f == fds,
            _ => false,
        },
    ensures
        accounts(
            target,
            seq![fds.0, fds.1],
            Step::<'a, Pair, (Socket, Socket)>::Call(request, state),
            replies,
            both_kept(),
        ),
    decreases replies.len(),
{
    let held = seq![fds.0, fds.1];
    if replies.len() > 0 {
        let rest = replies.skip(1);
        let step: Step<'a, Pair, (Socket, Socket)> = state.next(target, replies[0]);
        assert(held + handed_out(target, request, replies[0]) =~= held);
        match replies[0]->Code_0 {
            Ok(_) => match step {
                Step::Call(request, state) => lemma_pair_silencing(
                    target,
                    fds,
                    request,
                    state,
                    rest,
                ),
                _ => lemma_end(target, held, step, rest, both_kept()),
            },
            Err(e) => lemma_pair_failed(target, fds, crate::error::Error::Os(e), rest),
        }
    }
    lemma_step(target, held, request, state, replies, both_kept());
}

proof fn lemma_pair_marking<'a>(
    target: Target,
    fds: (c_int, c_int),
    request: Request<'a>,
    flags: SetFlags,
    state: Pair,
    replies: Seq<Reply>,
)
    requires
        marking(request),
        switches_on(flags),
        state == (Pair::MarkingFirst { fds, flags }) || state == (Pair::MarkingSecond {
            fds,
            flags,
        }),
    ensures
        accounts(
            target,
            seq![fds.0, fds.1],
            Step::<'a, Pair, (Socket, Socket)>::Call(request, state),
            replies,
            both_kept(),
        ),
    decreases replies.len(),
{
    let held = seq![fds.0, fds.1];
    if replies.len() > 0 {
        let rest = replies.skip(1);
        assert(held + handed_out(target, request, replies[0]) =~= held);
        lemma_marking(target, flags, replies[0]);
        let step: Step<'a, SetFlags, ()> = flags.next(target, replies[0]);
        match step {
            Step::Call(request, flags) => {
                let state = if state is MarkingFirst {
                    Pair::MarkingFirst { fds, flags }
                } else {
                    Pair::MarkingSecond { fds, flags }
                };
                lemma_pair_marking(target, fds, request, flags, state, rest);
            },
            Step::Done(Ok(_)) => if state is MarkingFirst {
                let change = crate::flags::cloexec_change(target, fds.1);
                let flags = SetFlags::Reading(change);
                let state = Pair::MarkingSecond { fds, flags };
                lemma_pair_marking(target, fds, change.request(), flags, state, rest);
            } else {
                let step: Step<'a, Pair, (Socket, Socket)> = Pair::marked(target, fds);
                match step {
                    Step::Call(request, state) => lemma_pair_silencing(
                        target,
                        fds,
                        request,
                        state,
                        rest,
                    ),
                    _ => lemma_end(target, held, step, rest, both_kept()),
                }
            },
            Step::Done(Err(error)) => lemma_pair_failed(target, fds, error, rest),
        }
    }
    lemma_step(target, held, request, state, replies, both_kept());
}

/// Making a pair of sockets loses no descriptor: on success the two that the
/// system handed out are the sockets' and stay open; on failure whatever was
/// handed out is closed.
pub proof fn law_pair_accounts<'a>(
    target: Target,
    family: c_int,
    ty: c_int,
    protocol: c_int,
    replies: Seq<Reply>,
)
    requires
        answered::<'a, Pair>(target, Pair::first(family, ty, protocol), replies),
    ensures
        accounts::<'a, Pair>(
            target,
            seq![],
            Pair::first(family, ty, protocol),
            replies,
            both_kept(),
        ),
{
    let request: Request<'a> = Request::SocketPair { family, ty, protocol };
    if replies.len() > 0 {
        let rest = replies.skip(1);
        let held = Seq::<c_int>::empty() + handed_out(target, request, replies[0]);
        match replies[0]->Pair_0 {
            Ok(fds) => {
                let change = crate::flags::cloexec_change(target, fds.0);
                let flags = SetFlags::Reading(change);
                let state = Pair::MarkingFirst { fds, flags };
                assert(held =~= seq![fds.0, fds.1]);
                lemma_pair_marking(target, fds, change.request(), flags, state, rest);
            },
            Err(_) => {
                assert(held =~= seq![]);
                lemma_end(target, seq![], Pair::Plain.next(target, replies[0]), rest, both_kept());
            },
        }
    }
    lemma_step(target, seq![], request, Pair::Plain, replies, both_kept());
}

proof fn lemma_clone_marking<'a>(
    target: Target,
    fd: c_int,
    request: Request<'a>,
    flags: SetFlags,
    replies: Seq<Reply>,
)
    requires
        marking(request),
        switches_on(flags),
    ensures
        accounts(
            target,
            seq![fd],
            Step::<'a, TryClone, Socket>::Call(request, TryClone::Marking { fd, flags }),
            replies,
            one_kept(),
        ),
    decreases replies.len(),
{
    let state = TryClone::Marking { fd, flags };
    if replies.len() > 0 {
        let rest = replies.skip(1);
        assert(seq![fd] + handed_out(target, request, replies[0]) =~= seq![fd]);
        lemma_marking(target, flags, replies[0]);
        let step: Step<'a, SetFlags, ()> = flags.next(target, replies[0]);
        let next: Step<'a, TryClone, Socket> = state.next(target, replies[0]);
        match step {
            Step::Call(request, flags) => lemma_clone_marking(target, fd, request, flags, rest),
            Step::Done(Ok(_)) => lemma_end(target, seq![fd], next, rest, one_kept()),
            Step::Done(Err(error)) => {
                let closing = TryClone::Closing { error };
                if rest.len() > 0 {
                    lemma_end::<'a, TryClone>(
                        target,
                        seq![],
                        closing.next(target, rest[0]),
                        rest.skip(1),
                        one_kept(),
                    );
                }
                lemma_close::<'a, TryClone>(target, fd, seq![], closing, rest, one_kept());
                assert(seq![fd] + Seq::<c_int>::empty() =~= seq![fd]);
            },
        }
    }
    lemma_step(target, seq![fd], request, state, replies, one_kept());
}

proof fn lemma_clone_plain<'a>(target: Target, fd: c_int, replies: Seq<Reply>)
    requires
        replies.len() > 0 ==> replies[0] is Code,
    ensures
        accounts::<'a, TryClone>(
            target,
            seq![],
            TryClone::plain(target, fd),
            replies,
            one_kept(),
        ),
{
    let request: Request<'a> = Request::Fcntl { fd, cmd: target.fcntl.dupfd, arg: Some(0) };
    let state = TryClone::Plain;
    if replies.len() > 0 {
        let rest = replies.skip(1);
        let held = Seq::<c_int>::empty() + handed_out(target, request, replies[0]);
        match replies[0]->Code_0 {
            Ok(new) => {
                let change = crate::flags::cloexec_change(target, new);
                assert(held =~= seq![new]);
                lemma_clone_marking(
                    target,
                    new,
                    change.request(),
                    SetFlags::Reading(change),
                    rest,
                );
            },
            Err(_) => {
                assert(held =~= seq![]);
                lemma_end(target, seq![], state.next(target, replies[0]), rest, one_kept());
            },
        }
    }
    lemma_step(target, seq![], request, state, replies, one_kept());
}

/// Duplicating a socket loses no descriptor: on success the one that the
/// system handed out is the duplicate's and stays open; on failure whatever
/// was handed out is closed.
pub proof fn law_try_clone_accounts<'a>(
    target: Target,
    fd: c_int,
    cloexec_failed: bool,
    replies: Seq<Reply>,
)
    requires
        answered::<'a, TryClone>(target, TryClone::first(target, fd, cloexec_failed), replies),
    ensures
        accounts::<'a, TryClone>(
            target,
            seq![],
            TryClone::first(target, fd, cloexec_failed),
            replies,
            one_kept(),
        ),
{
    if cloexec_failed {
        lemma_clone_plain(target, fd, replies);
    } else {
        let request: Request<'a> = Request::Fcntl {
            fd,
            cmd: target.fcntl.dupfd_cloexec,
            arg: Some(0),
        };
        let state = TryClone::Marked { fd };
        if replies.len() > 0 {
            let rest = replies.skip(1);
            let step: Step<'a, TryClone, Socket> = state.next(target, replies[0]);
            let held = Seq::<c_int>::empty() + handed_out(target, request, replies[0]);
            assert(answered(target, step, rest));
            match replies[0]->Code_0 {
                Ok(new) => {
                    assert(held =~= seq![new]);
                    if target.os is Linux {
                        let change = crate::flags::cloexec_change(target, new);
                        lemma_clone_marking(
                            target,
                            new,
                            change.request(),
                            SetFlags::Reading(change),
                            rest,
                        );
                    } else {
                        lemma_end(target, held, step, rest, one_kept());
                    }
                },
                Err(e) => {
                    assert(held =~= seq![]);
                    if e == target.errno.einval {
                        let noting = TryClone::Noting { fd };
                        let note: Request<'a> = Request::NoteDupCloexecFailed;
                        if rest.len() > 0 {
                            let plain: Step<'a, TryClone, Socket> = noting.next(target, rest[0]);
                            assert(answered(target, plain, rest.skip(1)));
                            lemma_clone_plain(target, fd, rest.skip(1));
                            assert(Seq::<c_int>::empty() + handed_out(target, note, rest[0])
                                =~= seq![]);
                        }
                        lemma_step(target, seq![], note, noting, rest, one_kept());
                    } else {
                        lemma_end(target, held, step, rest, one_kept());
                    }
                },
            }
        }
        lemma_step(target, seq![], request, state, replies, one_kept());
    }
}

proof fn lemma_accept_marking<'a>(
    target: Target,
    fd: c_int,
    addr: SockAddr,
    request: Request<'a>,
    flags: SetFlags,
    replies: Seq<Reply>,
)
    requires
        marking(request),
        switches_on(flags),
    ensures
        accounts(
            target,
            seq![fd],
            Step::<'a, Accept, (Socket, SockAddr)>::Call(
                request,
                Accept::Marking { fd, addr, flags },
            ),
            replies,
            accepted_kept(),
        ),
    decreases replies.len(),
{
    let state = Accept::Marking { fd, addr, flags };
    if replies.len() > 0 {
        let rest = replies.skip(1);
        assert(seq![fd] + handed_out(target, request, replies[0]) =~= seq![fd]);
        lemma_marking(target, flags, replies[0]);
        let step: Step<'a, SetFlags, ()> = flags.next(target, replies[0]);
        let next: Step<'a, Accept, (Socket, SockAddr)> = state.next(target, replies[0]);
        match step {
            Step::Call(request, flags) => lemma_accept_marking(
                target,
                fd,
                addr,
                request,
                flags,
                rest,
            ),
            Step::Done(Ok(_)) => lemma_end(target, seq![fd], next, rest, accepted_kept()),
            Step::Done(Err(error)) => {
                let closing = Accept::Closing { error };
                if rest.len() > 0 {
                    lemma_end::<'a, Accept>(
                        target,
                        seq![],
                        closing.next(target, rest[0]),
                        rest.skip(1),
                        accepted_kept(),
                    );
                }
                lemma_close::<'a, Accept>(target, fd, seq![], closing, rest, accepted_kept());
                assert(seq![fd] + Seq::<c_int>::empty() =~= seq![fd]);
            },
        }
    }
    lemma_step(target, seq![fd], request, state, replies, accepted_kept());
}

proof fn lemma_accept_plain<'a>(target: Target, fd: c_int, replies: Seq<Reply>)
    requires
        replies.len() > 0 ==> replies[0] is Accepted,
    ensures
        accounts::<'a, Accept>(
            target,
            seq![],
            Accept::plain(target, fd),
            replies,
            accepted_kept(),
        ),
{
    let request: Request<'a> = Request::Accept { fd, room: target.layout.storage };
    let state = Accept::Plain;
    if replies.len() > 0 {
        let rest = replies.skip(1);
        let held = Seq::<c_int>::empty() + handed_out(target, request, replies[0]);
        match replies[0]->Accepted_0 {
            Ok((new, addr)) => {
                let change = crate::flags::cloexec_change(target, new);
                assert(held =~= seq![new]);
                lemma_accept_marking(
                    target,
                    new,
                    addr,
                    change.request(),
                    SetFlags::Reading(change),
                    rest,
                );
            },
            Err(_) => {
                assert(held =~= seq![]);
                lemma_end(target, seq![], state.next(target, replies[0]), rest, accepted_kept());
            },
        }
    }
    lemma_step(target, seq![], request, state, replies, accepted_kept());
}

/// Taking a connection loses no descriptor: on success the one that the system
/// handed out is the socket's and stays open; on failure whatever was handed
/// out is closed.
pub proof fn law_accept_accounts<'a>(target: Target, fd: c_int, replies: Seq<Reply>)
    requires
        answered::<'a, Accept>(target, Accept::first(target, fd), replies),
    ensures
        accounts::<'a, Accept>(
            target,
            seq![],
            Accept::first(target, fd),
            replies,
            accepted_kept(),
        ),
{
    if target.os is Linux {
        let request: Request<'a> = Request::Accept4 {
            fd,
            room: target.layout.storage,
            flags: target.ty.cloexec,
        };
        let state = Accept::Marked { fd };
        if replies.len() > 0 {
            let rest = replies.skip(1);
            let step: Step<'a, Accept, (Socket, SockAddr)> = state.next(target, replies[0]);
            let held = Seq::<c_int>::empty() + handed_out(target, request, replies[0]);
            assert(answered(target, step, rest));
            match step {
                Step::Call(_, _) => {
                    assert(held =~= seq![]);
                    lemma_accept_plain(target, fd, rest);
                },
                Step::Done(Ok(accepted)) => {
                    assert(held =~= seq![accepted.0.fd]);
                    lemma_end(target, held, step, rest, accepted_kept());
                },
                Step::Done(Err(_)) => {
                    assert(held =~= seq![]);
                    lemma_end(target, held, step, rest, accepted_kept());
                },
            }
        }
        lemma_step(target, seq![], request, state, replies, accepted_kept());
    } else {
        lemma_accept_plain(target, fd, replies);
    }
}

} // verus!
