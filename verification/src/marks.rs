//! Every socket that is handed out is marked to be closed on `exec`.

use libc::c_int;
use vstd::prelude::*;

use crate::accept::Accept;
use crate::addr::SockAddr;
use crate::duplicate::TryClone;
use crate::flags::{cloexec_change, SetFlags};
use crate::ledger::{accepted_kept, both_kept, one_kept};
use crate::open::New;
use crate::pair::Pair;
use crate::socket::Socket;
use crate::syscall::{answered, run, Operation, Reply, Request, Step};
use crate::target::Target;

verus! {

/// `flags` has all of `flag`.
pub open spec fn has(flags: c_int, flag: c_int) -> bool {
    flags & flag == flag
}

/// `reply` to `request` shows that `fd` is marked: it was made so, was read to
/// be so, or was written so.
pub open spec fn shows(target: Target, request: Request, reply: Reply, fd: c_int) -> bool {
    match request {
        Request::Socket { ty, .. } => has(ty, target.ty.cloexec) && reply == Reply::Code(Ok(fd)),
        Request::Accept4 { flags, .. } => has(flags, target.ty.cloexec) && (reply
            matches Reply::Accepted(Ok((new, _))) && new == fd),
        Request::Fcntl { fd: of, cmd, arg } => {
            ||| {
                &&& cmd == target.fcntl.dupfd_cloexec
                &&& cmd != target.fcntl.dupfd
                &&& arg == Some(0i32)
                &&& reply == Reply::Code(Ok(fd))
            }
            ||| {
                &&& of == fd
                &&& cmd == target.fcntl.getfd
                &&& reply matches Reply::Code(Ok(flags)) && has(flags, target.fcntl.fd_cloexec)
            }
            ||| {
                &&& of == fd
                &&& cmd == target.fcntl.setfd
                &&& arg matches Some(flags) && has(flags, target.fcntl.fd_cloexec)
                &&& reply matches Reply::Code(Ok(_))
            }
        },
        _ => false,
    }
}

/// One of `replies` to `requests` shows that `fd` is marked.
pub open spec fn shown(
    target: Target,
    requests: Seq<Request>,
    replies: Seq<Reply>,
    fd: c_int,
) -> bool {
    exists|i: int|
        0 <= i < requests.len() && i < replies.len() && #[trigger] shows(
            target,
            requests[i],
            replies[i],
            fd,
        )
}

/// If an operation that goes on from `step` succeeds, each descriptor that it
/// hands out is in `known` or is shown to be marked on the way.
pub open spec fn marks<'a, S: Operation<'a>>(
    target: Target,
    known: Set<c_int>,
    step: Step<'a, S, S::Output>,
    replies: Seq<Reply>,
    kept: spec_fn(S::Output) -> Seq<c_int>,
) -> bool {
    let (requests, result) = run(target, step, replies);
    result matches Some(Ok(output)) ==> forall|j: int|
        0 <= j < kept(output).len() ==> known.contains(#[trigger] kept(output)[j]) || shown(
            target,
            requests,
            replies,
            kept(output)[j],
        )
}

/// One step: what `reply` to `request` shows is known from then on.
proof fn lemma_step<'a, S: Operation<'a>>(
    target: Target,
    known: Set<c_int>,
    more: Set<c_int>,
    request: Request<'a>,
    state: S,
    replies: Seq<Reply>,
    kept: spec_fn(S::Output) -> Seq<c_int>,
)
    requires
        replies.len() > 0 ==> {
            &&& marks(target, more, state.next(target, replies[0]), replies.skip(1), kept)
            &&& forall|fd: c_int| #[trigger]
                more.contains(fd) ==> known.contains(fd) || shows(target, request, replies[0], fd)
        },
    ensures
        marks(target, known, Step::<'a, S, S::Output>::Call(request, state), replies, kept),
{
    if replies.len() > 0 {
        let (rest, result) = run(target, state.next(target, replies[0]), replies.skip(1));
        let requests = seq![request] + rest;
        if let Some(Ok(output)) = result {
            assert forall|j: int| 0 <= j < kept(output).len() implies known.contains(
                #[trigger] kept(output)[j],
            ) || shown(target, requests, replies, kept(output)[j]) by {
                let fd = kept(output)[j];
                if more.contains(fd) {
                    if !known.contains(fd) {
                        assert(shows(target, requests[0], replies[0], fd));
                    }
                } else {
                    let i = choose|i: int|
                        0 <= i < rest.len() && i < replies.skip(1).len() && #[trigger] shows(
                            target,
                            rest[i],
                            replies.skip(1)[i],
                            fd,
                        );
                    assert(requests[i + 1] == rest[i]);
                    assert(replies[i + 1] == replies.skip(1)[i]);
                    assert(shows(target, requests[i + 1], replies[i + 1], fd));
                }
            }
        }
    }
}

/// A flag that was joined is had.
proof fn lemma_joined(flags: c_int, flag: c_int)
    ensures
        has(flags | flag, flag),
{
    assert((flags | flag) & flag == flag) by (bit_vector);
}

/// When the flags of `fd` have been changed, a reply has shown it.
proof fn lemma_flags<'a>(
    target: Target,
    fd: c_int,
    request: Request<'a>,
    flags: SetFlags,
    reply: Reply,
)
    requires
        reply is Code,
        marking(target, fd, request, flags),
    ensures
        match SetFlags::next(flags, target, reply) {
            Step::Call(request, next) => marking(target, fd, request, next),
            Step::Done(Ok(_)) => shows(target, request, reply, fd),
            Step::Done(Err(_)) => true,
        },
{
    if let Ok(previous) = reply->Code_0 {
        lemma_joined(previous, target.fcntl.fd_cloexec);
    }
}

/// `request` is the one that marking `fd` is at.
spec fn marking(target: Target, fd: c_int, request: Request, flags: SetFlags) -> bool {
    match flags {
        SetFlags::Reading(change) => {
            &&& change == cloexec_change(target, fd)
            &&& request == change.request()
        },
        SetFlags::Writing => {
            &&& request matches Request::Fcntl { fd: of, cmd, arg: Some(flags) }
            &&& of == fd
            &&& cmd == target.fcntl.setfd
            &&& has(flags, target.fcntl.fd_cloexec)
        },
    }
}

proof fn lemma_new_marked<'a>(target: Target, fd: c_int, replies: Seq<Reply>)
    ensures
        marks::<'a, New>(target, set![fd], New::marked(target, fd), replies, one_kept()),
{
    match New::marked(target, fd) {
        Step::Call(request, state) => {
            if replies.len() > 0 {
                let closing: New = New::Closing {
                    error: crate::error::Error::Os(replies[0]->Code_0->Err_0),
                };
                if replies.skip(1).len() > 0 {
                    assert(closing.next(target, replies.skip(1)[0]) matches Step::<
                        'a,
                        New,
                        Socket,
                    >::Done(Err(_)));
                }
                reveal_with_fuel(run, 2);
            }
            lemma_step(target, set![fd], set![fd], request, state, replies, one_kept());
        },
        _ => {},
    }
}

proof fn lemma_new_marking<'a>(
    target: Target,
    fd: c_int,
    request: Request<'a>,
    flags: SetFlags,
    replies: Seq<Reply>,
)
    requires
        marking(target, fd, request, flags),
        answered(
            target,
            Step::<'a, New, Socket>::Call(request, New::Marking { fd, flags }),
            replies,
        ),
    ensures
        marks(
            target,
            set![],
            Step::<'a, New, Socket>::Call(request, New::Marking { fd, flags }),
            replies,
            one_kept(),
        ),
    decreases replies.len(),
{
    let state = New::Marking { fd, flags };
    let mut more: Set<c_int> = set![];
    if replies.len() > 0 {
        let rest = replies.skip(1);
        lemma_flags(target, fd, request, flags, replies[0]);
        let step: Step<'a, SetFlags, ()> = flags.next(target, replies[0]);
        match step {
            Step::Call(request, flags) => lemma_new_marking(target, fd, request, flags, rest),
            Step::Done(Ok(_)) => {
                lemma_new_marked(target, fd, rest);
                more = set![fd];
            },
            Step::Done(Err(_)) => {
                reveal_with_fuel(run, 2);
            },
        }
    }
    lemma_step(target, set![], more, request, state, replies, one_kept());
}

proof fn lemma_new_plain<'a>(
    target: Target,
    family: c_int,
    ty: c_int,
    protocol: c_int,
    replies: Seq<Reply>,
)
    requires
        answered(
            target,
            Step::<'a, New, Socket>::Call((Request::Socket { family, ty, protocol }), New::Plain),
            replies,
        ),
    ensures
        marks(
            target,
            set![],
            Step::<'a, New, Socket>::Call((Request::Socket { family, ty, protocol }), New::Plain),
            replies,
            one_kept(),
        ),
{
    let request: Request<'a> = Request::Socket { family, ty, protocol };
    if replies.len() > 0 {
        if let Ok(fd) = replies[0]->Code_0 {
            let change = cloexec_change(target, fd);
            lemma_new_marking(
                target,
                fd,
                change.request(),
                SetFlags::Reading(change),
                replies.skip(1),
            );
        }
    }
    lemma_step(target, set![], set![], request, New::Plain, replies, one_kept());
}

/// A socket that is made is marked to be closed on `exec`.
pub proof fn law_new_marks<'a>(
    target: Target,
    family: c_int,
    ty: c_int,
    protocol: c_int,
    replies: Seq<Reply>,
)
    requires
        answered::<'a, New>(target, New::first(target, family, ty, protocol), replies),
    ensures
        marks::<'a, New>(
            target,
            set![],
            New::first(target, family, ty, protocol),
            replies,
            one_kept(),
        ),
{
    if target.os is Linux {
        let request: Request<'a> = Request::Socket { family, ty: ty | target.ty.cloexec, protocol };
        let state = New::Marked { family, ty, protocol };
        let mut more: Set<c_int> = set![];
        if replies.len() > 0 {
            let step: Step<'a, New, Socket> = state.next(target, replies[0]);
            lemma_joined(ty, target.ty.cloexec);
            match step {
                Step::Call(_, _) => lemma_new_plain(
                    target,
                    family,
                    ty,
                    protocol,
                    replies.skip(1),
                ),
                Step::Done(Ok(socket)) => {
                    more = set![socket.fd];
                },
                Step::Done(Err(_)) => {},
            }
        }
        lemma_step(target, set![], more, request, state, replies, one_kept());
    } else {
        lemma_new_plain(target, family, ty, protocol, replies);
    }
}

/// A pair that is given up on is not handed out.
proof fn lemma_pair_failed<'a>(
    target: Target,
    fds: (c_int, c_int),
    error: crate::error::Error,
    replies: Seq<Reply>,
)
    ensures
        !(run::<'a, Pair>(target, Pair::failed(fds, error), replies).1 matches Some(Ok(_))),
{
    reveal_with_fuel(run, 3);
}

proof fn lemma_pair_silencing<'a>(
    target: Target,
    fds: (c_int, c_int),
    request: Request<'a>,
    state: Pair,
    replies: Seq<Reply>,
)
    requires
        match state {
            Pair::SilencingFirst { fds: f, .. } => f == fds,
            Pair::SilencingSecond { fds: f } => f == fds,
            _ => false,
        },
    ensures
        marks(
            target,
            set![fds.0, fds.1],
            Step::<'a, Pair, (Socket, Socket)>::Call(request, state),
            replies,
            both_kept(),
        ),
    decreases replies.len(),
{
    let known = set![fds.0, fds.1];
    if replies.len() > 0 {
        let rest = replies.skip(1);
        match replies[0]->Code_0 {
            Ok(_) => {
                let step: Step<'a, Pair, (Socket, Socket)> = state.next(target, replies[0]);
                if let Step::Call(request, state) = step {
                    lemma_pair_silencing(target, fds, request, state, rest);
                }
            },
            Err(e) => lemma_pair_failed(target, fds, crate::error::Error::Os(e), rest),
        }
    }
    lemma_step(target, known, known, request, state, replies, both_kept());
}

proof fn lemma_pair_second<'a>(
    target: Target,
    fds: (c_int, c_int),
    request: Request<'a>,
    flags: SetFlags,
    replies: Seq<Reply>,
)
    requires
        marking(target, fds.1, request, flags),
        answered(
            target,
            Step::<'a, Pair, (Socket, Socket)>::Call(request, Pair::MarkingSecond { fds, flags }),
            replies,
        ),
    ensures
        marks(
            target,
            set![fds.0],
            Step::<'a, Pair, (Socket, Socket)>::Call(request, Pair::MarkingSecond { fds, flags }),
            replies,
            both_kept(),
        ),
    decreases replies.len(),
{
    let state = Pair::MarkingSecond { fds, flags };
    let mut more: Set<c_int> = set![fds.0];
    if replies.len() > 0 {
        let rest = replies.skip(1);
        lemma_flags(target, fds.1, request, flags, replies[0]);
        let step: Step<'a, SetFlags, ()> = flags.next(target, replies[0]);
        match step {
            Step::Call(request, flags) => lemma_pair_second(target, fds, request, flags, rest),
            Step::Done(Ok(_)) => {
                more = set![fds.0, fds.1];
                let step: Step<'a, Pair, (Socket, Socket)> = Pair::marked(target, fds);
                if let Step::Call(request, state) = step {
                    lemma_pair_silencing(target, fds, request, state, rest);
                }
            },
            Step::Done(Err(error)) => lemma_pair_failed(target, fds, error, rest),
        }
    }
    lemma_step(target, set![fds.0], more, request, state, replies, both_kept());
}

proof fn lemma_pair_first<'a>(
    target: Target,
    fds: (c_int, c_int),
    request: Request<'a>,
    flags: SetFlags,
    replies: Seq<Reply>,
)
    requires
        marking(target, fds.0, request, flags),
        answered(
            target,
            Step::<'a, Pair, (Socket, Socket)>::Call(request, Pair::MarkingFirst { fds, flags }),
            replies,
        ),
    ensures
        marks(
            target,
            set![],
            Step::<'a, Pair, (Socket, Socket)>::Call(request, Pair::MarkingFirst { fds, flags }),
            replies,
            both_kept(),
        ),
    decreases replies.len(),
{
    let state = Pair::MarkingFirst { fds, flags };
    let mut more: Set<c_int> = set![];
    if replies.len() > 0 {
        let rest = replies.skip(1);
        lemma_flags(target, fds.0, request, flags, replies[0]);
        let step: Step<'a, SetFlags, ()> = flags.next(target, replies[0]);
        match step {
            Step::Call(request, flags) => lemma_pair_first(target, fds, request, flags, rest),
            Step::Done(Ok(_)) => {
                more = set![fds.0];
                let change = cloexec_change(target, fds.1);
                let flags = SetFlags::Reading(change);
                lemma_pair_second(target, fds, change.request(), flags, rest);
            },
            Step::Done(Err(error)) => lemma_pair_failed(target, fds, error, rest),
        }
    }
    lemma_step(target, set![], more, request, state, replies, both_kept());
}

/// Both sockets of a pair that is made are marked to be closed on `exec`.
pub proof fn law_pair_marks<'a>(
    target: Target,
    family: c_int,
    ty: c_int,
    protocol: c_int,
    replies: Seq<Reply>,
)
    requires
        answered::<'a, Pair>(target, Pair::first(family, ty, protocol), replies),
    ensures
        marks::<'a, Pair>(
            target,
            set![],
            Pair::first(family, ty, protocol),
            replies,
            both_kept(),
        ),
{
    let request: Request<'a> = Request::SocketPair { family, ty, protocol };
    if replies.len() > 0 {
        if let Ok(fds) = replies[0]->Pair_0 {
            let change = cloexec_change(target, fds.0);
            let flags = SetFlags::Reading(change);
            lemma_pair_first(target, fds, change.request(), flags, replies.skip(1));
        }
    }
    lemma_step(target, set![], set![], request, Pair::Plain, replies, both_kept());
}

proof fn lemma_clone_marking<'a>(
    target: Target,
    fd: c_int,
    request: Request<'a>,
    flags: SetFlags,
    replies: Seq<Reply>,
)
    requires
        marking(target, fd, request, flags),
        answered(
            target,
            Step::<'a, TryClone, Socket>::Call(request, TryClone::Marking { fd, flags }),
            replies,
        ),
    ensures
        marks(
            target,
            set![],
            Step::<'a, TryClone, Socket>::Call(request, TryClone::Marking { fd, flags }),
            replies,
            one_kept(),
        ),
    decreases replies.len(),
{
    let state = TryClone::Marking { fd, flags };
    let mut more: Set<c_int> = set![];
    if replies.len() > 0 {
        lemma_flags(target, fd, request, flags, replies[0]);
        let step: Step<'a, SetFlags, ()> = flags.next(target, replies[0]);
        match step {
            Step::Call(request, flags) => lemma_clone_marking(
                target,
                fd,
                request,
                flags,
                replies.skip(1),
            ),
            Step::Done(Ok(_)) => {
                more = set![fd];
            },
            Step::Done(Err(_)) => {
                reveal_with_fuel(run, 2);
            },
        }
    }
    lemma_step(target, set![], more, request, state, replies, one_kept());
}

proof fn lemma_clone_plain<'a>(target: Target, fd: c_int, replies: Seq<Reply>)
    requires
        answered::<'a, TryClone>(target, TryClone::plain(target, fd), replies),
    ensures
        marks::<'a, TryClone>(target, set![], TryClone::plain(target, fd), replies, one_kept()),
{
    let request: Request<'a> = Request::Fcntl { fd, cmd: target.fcntl.dupfd, arg: Some(0) };
    if replies.len() > 0 {
        if let Ok(new) = replies[0]->Code_0 {
            let change = cloexec_change(target, new);
            lemma_clone_marking(
                target,
                new,
                change.request(),
                SetFlags::Reading(change),
                replies.skip(1),
            );
        }
    }
    lemma_step(target, set![], set![], request, TryClone::Plain, replies, one_kept());
}

/// A duplicate came of a command that is meant to duplicate and to mark, but is
/// the one that only duplicates, for want of another; and nothing else marks
/// it.
pub open spec fn left_unmarked(target: Target, cloexec_failed: bool, replies: Seq<Reply>) -> bool {
    &&& target.fcntl.dupfd_cloexec == target.fcntl.dupfd
    &&& !(target.os is Linux)
    &&& !cloexec_failed
    &&& replies.len() > 0
    &&& replies[0] matches Reply::Code(Ok(_))
}

/// A duplicate of a socket is marked to be closed on `exec`, where the system
/// has a command that does so.
pub proof fn law_try_clone_marks<'a>(
    target: Target,
    fd: c_int,
    cloexec_failed: bool,
    replies: Seq<Reply>,
)
    requires
        !left_unmarked(target, cloexec_failed, replies),
        answered::<'a, TryClone>(target, TryClone::first(target, fd, cloexec_failed), replies),
    ensures
        marks::<'a, TryClone>(
            target,
            set![],
            TryClone::first(target, fd, cloexec_failed),
            replies,
            one_kept(),
        ),
{
    if cloexec_failed {
        lemma_clone_plain(target, fd, replies);
    } else {
        let request: Request<'a> = Request::Fcntl {
            fd,
            cmd: target.fcntl.dupfd_cloexec,
            arg: Some(0),
        };
        let state = TryClone::Marked { fd };
        let mut more: Set<c_int> = set![];
        if replies.len() > 0 {
            let rest = replies.skip(1);
            match replies[0]->Code_0 {
                Ok(new) => if target.os is Linux {
                    let change = cloexec_change(target, new);
                    lemma_clone_marking(
                        target,
                        new,
                        change.request(),
                        SetFlags::Reading(change),
                        rest,
                    );
                } else {
                    more = set![new];
                },
                Err(e) => if e == target.errno.einval {
                    let noting = TryClone::Noting { fd };
                    let note: Request<'a> = Request::NoteDupCloexecFailed;
                    if rest.len() > 0 {
                        let step: Step<'a, TryClone, Socket> = state.next(target, replies[0]);
                        assert(answered(target, step, rest));
                        lemma_clone_plain(target, fd, rest.skip(1));
                    }
                    lemma_step(target, set![], set![], note, noting, rest, one_kept());
                },
            }
        }
        lemma_step(target, set![], more, request, state, replies, one_kept());
    }
}

proof fn lemma_accept_marking<'a>(
    target: Target,
    fd: c_int,
    addr: SockAddr,
    request: Request<'a>,
    flags: SetFlags,
    replies: Seq<Reply>,
)
    requires
        marking(target, fd, request, flags),
        answered(
            target,
            Step::<'a, Accept, (Socket, SockAddr)>::Call(
                request,
                Accept::Marking { fd, addr, flags },
            ),
            replies,
        ),
    ensures
        marks(
            target,
            set![],
            Step::<'a, Accept, (Socket, SockAddr)>::Call(
                request,
                Accept::Marking { fd, addr, flags },
            ),
            replies,
            accepted_kept(),
        ),
    decreases replies.len(),
{
    let state = Accept::Marking { fd, addr, flags };
    let mut more: Set<c_int> = set![];
    if replies.len() > 0 {
        lemma_flags(target, fd, request, flags, replies[0]);
        let step: Step<'a, SetFlags, ()> = flags.next(target, replies[0]);
        match step {
            Step::Call(request, flags) => lemma_accept_marking(
                target,
                fd,
                addr,
                request,
                flags,
                replies.skip(1),
            ),
            Step::Done(Ok(_)) => {
                more = set![fd];
            },
            Step::Done(Err(_)) => {
                reveal_with_fuel(run, 2);
            },
        }
    }
    lemma_step(target, set![], more, request, state, replies, accepted_kept());
}

proof fn lemma_accept_plain<'a>(target: Target, fd: c_int, replies: Seq<Reply>)
    requires
        answered::<'a, Accept>(target, Accept::plain(target, fd), replies),
    ensures
        marks::<'a, Accept>(target, set![], Accept::plain(target, fd), replies, accepted_kept()),
{
    let request: Request<'a> = Request::Accept { fd, room: target.layout.storage };
    if replies.len() > 0 {
        if let Ok((new, addr)) = replies[0]->Accepted_0 {
            let change = cloexec_change(target, new);
            lemma_accept_marking(
                target,
                new,
                addr,
                change.request(),
                SetFlags::Reading(change),
                replies.skip(1),
            );
        }
    }
    lemma_step(target, set![], set![], request, Accept::Plain, replies, accepted_kept());
}

/// The socket of a connection that is taken is marked to be closed on `exec`.
pub proof fn law_accept_marks<'a>(target: Target, fd: c_int, replies: Seq<Reply>)
    requires
        answered::<'a, Accept>(target, Accept::first(target, fd), replies),
    ensures
        marks::<'a, Accept>(target, set![], Accept::first(target, fd), replies, accepted_kept()),
{
    if target.os is Linux {
        let flag = target.ty.cloexec;
        let request: Request<'a> = Request::Accept4 {
            fd,
            room: target.layout.storage,
            flags: flag,
        };
        let state = Accept::Marked { fd };
        let mut more: Set<c_int> = set![];
        if replies.len() > 0 {
            let step: Step<'a, Accept, (Socket, SockAddr)> = state.next(target, replies[0]);
            assert(flag & flag == flag) by (bit_vector);
            match step {
                Step::Call(_, _) => lemma_accept_plain(target, fd, replies.skip(1)),
                Step::Done(Ok(accepted)) => {
                    more = set![accepted.0.fd];
                },
                Step::Done(Err(_)) => {},
            }
        }
        lemma_step(target, set![], more, request, state, replies, accepted_kept());
    } else {
        lemma_accept_plain(target, fd, replies);
    }
}

} // verus!
