//! What holds of the operations together.

use libc::c_int;
use vstd::prelude::*;

use crate::accept::Accept;
use crate::addr::{addr_of, family_bytes, s_addr, unix_bytes, Ipv4Addr, SockAddr};
use crate::duplicate::TryClone;
use crate::error::Error;
use crate::flags::{changed, Change, SetFlags};
use crate::open::New;
use crate::socket::{capped, known, most, Describe, Description, Socket};
use crate::syscall::{answered, run, Operation, Reply, Request, Step};
use crate::target::{Endian, Target, TimeWidth};
use crate::time::{
    linger_of, linger_time, max_time, readable, timeout_of, timeval_of, Duration, Linger, Timeval,
    NANOS_PER_SEC,
};

verus! {

/// The bytes of a word, the lowest first.
proof fn lemma_bytes(n: int, low: u8, mid_low: u8, mid_high: u8, high: u8)
    requires
        n == low + 0x100 * mid_low + 0x1_0000 * mid_high + 0x100_0000 * high,
    ensures
        n % 0x100 == low,
        n / 0x100 % 0x100 == mid_low,
        n / 0x1_0000 % 0x100 == mid_high,
        n / 0x100_0000 == high,
{
    assert(n / 0x100 == mid_low + 0x100 * mid_high + 0x1_0000 * high);
    assert(n / 0x1_0000 == mid_high + 0x100 * high);
}

/// An IPv4 address comes back from its `in_addr_t` as it was.
pub proof fn law_ipv4_round_trip(endian: Endian, addr: Ipv4Addr)
    ensures
        addr_of(endian, s_addr(endian, addr)) == addr,
{
    let n = s_addr(endian, addr);
    match endian {
        Endian::Little => lemma_bytes(n as int, addr.a, addr.b, addr.c, addr.d),
        Endian::Big => lemma_bytes(n as int, addr.d, addr.c, addr.b, addr.a),
    }
}

/// An `in_addr_t` comes back from its IPv4 address as it was.
pub proof fn law_in_addr_round_trip(endian: Endian, n: u32)
    ensures
        s_addr(endian, addr_of(endian, n)) == n,
{
    let high = n / 0x100_0000;
    let mid = n / 0x1_0000;
    let low = n / 0x100;
    assert(high < 0x100);
    assert(mid / 0x100 == high && mid == 0x100 * high + mid % 0x100) by {
        assert(n / 0x1_0000 / 0x100 == n / 0x100_0000) by (nonlinear_arith);
    }
    assert(low / 0x100 == mid && low == 0x100 * mid + low % 0x100) by {
        assert(n / 0x100 / 0x100 == n / 0x1_0000) by (nonlinear_arith);
    }
    assert(n == 0x100 * low + n % 0x100);
    assert(n == 0x100_0000 * high + 0x1_0000 * (mid % 0x100) + 0x100 * (low % 0x100) + n % 0x100);
}

/// Different paths have different Unix addresses.
pub proof fn law_unix_addresses_differ(target: Target, p: Seq<u8>, q: Seq<u8>)
    requires
        unix_bytes(target, p) == unix_bytes(target, q),
    ensures
        p == q,
{
    let head = family_bytes(target);
    let x = unix_bytes(target, p);
    let y = unix_bytes(target, q);
    if p.len() > 0 {
        assert(x[head.len() as int] == p[0]);
    }
    if q.len() > 0 {
        assert(y[head.len() as int] == q[0]);
    }
    assert(x.len() == head.len() + p.len() + if p.len() > 0 && p[0] != 0 { 1int } else { 0 });
    assert(y.len() == head.len() + q.len() + if q.len() > 0 && q[0] != 0 { 1int } else { 0 });
    assert forall|i: int| 0 <= i < p.len() implies p[i] == #[trigger] x[head.len() + i] by {}
    assert forall|i: int| 0 <= i < q.len() implies q[i] == #[trigger] y[head.len() + i] by {}
    assert(p.len() == q.len());
    assert forall|i: int| 0 <= i < p.len() implies p[i] == q[i] by {
        assert(x[head.len() + i] == p[i]);
        assert(y[head.len() + i] == q[i]);
    }
    assert(p =~= q);
}

/// The microseconds of a timeout that are kept: rounded down but to no less than
/// one, in as many seconds as fit.
pub open spec fn micros_kept(width: TimeWidth, d: Duration) -> int {
    let secs = if d.secs > max_time(width) {
        max_time(width) as int
    } else {
        d.secs as int
    };
    let micros = secs * 1_000_000 + d.nanos / 1000;
    if micros == 0 {
        1
    } else {
        micros
    }
}

/// A timeout that is not zero is set as one that is not zero, and comes back
/// in the microseconds that are kept.
pub proof fn law_timeout_round_trip(width: TimeWidth, d: Duration)
    requires
        d.wf(),
        d@ != 0,
    ensures
        readable(timeval_of(width, Some(d))),
        timeout_of(timeval_of(width, Some(d))) matches Some(back) && back.wf() && back@ == 1000
            * micros_kept(width, d),
{
    let raw = timeval_of(width, Some(d));
    assert(0 <= raw.tv_sec && 0 <= raw.tv_usec < 1_000_000);
    let n = (raw.tv_sec * NANOS_PER_SEC + raw.tv_usec * 1000) as nat;
    assert(timeout_of(raw) == Some(Duration::of_nanos(n)));
    assert(n / NANOS_PER_SEC as nat == raw.tv_sec);
}

/// A timeout in whole microseconds, in no more seconds than fit, comes back
/// exactly.
pub proof fn law_timeout_kept(width: TimeWidth, d: Duration)
    requires
        d.wf(),
        d@ != 0,
        d.nanos % 1000 == 0,
        d.secs <= max_time(width),
    ensures
        timeout_of(timeval_of(width, Some(d))) == Some(d),
{
    law_timeout_round_trip(width, d);
}

/// The value of a timeout option that a timeout can be set to, once it is read
/// as a timeout, is set as it was.
pub proof fn law_timeval_round_trip(width: TimeWidth, raw: Timeval)
    requires
        0 <= raw.tv_sec <= max_time(width),
        0 <= raw.tv_usec < 1_000_000,
    ensures
        readable(raw),
        timeval_of(width, timeout_of(raw)) == raw,
{
    let n = (raw.tv_sec * NANOS_PER_SEC + raw.tv_usec * 1000) as nat;
    assert(n / NANOS_PER_SEC as nat == raw.tv_sec);
    assert(n % NANOS_PER_SEC as nat == raw.tv_usec * 1000);
}

/// A longer timeout is never set as a shorter one, unless both are cut to what
/// fits, and what lies beyond the whole seconds, which is kept, is less.
pub proof fn law_longer_timeout_is_no_shorter(width: TimeWidth, d: Duration, longer: Duration)
    requires
        d.wf(),
        longer.wf(),
        d@ != 0,
        d@ <= longer@,
        d.secs >= max_time(width) && longer.secs > max_time(width) ==> d.nanos / 1000
            <= longer.nanos / 1000,
    ensures
        ({
            let short = timeval_of(width, Some(d));
            let long = timeval_of(width, Some(longer));
            short.tv_sec < long.tv_sec || (short.tv_sec == long.tv_sec && short.tv_usec
                <= long.tv_usec)
        }),
        micros_kept(width, d) <= micros_kept(width, longer),
{
    assert(d.secs <= longer.secs);
}

/// No timeout is set as none, and comes back as none.
pub proof fn law_no_timeout_kept(width: TimeWidth)
    ensures
        timeout_of(timeval_of(width, None)) == None::<Duration>,
{
}

/// A time to linger comes back in whole seconds, provided that they fit into a
/// `c_int`.
pub proof fn law_linger_round_trip(dur: Option<Duration>)
    requires
        dur matches Some(d) ==> d.secs <= c_int::MAX,
    ensures
        linger_time(linger_of(dur)) == (match dur {
            Some(d) => Some(Duration { secs: d.secs, nanos: 0 }),
            None => None,
        }),
{
}

/// The value of the linger option that a time to linger can be set to, once it
/// is read as a time, is set as it was.
pub proof fn law_linger_value_round_trip(raw: Linger)
    requires
        raw.l_onoff == 1 || (raw.l_onoff == 0 && raw.l_linger == 0),
    ensures
        linger_of(linger_time(raw)) == raw,
{
}

/// Changing a flag changes no other, and leaves the flag as was asked.
pub proof fn law_change_is_of_one_flag(change: Change, previous: c_int)
    ensures
        changed(change, previous) & !change.flag == previous & !change.flag,
        changed(change, previous) & change.flag == if change.on { change.flag } else { 0 },
{
    let flag = change.flag;
    assert((previous | flag) & !flag == previous & !flag) by (bit_vector);
    assert((previous & !flag) & !flag == previous & !flag) by (bit_vector);
    assert((previous | flag) & flag == flag) by (bit_vector);
    assert((previous & !flag) & flag == 0) by (bit_vector);
}

/// A change that has been made is not made again: the flags are only read.
pub proof fn law_change_is_made_once<'a>(target: Target, change: Change, previous: c_int)
    ensures
        changed(change, changed(change, previous)) == changed(change, previous),
        run(
            target,
            change.first(),
            seq![Reply::Code(Ok(changed(change, previous)))],
        ) == (seq![change.request::<'a>()], Some(Ok::<(), Error>(()))),
{
    let flag = change.flag;
    assert((previous | flag) | flag == previous | flag) by (bit_vector);
    assert((previous & !flag) & !flag == previous & !flag) by (bit_vector);
    reveal_with_fuel(run, 2);
    assert(run(target, change.first(), seq![Reply::Code(Ok(changed(change, previous)))]).0
        =~= seq![change.request::<'a>()]);
}

/// Changing a flag ends well only when the flags were read as asked, or were
/// read otherwise and written as asked; and it fails with the error of the last
/// call.
pub proof fn law_change_is_shown<'a>(target: Target, change: Change, replies: Seq<Reply>)
    requires
        answered::<'a, SetFlags>(target, change.first(), replies),
    ensures
        ({
            let (requests, result) = run::<'a, SetFlags>(target, change.first(), replies);
            match result {
                None => true,
                Some(Ok(_)) => replies[0] matches Reply::Code(Ok(previous)) && {
                    let new = changed(change, previous);
                    if new == previous {
                        requests == seq![change.request()]
                    } else {
                        &&& requests == seq![
                            change.request(),
                            Request::Fcntl { fd: change.fd, cmd: change.set, arg: Some(new) },
                        ]
                        &&& replies[1] matches Reply::Code(Ok(_))
                    }
                },
                Some(Err(e)) => replies.last() matches Reply::Code(Err(code)) && e == Error::Os(
                    code,
                ),
            }
        }),
{
    reveal_with_fuel(run, 3);
    reveal_with_fuel(answered, 3);
    if replies.len() > 0 {
        let (requests, result) = run::<'a, SetFlags>(target, change.first(), replies);
        if let Ok(previous) = replies[0]->Code_0 {
            let new = changed(change, previous);
            if new == previous {
                assert(requests =~= seq![change.request()]);
            } else if replies.len() > 1 {
                assert(replies.skip(1)[0] == replies[1]);
                assert(requests =~= seq![
                    change.request(),
                    Request::Fcntl { fd: change.fd, cmd: change.set, arg: Some(new) },
                ]);
            }
        }
    }
}

/// Switching a flag on and off again gives the flags back as they were, where
/// it was off.
pub proof fn law_change_is_undone(change: Change, previous: c_int)
    requires
        change.on,
        previous & change.flag == 0,
    ensures
        changed(Change { on: false, ..change }, changed(change, previous)) == previous,
{
    let flag = change.flag;
    assert(previous & flag == 0 ==> (previous | flag) & !flag == previous) by (bit_vector);
}

/// No more is asked for in one call than the buffer holds, nor than the system
/// takes; and all of the buffer where the system takes that.
pub proof fn law_capped(target: Target, len: usize)
    ensures
        capped(target, len) <= len,
        capped(target, len) <= most(target),
        len <= most(target) ==> capped(target, len) == len,
        len > 0 ==> capped(target, len) > 0,
{
}

/// The flags that are joined to a type of socket are both had, in whatever
/// order they were joined, and joining one again changes nothing.
pub proof fn law_type_flags(target: Target, ty: c_int)
    ensures
        (ty | target.ty.nonblock) | target.ty.cloexec == (ty | target.ty.cloexec)
            | target.ty.nonblock,
        (ty | target.ty.nonblock) | target.ty.nonblock == ty | target.ty.nonblock,
        (ty | target.ty.cloexec) | target.ty.cloexec == ty | target.ty.cloexec,
        ((ty | target.ty.nonblock) | target.ty.cloexec) & target.ty.nonblock == target.ty.nonblock,
        ((ty | target.ty.nonblock) | target.ty.cloexec) & target.ty.cloexec == target.ty.cloexec,
{
    let n = target.ty.nonblock;
    let c = target.ty.cloexec;
    assert((ty | n) | c == (ty | c) | n) by (bit_vector);
    assert((ty | n) | n == ty | n) by (bit_vector);
    assert((ty | c) | c == ty | c) by (bit_vector);
    assert(((ty | n) | c) & n == n) by (bit_vector);
    assert(((ty | n) | c) & c == c) by (bit_vector);
}

/// On Linux, a kernel that calls a socket marked from the start invalid is
/// asked for a plain one, as any other system is from the first; whatever else
/// it replies is the end.
pub proof fn law_new_falls_back<'a>(
    target: Target,
    family: c_int,
    ty: c_int,
    protocol: c_int,
    replies: Seq<Reply>,
)
    requires
        target.os is Linux,
        replies.len() > 0,
        replies[0] is Code,
    ensures
        ({
            let marked: Request<'a> = Request::Socket {
                family,
                ty: ty | target.ty.cloexec,
                protocol,
            };
            let plain = Step::<'a, New, Socket>::Call(
                (Request::Socket { family, ty, protocol }),
                New::Plain,
            );
            let (requests, result) = run(
                target,
                New::first(target, family, ty, protocol),
                replies,
            );
            match replies[0]->Code_0 {
                Ok(fd) => {
                    &&& requests == seq![marked]
                    &&& result == Some(Ok::<Socket, Error>(Socket { fd }))
                },
                Err(e) => if e == target.errno.einval {
                    let rest = run(target, plain, replies.skip(1));
                    &&& requests == seq![marked] + rest.0
                    &&& result == rest.1
                } else {
                    &&& requests == seq![marked]
                    &&& result == Some(Err::<Socket, Error>(Error::Os(e)))
                },
            }
        }),
{
    let state = New::Marked { family, ty, protocol };
    let step: Step<'a, New, Socket> = state.next(target, replies[0]);
    if !(step is Call) {
        assert(run(target, step, replies.skip(1)).0 =~= seq![]);
        assert(run(target, New::first(target, family, ty, protocol), replies).0 =~= seq![
            Request::Socket { family, ty: ty | target.ty.cloexec, protocol },
        ]);
    }
}

/// On Linux, a kernel that does not know how to take a connection with its
/// socket marked is asked for a plain one, as any other system is from the
/// first; whatever else it replies is the end.
pub proof fn law_accept_falls_back<'a>(target: Target, fd: c_int, replies: Seq<Reply>)
    requires
        target.os is Linux,
        replies.len() > 0,
        replies[0] is Accepted,
    ensures
        ({
            let marked: Request<'a> = Request::Accept4 {
                fd,
                room: target.layout.storage,
                flags: target.ty.cloexec,
            };
            let (requests, result) = run(target, Accept::first(target, fd), replies);
            match replies[0]->Accepted_0 {
                Ok((new, addr)) => {
                    &&& requests == seq![marked]
                    &&& result == Some(
                        Ok::<(Socket, SockAddr), Error>((Socket { fd: new }, addr)),
                    )
                },
                Err(e) => if e == target.errno.enosys {
                    let rest = run(target, Accept::plain(target, fd), replies.skip(1));
                    &&& requests == seq![marked] + rest.0
                    &&& result == rest.1
                } else {
                    &&& requests == seq![marked]
                    &&& result == Some(Err::<(Socket, SockAddr), Error>(Error::Os(e)))
                },
            }
        }),
{
    let state = Accept::Marked { fd };
    let step: Step<'a, Accept, (Socket, SockAddr)> = state.next(target, replies[0]);
    if !(step is Call) {
        assert(run(target, step, replies.skip(1)).0 =~= seq![]);
        assert(run(target, Accept::first(target, fd), replies).0 =~= seq![
            Request::Accept4 { fd, room: target.layout.storage, flags: target.ty.cloexec },
        ]);
    }
}

/// While a duplicate is being marked, nothing is noted.
proof fn lemma_marking_notes_nothing<'a>(
    target: Target,
    fd: c_int,
    request: Request<'a>,
    flags: SetFlags,
    replies: Seq<Reply>,
)
    requires
        request is Fcntl,
    ensures
        ({
            let step = Step::<'a, TryClone, Socket>::Call(
                request,
                TryClone::Marking { fd, flags },
            );
            forall|i: int|
                0 <= i < run(target, step, replies).0.len() ==> !(#[trigger] run(
                    target,
                    step,
                    replies,
                ).0[i] is NoteDupCloexecFailed)
        }),
    decreases replies.len(),
{
    if replies.len() > 0 {
        let step: Step<'a, SetFlags, ()> = flags.next(target, replies[0]);
        match step {
            Step::Call(request, flags) => lemma_marking_notes_nothing(
                target,
                fd,
                request,
                flags,
                replies.skip(1),
            ),
            Step::Done(_) => {
                reveal_with_fuel(run, 3);
            },
        }
        let whole = Step::<'a, TryClone, Socket>::Call(request, TryClone::Marking { fd, flags });
        let next: Step<'a, TryClone, Socket> = (TryClone::Marking { fd, flags }).next(
            target,
            replies[0],
        );
        let rest = run(target, next, replies.skip(1)).0;
        let requests = run(target, whole, replies).0;
        assert(requests == seq![request] + rest);
        assert forall|i: int| 0 <= i < requests.len() implies !(#[trigger] requests[i]
            is NoteDupCloexecFailed) by {
            if i > 0 {
                assert(requests[i] == rest[i - 1]);
            }
        }
    }
}

/// Asking for a plain duplicate notes nothing.
proof fn lemma_plain_notes_nothing<'a>(target: Target, fd: c_int, replies: Seq<Reply>)
    ensures
        ({
            let requests = run::<'a, TryClone>(target, TryClone::plain(target, fd), replies).0;
            forall|i: int|
                0 <= i < requests.len() ==> !(#[trigger] requests[i] is NoteDupCloexecFailed)
        }),
{
    if replies.len() > 0 {
        let next: Step<'a, TryClone, Socket> = TryClone::Plain.next(target, replies[0]);
        if let Ok(new) = replies[0]->Code_0 {
            let change = crate::flags::cloexec_change(target, new);
            lemma_marking_notes_nothing(
                target,
                new,
                change.request(),
                SetFlags::Reading(change),
                replies.skip(1),
            );
        }
        let rest = run(target, next, replies.skip(1)).0;
        let requests = run::<'a, TryClone>(target, TryClone::plain(target, fd), replies).0;
        assert forall|i: int| 0 <= i < requests.len() implies !(#[trigger] requests[i]
            is NoteDupCloexecFailed) by {
            if i > 0 {
                assert(requests[i] == rest[i - 1]);
            }
        }
    }
}

/// That a socket cannot be duplicated and marked in one call is noted exactly
/// when the system calls that invalid, right after it does; and once it is
/// noted, that is not asked for again.
pub proof fn law_try_clone_notes<'a>(
    target: Target,
    fd: c_int,
    cloexec_failed: bool,
    replies: Seq<Reply>,
)
    requires
        answered::<'a, TryClone>(target, TryClone::first(target, fd, cloexec_failed), replies),
    ensures
        ({
            let requests = run::<'a, TryClone>(
                target,
                TryClone::first(target, fd, cloexec_failed),
                replies,
            ).0;
            &&& requests.len() > 0
            &&& requests[0] == (Request::Fcntl {
                fd,
                cmd: if cloexec_failed { target.fcntl.dupfd } else { target.fcntl.dupfd_cloexec },
                arg: Some(0),
            })
            &&& forall|i: int|
                0 <= i < requests.len() ==> (#[trigger] requests[i] is NoteDupCloexecFailed <==> i
                    == 1 && !cloexec_failed && replies[0] == Reply::Code(
                    Err(target.errno.einval),
                ))
        }),
{
    let first: Step<'a, TryClone, Socket> = TryClone::first(target, fd, cloexec_failed);
    let requests = run(target, first, replies).0;
    if cloexec_failed {
        lemma_plain_notes_nothing(target, fd, replies);
    } else if replies.len() > 0 {
        let state = TryClone::Marked { fd };
        let next: Step<'a, TryClone, Socket> = state.next(target, replies[0]);
        let rest_replies = replies.skip(1);
        let rest = run(target, next, rest_replies).0;
        match replies[0]->Code_0 {
            Ok(new) => if target.os is Linux {
                let change = crate::flags::cloexec_change(target, new);
                lemma_marking_notes_nothing(
                    target,
                    new,
                    change.request(),
                    SetFlags::Reading(change),
                    rest_replies,
                );
            },
            Err(e) => if e == target.errno.einval && rest_replies.len() > 0 {
                lemma_plain_notes_nothing(target, fd, rest_replies.skip(1));
                let plain = run::<'a, TryClone>(
                    target,
                    TryClone::plain(target, fd),
                    rest_replies.skip(1),
                ).0;
                assert(rest == seq![Request::NoteDupCloexecFailed] + plain);
                assert forall|i: int| 1 <= i < rest.len() implies !(#[trigger] rest[i]
                    is NoteDupCloexecFailed) by {
                    assert(rest[i] == plain[i - 1]);
                }
            },
        }
        assert forall|i: int| 0 <= i < requests.len() implies (#[trigger] requests[i]
            is NoteDupCloexecFailed <==> i == 1 && !cloexec_failed && replies[0] == Reply::Code(
            Err(target.errno.einval),
        )) by {
            if i > 0 {
                assert(requests[i] == rest[i - 1]);
            }
        }
    }
}

/// An operation that ends has made one request for each reply; one that goes
/// on waits on one more.
pub proof fn law_one_reply_for_each_request<'a, S: Operation<'a>>(
    target: Target,
    step: Step<'a, S, S::Output>,
    replies: Seq<Reply>,
)
    requires
        answered(target, step, replies),
    ensures
        ({
            let (requests, result) = run(target, step, replies);
            requests.len() == replies.len() + if result is Some { 0int } else { 1 }
        }),
    decreases replies.len(),
{
    if let Step::Call(_, state) = step {
        if replies.len() > 0 {
            law_one_reply_for_each_request(
                target,
                state.next(target, replies[0]),
                replies.skip(1),
            );
        }
    }
}

/// Telling of a socket never fails, and takes two requests.
pub proof fn law_describe_succeeds<'a>(target: Target, fd: c_int, replies: Seq<Reply>)
    requires
        replies.len() == 2,
    ensures
        run(
            target,
            Step::<'a, Describe, Description>::Call(
                (Request::GetSockName { fd, room: target.layout.storage }),
                Describe::Local { fd },
            ),
            replies,
        ).1 == Some(
            Ok::<Description, Error>(
                Description {
                    fd,
                    local_addr: known(replies[0]),
                    peer_addr: known(replies[1]),
                },
            ),
        ),
{
    reveal_with_fuel(run, 3);
    assert(replies.skip(1)[0] == replies[1]);
}

} // verus!
