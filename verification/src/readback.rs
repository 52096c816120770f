//! Options read back as they were set.
//!
//! Each law is of what the two functions promise, whatever steps they return.

use libc::c_int;
use vstd::prelude::*;

use crate::addr::Ipv4Addr;
use crate::error::Error;
use crate::laws::{
    law_ipv4_round_trip, law_linger_round_trip, law_timeout_kept, law_timeout_round_trip,
    micros_kept,
};
use crate::options::{zero_timeout, Keepalive, SetKeepalive};
use crate::read::{
    ReadBool, ReadIpv4, ReadLinger, ReadNothing, ReadTimeout, ReadU32, ReadUsize,
};
use crate::socket::Socket;
use crate::syscall::{
    ends, get_opt, kind_of, run, OptKind, OptValue, Operation, Reply, Request, Step,
};
use crate::target::Target;
use crate::time::{max_time, timeout_of, timeval_of, Duration};

verus! {

/// The value that `read` finds when `write` was done before it: the one that
/// was written, if both are of the same option of the same socket.
pub open spec fn found(write: Request, read: Request) -> Option<OptValue> {
    match (write, read) {
        (
            Request::SetSockOpt { fd, level, name, value },
            Request::GetSockOpt { fd: f, level: l, name: n, kind },
        ) => if fd == f && level == l && name == n && kind_of(value) == Some(kind) {
            Some(value)
        } else {
            None
        },
        _ => None,
    }
}

/// `write` succeeds when its request does, and `read` then ends with `value`.
pub open spec fn reads_back<'a, S: Operation<'a>>(
    target: Target,
    write: Step<'a, ReadNothing, ()>,
    read: Step<'a, S, S::Output>,
    value: S::Output,
) -> bool {
    &&& write matches Step::Call(w, writing)
    &&& read matches Step::Call(r, reading)
    &&& forall|n: c_int|
        ends::<'a, ReadNothing>(#[trigger] writing.next(target, Reply::Code(Ok(n))), Ok(()))
    &&& found(w, r) matches Some(raw)
    &&& reading.accepts(Reply::Opt(Ok(raw)))
    &&& ends::<'a, S>(reading.next(target, Reply::Opt(Ok(raw))), Ok(value))
}

/// A duration without what lies beyond its whole seconds.
pub open spec fn whole_seconds(dur: Option<Duration>) -> Option<Duration> {
    match dur {
        Some(d) => Some(Duration { secs: d.secs, nanos: 0 }),
        None => None,
    }
}

/// Whether a socket is for IPv6 alone reads back.
pub proof fn law_only_v6_reads_back<'a>(
    socket: &Socket,
    target: &Target,
    on: bool,
    write: Step<'a, ReadNothing, ()>,
    read: Step<'a, ReadBool, bool>,
)
    requires
        call_ensures(Socket::set_only_v6, (socket, target, on), write),
        call_ensures(Socket::only_v6, (socket, target), read),
    ensures
        reads_back::<'a, ReadBool>(*target, write, read, on),
{
}

/// Whether segments are sent as soon as possible reads back.
pub proof fn law_nodelay_reads_back<'a>(
    socket: &Socket,
    target: &Target,
    on: bool,
    write: Step<'a, ReadNothing, ()>,
    read: Step<'a, ReadBool, bool>,
)
    requires
        call_ensures(Socket::set_nodelay, (socket, target, on), write),
        call_ensures(Socket::nodelay, (socket, target), read),
    ensures
        reads_back::<'a, ReadBool>(*target, write, read, on),
{
}

/// Whether a socket may broadcast reads back.
pub proof fn law_broadcast_reads_back<'a>(
    socket: &Socket,
    target: &Target,
    on: bool,
    write: Step<'a, ReadNothing, ()>,
    read: Step<'a, ReadBool, bool>,
)
    requires
        call_ensures(Socket::set_broadcast, (socket, target, on), write),
        call_ensures(Socket::broadcast, (socket, target), read),
    ensures
        reads_back::<'a, ReadBool>(*target, write, read, on),
{
}

/// Whether IPv4 multicast is looped back reads back.
pub proof fn law_multicast_loop_v4_reads_back<'a>(
    socket: &Socket,
    target: &Target,
    on: bool,
    write: Step<'a, ReadNothing, ()>,
    read: Step<'a, ReadBool, bool>,
)
    requires
        call_ensures(Socket::set_multicast_loop_v4, (socket, target, on), write),
        call_ensures(Socket::multicast_loop_v4, (socket, target), read),
    ensures
        reads_back::<'a, ReadBool>(*target, write, read, on),
{
}

/// Whether IPv6 multicast is looped back reads back.
pub proof fn law_multicast_loop_v6_reads_back<'a>(
    socket: &Socket,
    target: &Target,
    on: bool,
    write: Step<'a, ReadNothing, ()>,
    read: Step<'a, ReadBool, bool>,
)
    requires
        call_ensures(Socket::set_multicast_loop_v6, (socket, target, on), write),
        call_ensures(Socket::multicast_loop_v6, (socket, target), read),
    ensures
        reads_back::<'a, ReadBool>(*target, write, read, on),
{
}

/// Whether an address may be used again reads back.
pub proof fn law_reuse_address_reads_back<'a>(
    socket: &Socket,
    target: &Target,
    on: bool,
    write: Step<'a, ReadNothing, ()>,
    read: Step<'a, ReadBool, bool>,
)
    requires
        call_ensures(Socket::set_reuse_address, (socket, target, on), write),
        call_ensures(Socket::reuse_address, (socket, target), read),
    ensures
        reads_back::<'a, ReadBool>(*target, write, read, on),
{
}

/// Whether a port may be used again reads back.
pub proof fn law_reuse_port_reads_back<'a>(
    socket: &Socket,
    target: &Target,
    on: bool,
    write: Step<'a, ReadNothing, ()>,
    read: Step<'a, ReadBool, bool>,
)
    requires
        call_ensures(Socket::set_reuse_port, (socket, target, on), write),
        call_ensures(Socket::reuse_port, (socket, target), read),
    ensures
        reads_back::<'a, ReadBool>(*target, write, read, on),
{
}

/// Whether urgent data stays in line reads back.
pub proof fn law_out_of_band_inline_reads_back<'a>(
    socket: &Socket,
    target: &Target,
    on: bool,
    write: Step<'a, ReadNothing, ()>,
    read: Step<'a, ReadBool, bool>,
)
    requires
        call_ensures(Socket::set_out_of_band_inline, (socket, target, on), write),
        call_ensures(Socket::out_of_band_inline, (socket, target), read),
    ensures
        reads_back::<'a, ReadBool>(*target, write, read, on),
{
}

/// The hops that an IPv4 packet may take read back.
pub proof fn law_ttl_reads_back<'a>(
    socket: &Socket,
    target: &Target,
    n: u32,
    write: Step<'a, ReadNothing, ()>,
    read: Step<'a, ReadU32, u32>,
)
    requires
        call_ensures(Socket::set_ttl, (socket, target, n), write),
        call_ensures(Socket::ttl, (socket, target), read),
    ensures
        reads_back::<'a, ReadU32>(*target, write, read, n),
{
}

/// The hops that an IPv6 packet may take read back.
pub proof fn law_unicast_hops_v6_reads_back<'a>(
    socket: &Socket,
    target: &Target,
    n: u32,
    write: Step<'a, ReadNothing, ()>,
    read: Step<'a, ReadU32, u32>,
)
    requires
        call_ensures(Socket::set_unicast_hops_v6, (socket, target, n), write),
        call_ensures(Socket::unicast_hops_v6, (socket, target), read),
    ensures
        reads_back::<'a, ReadU32>(*target, write, read, n),
{
}

/// The hops of IPv4 multicast read back.
pub proof fn law_multicast_ttl_v4_reads_back<'a>(
    socket: &Socket,
    target: &Target,
    n: u32,
    write: Step<'a, ReadNothing, ()>,
    read: Step<'a, ReadU32, u32>,
)
    requires
        call_ensures(Socket::set_multicast_ttl_v4, (socket, target, n), write),
        call_ensures(Socket::multicast_ttl_v4, (socket, target), read),
    ensures
        reads_back::<'a, ReadU32>(*target, write, read, n),
{
}

/// The hops of IPv6 multicast read back.
pub proof fn law_multicast_hops_v6_reads_back<'a>(
    socket: &Socket,
    target: &Target,
    n: u32,
    write: Step<'a, ReadNothing, ()>,
    read: Step<'a, ReadU32, u32>,
)
    requires
        call_ensures(Socket::set_multicast_hops_v6, (socket, target, n), write),
        call_ensures(Socket::multicast_hops_v6, (socket, target), read),
    ensures
        reads_back::<'a, ReadU32>(*target, write, read, n),
{
}

/// The interface of IPv6 multicast reads back.
pub proof fn law_multicast_if_v6_reads_back<'a>(
    socket: &Socket,
    target: &Target,
    n: u32,
    write: Step<'a, ReadNothing, ()>,
    read: Step<'a, ReadU32, u32>,
)
    requires
        call_ensures(Socket::set_multicast_if_v6, (socket, target, n), write),
        call_ensures(Socket::multicast_if_v6, (socket, target), read),
    ensures
        reads_back::<'a, ReadU32>(*target, write, read, n),
{
}

/// The size of the receive buffer reads back, provided that it fits into a
/// `c_int`.
pub proof fn law_recv_buffer_size_reads_back<'a>(
    socket: &Socket,
    target: &Target,
    size: usize,
    write: Step<'a, ReadNothing, ()>,
    read: Step<'a, ReadUsize, usize>,
)
    requires
        size <= c_int::MAX,
        call_ensures(Socket::set_recv_buffer_size, (socket, target, size), write),
        call_ensures(Socket::recv_buffer_size, (socket, target), read),
    ensures
        reads_back::<'a, ReadUsize>(*target, write, read, size),
{
}

/// The size of the send buffer reads back, provided that it fits into a
/// `c_int`.
pub proof fn law_send_buffer_size_reads_back<'a>(
    socket: &Socket,
    target: &Target,
    size: usize,
    write: Step<'a, ReadNothing, ()>,
    read: Step<'a, ReadUsize, usize>,
)
    requires
        size <= c_int::MAX,
        call_ensures(Socket::set_send_buffer_size, (socket, target, size), write),
        call_ensures(Socket::send_buffer_size, (socket, target), read),
    ensures
        reads_back::<'a, ReadUsize>(*target, write, read, size),
{
}

/// The timeout of receiving reads back, in the microseconds that are kept; exactly,
/// where it is in whole microseconds and in no more seconds than fit.
pub proof fn law_read_timeout_reads_back<'a>(
    socket: &Socket,
    target: &Target,
    dur: Option<Duration>,
    write: Step<'a, ReadNothing, ()>,
    read: Step<'a, ReadTimeout, Option<Duration>>,
)
    requires
        dur matches Some(d) ==> d.wf(),
        !zero_timeout(dur),
        call_ensures(Socket::set_read_timeout, (socket, target, dur), write),
        call_ensures(Socket::read_timeout, (socket, target), read),
    ensures
        match dur {
            None => reads_back::<'a, ReadTimeout>(*target, write, read, None),
            Some(d) => {
                &&& exists|back: Duration|
                    {
                        &&& #[trigger] reads_back::<'a, ReadTimeout>(
                            *target,
                            write,
                            read,
                            Some(back),
                        )
                        &&& back.wf()
                        &&& back@ == 1000 * micros_kept(target.time, d)
                    }
                &&& d.nanos % 1000 == 0 && d.secs <= max_time(target.time) ==> reads_back::<
                    'a,
                    ReadTimeout,
                >(*target, write, read, dur)
            },
        },
{
    if let Some(d) = dur {
        law_timeout_round_trip(target.time, d);
        let back = timeout_of(timeval_of(target.time, dur)).unwrap();
        assert(reads_back::<'a, ReadTimeout>(*target, write, read, Some(back)));
        if d.nanos % 1000 == 0 && d.secs <= max_time(target.time) {
            law_timeout_kept(target.time, d);
        }
    }
}

/// The timeout of sending reads back, in the microseconds that are kept; exactly,
/// where it is in whole microseconds and in no more seconds than fit.
pub proof fn law_write_timeout_reads_back<'a>(
    socket: &Socket,
    target: &Target,
    dur: Option<Duration>,
    write: Step<'a, ReadNothing, ()>,
    read: Step<'a, ReadTimeout, Option<Duration>>,
)
    requires
        dur matches Some(d) ==> d.wf(),
        !zero_timeout(dur),
        call_ensures(Socket::set_write_timeout, (socket, target, dur), write),
        call_ensures(Socket::write_timeout, (socket, target), read),
    ensures
        match dur {
            None => reads_back::<'a, ReadTimeout>(*target, write, read, None),
            Some(d) => {
                &&& exists|back: Duration|
                    {
                        &&& #[trigger] reads_back::<'a, ReadTimeout>(
                            *target,
                            write,
                            read,
                            Some(back),
                        )
                        &&& back.wf()
                        &&& back@ == 1000 * micros_kept(target.time, d)
                    }
                &&& d.nanos % 1000 == 0 && d.secs <= max_time(target.time) ==> reads_back::<
                    'a,
                    ReadTimeout,
                >(*target, write, read, dur)
            },
        },
{
    if let Some(d) = dur {
        law_timeout_round_trip(target.time, d);
        let back = timeout_of(timeval_of(target.time, dur)).unwrap();
        assert(reads_back::<'a, ReadTimeout>(*target, write, read, Some(back)));
        if d.nanos % 1000 == 0 && d.secs <= max_time(target.time) {
            law_timeout_kept(target.time, d);
        }
    }
}

/// The time to linger reads back in whole seconds, provided that they fit into
/// a `c_int`.
pub proof fn law_linger_reads_back<'a>(
    socket: &Socket,
    target: &Target,
    dur: Option<Duration>,
    write: Step<'a, ReadNothing, ()>,
    read: Step<'a, ReadLinger, Option<Duration>>,
)
    requires
        dur matches Some(d) ==> d.secs <= c_int::MAX,
        call_ensures(Socket::set_linger, (socket, target, dur), write),
        call_ensures(Socket::linger, (socket, target), read),
    ensures
        reads_back::<'a, ReadLinger>(*target, write, read, whole_seconds(dur)),
{
    law_linger_round_trip(dur);
}

/// The interface of IPv4 multicast reads back.
pub proof fn law_multicast_if_v4_reads_back<'a>(
    socket: &Socket,
    target: &Target,
    interface: &Ipv4Addr,
    write: Step<'a, ReadNothing, ()>,
    read: Step<'a, ReadIpv4, Ipv4Addr>,
)
    requires
        call_ensures(Socket::set_multicast_if_v4, (socket, target, interface), write),
        call_ensures(Socket::multicast_if_v4, (socket, target), read),
    ensures
        reads_back::<'a, ReadIpv4>(*target, write, read, *interface),
{
    law_ipv4_round_trip(target.endian, *interface);
}

/// The keepalive time reads back in whole seconds from what setting it wrote,
/// provided that they fit into a `c_int`; and that there is none reads back.
pub proof fn law_keepalive_reads_back<'a>(
    socket: &Socket,
    target: &Target,
    keepalive: Option<Duration>,
    write: Step<'a, SetKeepalive, ()>,
    read: Step<'a, Keepalive, Option<Duration>>,
)
    requires
        keepalive matches Some(d) ==> d.secs <= c_int::MAX,
        call_ensures(Socket::set_keepalive, (socket, target, keepalive), write),
        call_ensures(Socket::keepalive, (socket, target), read),
    ensures
        ({
            let done = Reply::Code(Ok(0));
            let fd = socket.fd;
            let writing = run(*target, write, seq![done, done]);
            let enabled = get_opt(fd, target.socket.level, target.socket.keepalive, OptKind::Int);
            let idle = get_opt(fd, target.protocol.tcp, target.tcp.keepidle, OptKind::Int);
            &&& writing.1 == Some(Ok::<(), Error>(()))
            &&& writing.0.len() == if keepalive is Some { 2int } else { 1 }
            &&& found(writing.0[0], enabled) matches Some(on) && {
                let second = if keepalive is Some {
                    found(writing.0[1], idle)
                } else {
                    Some(on)
                };
                second matches Some(secs) && {
                    let reading = run(
                        *target,
                        read,
                        seq![Reply::Opt(Ok(on)), Reply::Opt(Ok(secs))],
                    );
                    &&& reading.0[0] == enabled
                    &&& keepalive is Some ==> reading.0.len() == 2 && reading.0[1] == idle
                    &&& keepalive is None ==> reading.0.len() == 1
                    &&& reading.1 == Some(
                        Ok::<Option<Duration>, Error>(whole_seconds(keepalive)),
                    )
                }
            }
        }),
{
    reveal_with_fuel(run, 4);
}

} // verus!
