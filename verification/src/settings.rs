//! Options: what each is asked for as and written as, and what is told of it.

use libc::c_int;
use vstd::prelude::*;

use crate::addr::{addr_of, s_addr, Ipv4Addr, Ipv6Addr};
use crate::cast::int_of;
use crate::error::Error;
use crate::laws::law_ipv4_round_trip;
use crate::options::{Keepalive, SetKeepalive};
use crate::read::{
    ReadBool, ReadIpv4, ReadLinger, ReadNothing, ReadTimeout, ReadU32, ReadUsize,
};
use crate::socket::Socket;
use crate::syscall::{OptKind, OptValue, Reply, Request, Step};
use crate::talk::{after, goes, told};
use crate::target::{Endian, Target, TimeWidth};
use crate::time::{linger_of, timeval_of, Duration, Linger, Timeval};

verus! {

/// The reply to the question for an integer.
pub open spec fn int_reply(raw: Result<c_int, c_int>) -> Reply {
    Reply::Opt(
        match raw {
            Ok(n) => Ok(OptValue::Int(n)),
            Err(e) => Err(e),
        },
    )
}

/// An integer told as a switch: on, unless it is zero.
pub open spec fn as_switch(raw: Result<c_int, c_int>) -> Result<bool, Error> {
    match raw {
        Ok(n) => Ok(n != 0),
        Err(e) => Err(Error::Os(e)),
    }
}

/// An integer told as an unsigned one of 32 bits.
pub open spec fn as_unsigned(raw: Result<c_int, c_int>) -> Result<u32, Error> {
    match raw {
        Ok(n) => Ok(
            (if n >= 0 {
                n as int
            } else {
                n + 0x1_0000_0000
            }) as u32,
        ),
        Err(e) => Err(Error::Os(e)),
    }
}

/// An integer told as a size; a negative one, with its sign extended.
pub open spec fn as_size(raw: Result<c_int, c_int>) -> Result<usize, Error> {
    match raw {
        Ok(n) => Ok(
            (if n >= 0 {
                n as int
            } else {
                n + usize::MAX + 1
            }) as usize,
        ),
        Err(e) => Err(Error::Os(e)),
    }
}

/// `raw` has the low 32 bits of `n`: it is `n`, where a `c_int` holds that.
pub open spec fn low_bits(n: int, raw: c_int) -> bool {
    &&& (n - raw) % 0x1_0000_0000 == 0
    &&& 0 <= n <= c_int::MAX ==> raw == n
}

/// The bytes of `n` in memory are the octets of `addr`, in turn.
pub open spec fn in_memory(endian: Endian, n: u32, addr: Ipv4Addr) -> bool {
    match endian {
        Endian::Little => {
            &&& n % 0x100 == addr.a
            &&& n / 0x100 % 0x100 == addr.b
            &&& n / 0x1_0000 % 0x100 == addr.c
            &&& n / 0x100_0000 == addr.d
        },
        Endian::Big => {
            &&& n / 0x100_0000 == addr.a
            &&& n / 0x1_0000 % 0x100 == addr.b
            &&& n / 0x100 % 0x100 == addr.c
            &&& n % 0x100 == addr.d
        },
    }
}

/// There are low bits.
proof fn lemma_low_bits(n: int)
    ensures
        low_bits(n, int_of(n)),
{
}

/// Asks whether a socket is for IPv6 alone.
pub proof fn law_get_only_v6<'a>(
    socket: &Socket,
    target: &Target,
    step: Step<'a, ReadBool, bool>,
    raw: Result<c_int, c_int>,
)
    requires
        call_ensures(Socket::only_v6, (socket, target), step),
    ensures
        goes(
            *target,
            step,
            seq![
                (
                    Request::GetSockOpt {
                        fd: socket.fd,
                        level: target.protocol.ipv6,
                        name: target.ipv6.v6only,
                        kind: OptKind::Int,
                    },
                    int_reply(raw),
                ),
            ],
            as_switch(raw),
        ),
{
    reveal_with_fuel(after, 2);
}

/// Writes whether a socket is for IPv6 alone.
pub proof fn law_set_only_v6<'a>(
    socket: &Socket,
    target: &Target,
    on: bool,
    step: Step<'a, ReadNothing, ()>,
    reply: Result<c_int, c_int>,
)
    requires
        call_ensures(Socket::set_only_v6, (socket, target, on), step),
    ensures
        goes(
            *target,
            step,
            seq![
                (
                    Request::SetSockOpt {
                        fd: socket.fd,
                        level: target.protocol.ipv6,
                        name: target.ipv6.v6only,
                        value: OptValue::Int(if on { 1 } else { 0 }),
                    },
                    Reply::Code(reply),
                ),
            ],
            told(reply),
        ),
{
    reveal_with_fuel(after, 2);
}

/// Asks whether segments are sent as soon as possible.
pub proof fn law_get_nodelay<'a>(
    socket: &Socket,
    target: &Target,
    step: Step<'a, ReadBool, bool>,
    raw: Result<c_int, c_int>,
)
    requires
        call_ensures(Socket::nodelay, (socket, target), step),
    ensures
        goes(
            *target,
            step,
            seq![
                (
                    Request::GetSockOpt {
                        fd: socket.fd,
                        level: target.protocol.tcp,
                        name: target.tcp.nodelay,
                        kind: OptKind::Int,
                    },
                    int_reply(raw),
                ),
            ],
            as_switch(raw),
        ),
{
    reveal_with_fuel(after, 2);
}

/// Writes whether segments are sent as soon as possible.
pub proof fn law_set_nodelay<'a>(
    socket: &Socket,
    target: &Target,
    on: bool,
    step: Step<'a, ReadNothing, ()>,
    reply: Result<c_int, c_int>,
)
    requires
        call_ensures(Socket::set_nodelay, (socket, target, on), step),
    ensures
        goes(
            *target,
            step,
            seq![
                (
                    Request::SetSockOpt {
                        fd: socket.fd,
                        level: target.protocol.tcp,
                        name: target.tcp.nodelay,
                        value: OptValue::Int(if on { 1 } else { 0 }),
                    },
                    Reply::Code(reply),
                ),
            ],
            told(reply),
        ),
{
    reveal_with_fuel(after, 2);
}

/// Asks whether packets may be broadcast.
pub proof fn law_get_broadcast<'a>(
    socket: &Socket,
    target: &Target,
    step: Step<'a, ReadBool, bool>,
    raw: Result<c_int, c_int>,
)
    requires
        call_ensures(Socket::broadcast, (socket, target), step),
    ensures
        goes(
            *target,
            step,
            seq![
                (
                    Request::GetSockOpt {
                        fd: socket.fd,
                        level: target.socket.level,
                        name: target.socket.broadcast,
                        kind: OptKind::Int,
                    },
                    int_reply(raw),
                ),
            ],
            as_switch(raw),
        ),
{
    reveal_with_fuel(after, 2);
}

/// Writes whether packets may be broadcast.
pub proof fn law_set_broadcast<'a>(
    socket: &Socket,
    target: &Target,
    on: bool,
    step: Step<'a, ReadNothing, ()>,
    reply: Result<c_int, c_int>,
)
    requires
        call_ensures(Socket::set_broadcast, (socket, target, on), step),
    ensures
        goes(
            *target,
            step,
            seq![
                (
                    Request::SetSockOpt {
                        fd: socket.fd,
                        level: target.socket.level,
                        name: target.socket.broadcast,
                        value: OptValue::Int(if on { 1 } else { 0 }),
                    },
                    Reply::Code(reply),
                ),
            ],
            told(reply),
        ),
{
    reveal_with_fuel(after, 2);
}

/// Asks whether IPv4 multicast comes back to this host.
pub proof fn law_get_multicast_loop_v4<'a>(
    socket: &Socket,
    target: &Target,
    step: Step<'a, ReadBool, bool>,
    raw: Result<c_int, c_int>,
)
    requires
        call_ensures(Socket::multicast_loop_v4, (socket, target), step),
    ensures
        goes(
            *target,
            step,
            seq![
                (
                    Request::GetSockOpt {
                        fd: socket.fd,
                        level: target.protocol.ip,
                        name: target.ip.multicast_loop,
                        kind: OptKind::Int,
                    },
                    int_reply(raw),
                ),
            ],
            as_switch(raw),
        ),
{
    reveal_with_fuel(after, 2);
}

/// Writes whether IPv4 multicast comes back to this host.
pub proof fn law_set_multicast_loop_v4<'a>(
    socket: &Socket,
    target: &Target,
    on: bool,
    step: Step<'a, ReadNothing, ()>,
    reply: Result<c_int, c_int>,
)
    requires
        call_ensures(Socket::set_multicast_loop_v4, (socket, target, on), step),
    ensures
        goes(
            *target,
            step,
            seq![
                (
                    Request::SetSockOpt {
                        fd: socket.fd,
                        level: target.protocol.ip,
                        name: target.ip.multicast_loop,
                        value: OptValue::Int(if on { 1 } else { 0 }),
                    },
                    Reply::Code(reply),
                ),
            ],
            told(reply),
        ),
{
    reveal_with_fuel(after, 2);
}

/// Asks whether IPv6 multicast comes back to this host.
pub proof fn law_get_multicast_loop_v6<'a>(
    socket: &Socket,
    target: &Target,
    step: Step<'a, ReadBool, bool>,
    raw: Result<c_int, c_int>,
)
    requires
        call_ensures(Socket::multicast_loop_v6, (socket, target), step),
    ensures
        goes(
            *target,
            step,
            seq![
                (
                    Request::GetSockOpt {
                        fd: socket.fd,
                        level: target.protocol.ipv6,
                        name: target.ipv6.multicast_loop,
                        kind: OptKind::Int,
                    },
                    int_reply(raw),
                ),
            ],
            as_switch(raw),
        ),
{
    reveal_with_fuel(after, 2);
}

/// Writes whether IPv6 multicast comes back to this host.
pub proof fn law_set_multicast_loop_v6<'a>(
    socket: &Socket,
    target: &Target,
    on: bool,
    step: Step<'a, ReadNothing, ()>,
    reply: Result<c_int, c_int>,
)
    requires
        call_ensures(Socket::set_multicast_loop_v6, (socket, target, on), step),
    ensures
        goes(
            *target,
            step,
            seq![
                (
                    Request::SetSockOpt {
                        fd: socket.fd,
                        level: target.protocol.ipv6,
                        name: target.ipv6.multicast_loop,
                        value: OptValue::Int(if on { 1 } else { 0 }),
                    },
                    Reply::Code(reply),
                ),
            ],
            told(reply),
        ),
{
    reveal_with_fuel(after, 2);
}

/// Asks whether an address may be used again.
pub proof fn law_get_reuse_address<'a>(
    socket: &Socket,
    target: &Target,
    step: Step<'a, ReadBool, bool>,
    raw: Result<c_int, c_int>,
)
    requires
        call_ensures(Socket::reuse_address, (socket, target), step),
    ensures
        goes(
            *target,
            step,
            seq![
                (
                    Request::GetSockOpt {
                        fd: socket.fd,
                        level: target.socket.level,
                        name: target.socket.reuseaddr,
                        kind: OptKind::Int,
                    },
                    int_reply(raw),
                ),
            ],
            as_switch(raw),
        ),
{
    reveal_with_fuel(after, 2);
}

/// Writes whether an address may be used again.
pub proof fn law_set_reuse_address<'a>(
    socket: &Socket,
    target: &Target,
    on: bool,
    step: Step<'a, ReadNothing, ()>,
    reply: Result<c_int, c_int>,
)
    requires
        call_ensures(Socket::set_reuse_address, (socket, target, on), step),
    ensures
        goes(
            *target,
            step,
            seq![
                (
                    Request::SetSockOpt {
                        fd: socket.fd,
                        level: target.socket.level,
                        name: target.socket.reuseaddr,
                        value: OptValue::Int(if on { 1 } else { 0 }),
                    },
                    Reply::Code(reply),
                ),
            ],
            told(reply),
        ),
{
    reveal_with_fuel(after, 2);
}

/// Asks whether a port may be used again.
pub proof fn law_get_reuse_port<'a>(
    socket: &Socket,
    target: &Target,
    step: Step<'a, ReadBool, bool>,
    raw: Result<c_int, c_int>,
)
    requires
        call_ensures(Socket::reuse_port, (socket, target), step),
    ensures
        goes(
            *target,
            step,
            seq![
                (
                    Request::GetSockOpt {
                        fd: socket.fd,
                        level: target.socket.level,
                        name: target.socket.reuseport,
                        kind: OptKind::Int,
                    },
                    int_reply(raw),
                ),
            ],
            as_switch(raw),
        ),
{
    reveal_with_fuel(after, 2);
}

/// Writes whether a port may be used again.
pub proof fn law_set_reuse_port<'a>(
    socket: &Socket,
    target: &Target,
    on: bool,
    step: Step<'a, ReadNothing, ()>,
    reply: Result<c_int, c_int>,
)
    requires
        call_ensures(Socket::set_reuse_port, (socket, target, on), step),
    ensures
        goes(
            *target,
            step,
            seq![
                (
                    Request::SetSockOpt {
                        fd: socket.fd,
                        level: target.socket.level,
                        name: target.socket.reuseport,
                        value: OptValue::Int(if on { 1 } else { 0 }),
                    },
                    Reply::Code(reply),
                ),
            ],
            told(reply),
        ),
{
    reveal_with_fuel(after, 2);
}

/// Asks whether urgent data stays in line.
pub proof fn law_get_out_of_band_inline<'a>(
    socket: &Socket,
    target: &Target,
    step: Step<'a, ReadBool, bool>,
    raw: Result<c_int, c_int>,
)
    requires
        call_ensures(Socket::out_of_band_inline, (socket, target), step),
    ensures
        goes(
            *target,
            step,
            seq![
                (
                    Request::GetSockOpt {
                        fd: socket.fd,
                        level: target.socket.level,
                        name: target.socket.oobinline,
                        kind: OptKind::Int,
                    },
                    int_reply(raw),
                ),
            ],
            as_switch(raw),
        ),
{
    reveal_with_fuel(after, 2);
}

/// Writes whether urgent data stays in line.
pub proof fn law_set_out_of_band_inline<'a>(
    socket: &Socket,
    target: &Target,
    on: bool,
    step: Step<'a, ReadNothing, ()>,
    reply: Result<c_int, c_int>,
)
    requires
        call_ensures(Socket::set_out_of_band_inline, (socket, target, on), step),
    ensures
        goes(
            *target,
            step,
            seq![
                (
                    Request::SetSockOpt {
                        fd: socket.fd,
                        level: target.socket.level,
                        name: target.socket.oobinline,
                        value: OptValue::Int(if on { 1 } else { 0 }),
                    },
                    Reply::Code(reply),
                ),
            ],
            told(reply),
        ),
{
    reveal_with_fuel(after, 2);
}

/// Asks for the hops that an IPv4 packet may take.
pub proof fn law_get_ttl<'a>(
    socket: &Socket,
    target: &Target,
    step: Step<'a, ReadU32, u32>,
    raw: Result<c_int, c_int>,
)
    requires
        call_ensures(Socket::ttl, (socket, target), step),
    ensures
        goes(
            *target,
            step,
            seq![
                (
                    Request::GetSockOpt {
                        fd: socket.fd,
                        level: target.protocol.ip,
                        name: target.ip.ttl,
                        kind: OptKind::Int,
                    },
                    int_reply(raw),
                ),
            ],
            as_unsigned(raw),
        ),
{
    reveal_with_fuel(after, 2);
}

/// Writes the hops that an IPv4 packet may take.
pub proof fn law_set_ttl<'a>(
    socket: &Socket,
    target: &Target,
    n: u32,
    step: Step<'a, ReadNothing, ()>,
    reply: Result<c_int, c_int>,
)
    requires
        call_ensures(Socket::set_ttl, (socket, target, n), step),
    ensures
        exists|raw: c_int| #[trigger]
            low_bits(n as int, raw) && goes(
                *target,
                step,
                seq![
                    (
                        Request::SetSockOpt {
                            fd: socket.fd,
                            level: target.protocol.ip,
                            name: target.ip.ttl,
                            value: OptValue::Int(raw),
                        },
                        Reply::Code(reply),
                    ),
                ],
                told(reply),
            ),
{
    reveal_with_fuel(after, 2);
    lemma_low_bits(n as int);
    assert(low_bits(n as int, int_of(n as int)));
}

/// Asks for the hops that an IPv6 packet may take.
pub proof fn law_get_unicast_hops_v6<'a>(
    socket: &Socket,
    target: &Target,
    step: Step<'a, ReadU32, u32>,
    raw: Result<c_int, c_int>,
)
    requires
        call_ensures(Socket::unicast_hops_v6, (socket, target), step),
    ensures
        goes(
            *target,
            step,
            seq![
                (
                    Request::GetSockOpt {
                        fd: socket.fd,
                        level: target.protocol.ipv6,
                        name: target.ipv6.unicast_hops,
                        kind: OptKind::Int,
                    },
                    int_reply(raw),
                ),
            ],
            as_unsigned(raw),
        ),
{
    reveal_with_fuel(after, 2);
}

/// Writes the hops that an IPv6 packet may take.
pub proof fn law_set_unicast_hops_v6<'a>(
    socket: &Socket,
    target: &Target,
    n: u32,
    step: Step<'a, ReadNothing, ()>,
    reply: Result<c_int, c_int>,
)
    requires
        call_ensures(Socket::set_unicast_hops_v6, (socket, target, n), step),
    ensures
        exists|raw: c_int| #[trigger]
            low_bits(n as int, raw) && goes(
                *target,
                step,
                seq![
                    (
                        Request::SetSockOpt {
                            fd: socket.fd,
                            level: target.protocol.ipv6,
                            name: target.ipv6.unicast_hops,
                            value: OptValue::Int(raw),
                        },
                        Reply::Code(reply),
                    ),
                ],
                told(reply),
            ),
{
    reveal_with_fuel(after, 2);
    lemma_low_bits(n as int);
    assert(low_bits(n as int, int_of(n as int)));
}

/// Asks for the hops of IPv4 multicast.
pub proof fn law_get_multicast_ttl_v4<'a>(
    socket: &Socket,
    target: &Target,
    step: Step<'a, ReadU32, u32>,
    raw: Result<c_int, c_int>,
)
    requires
        call_ensures(Socket::multicast_ttl_v4, (socket, target), step),
    ensures
        goes(
            *target,
            step,
            seq![
                (
                    Request::GetSockOpt {
                        fd: socket.fd,
                        level: target.protocol.ip,
                        name: target.ip.multicast_ttl,
                        kind: OptKind::Int,
                    },
                    int_reply(raw),
                ),
            ],
            as_unsigned(raw),
        ),
{
    reveal_with_fuel(after, 2);
}

/// Writes the hops of IPv4 multicast.
pub proof fn law_set_multicast_ttl_v4<'a>(
    socket: &Socket,
    target: &Target,
    n: u32,
    step: Step<'a, ReadNothing, ()>,
    reply: Result<c_int, c_int>,
)
    requires
        call_ensures(Socket::set_multicast_ttl_v4, (socket, target, n), step),
    ensures
        exists|raw: c_int| #[trigger]
            low_bits(n as int, raw) && goes(
                *target,
                step,
                seq![
                    (
                        Request::SetSockOpt {
                            fd: socket.fd,
                            level: target.protocol.ip,
                            name: target.ip.multicast_ttl,
                            value: OptValue::Int(raw),
                        },
                        Reply::Code(reply),
                    ),
                ],
                told(reply),
            ),
{
    reveal_with_fuel(after, 2);
    lemma_low_bits(n as int);
    assert(low_bits(n as int, int_of(n as int)));
}

/// Asks for the hops of IPv6 multicast.
pub proof fn law_get_multicast_hops_v6<'a>(
    socket: &Socket,
    target: &Target,
    step: Step<'a, ReadU32, u32>,
    raw: Result<c_int, c_int>,
)
    requires
        call_ensures(Socket::multicast_hops_v6, (socket, target), step),
    ensures
        goes(
            *target,
            step,
            seq![
                (
                    Request::GetSockOpt {
                        fd: socket.fd,
                        level: target.protocol.ipv6,
                        name: target.ipv6.multicast_hops,
                        kind: OptKind::Int,
                    },
                    int_reply(raw),
                ),
            ],
            as_unsigned(raw),
        ),
{
    reveal_with_fuel(after, 2);
}

/// Writes the hops of IPv6 multicast.
pub proof fn law_set_multicast_hops_v6<'a>(
    socket: &Socket,
    target: &Target,
    n: u32,
    step: Step<'a, ReadNothing, ()>,
    reply: Result<c_int, c_int>,
)
    requires
        call_ensures(Socket::set_multicast_hops_v6, (socket, target, n), step),
    ensures
        exists|raw: c_int| #[trigger]
            low_bits(n as int, raw) && goes(
                *target,
                step,
                seq![
                    (
                        Request::SetSockOpt {
                            fd: socket.fd,
                            level: target.protocol.ipv6,
                            name: target.ipv6.multicast_hops,
                            value: OptValue::Int(raw),
                        },
                        Reply::Code(reply),
                    ),
                ],
                told(reply),
            ),
{
    reveal_with_fuel(after, 2);
    lemma_low_bits(n as int);
    assert(low_bits(n as int, int_of(n as int)));
}

/// Asks for the interface of IPv6 multicast.
pub proof fn law_get_multicast_if_v6<'a>(
    socket: &Socket,
    target: &Target,
    step: Step<'a, ReadU32, u32>,
    raw: Result<c_int, c_int>,
)
    requires
        call_ensures(Socket::multicast_if_v6, (socket, target), step),
    ensures
        goes(
            *target,
            step,
            seq![
                (
                    Request::GetSockOpt {
                        fd: socket.fd,
                        level: target.protocol.ipv6,
                        name: target.ipv6.multicast_if,
                        kind: OptKind::Int,
                    },
                    int_reply(raw),
                ),
            ],
            as_unsigned(raw),
        ),
{
    reveal_with_fuel(after, 2);
}

/// Writes the interface of IPv6 multicast.
pub proof fn law_set_multicast_if_v6<'a>(
    socket: &Socket,
    target: &Target,
    n: u32,
    step: Step<'a, ReadNothing, ()>,
    reply: Result<c_int, c_int>,
)
    requires
        call_ensures(Socket::set_multicast_if_v6, (socket, target, n), step),
    ensures
        exists|raw: c_int| #[trigger]
            low_bits(n as int, raw) && goes(
                *target,
                step,
                seq![
                    (
                        Request::SetSockOpt {
                            fd: socket.fd,
                            level: target.protocol.ipv6,
                            name: target.ipv6.multicast_if,
                            value: OptValue::Int(raw),
                        },
                        Reply::Code(reply),
                    ),
                ],
                told(reply),
            ),
{
    reveal_with_fuel(after, 2);
    lemma_low_bits(n as int);
    assert(low_bits(n as int, int_of(n as int)));
}

/// Asks for the size of the receive buffer.
pub proof fn law_get_recv_buffer_size<'a>(
    socket: &Socket,
    target: &Target,
    step: Step<'a, ReadUsize, usize>,
    raw: Result<c_int, c_int>,
)
    requires
        call_ensures(Socket::recv_buffer_size, (socket, target), step),
    ensures
        goes(
            *target,
            step,
            seq![
                (
                    Request::GetSockOpt {
                        fd: socket.fd,
                        level: target.socket.level,
                        name: target.socket.rcvbuf,
                        kind: OptKind::Int,
                    },
                    int_reply(raw),
                ),
            ],
            as_size(raw),
        ),
{
    reveal_with_fuel(after, 2);
}

/// Writes the size of the receive buffer.
pub proof fn law_set_recv_buffer_size<'a>(
    socket: &Socket,
    target: &Target,
    n: usize,
    step: Step<'a, ReadNothing, ()>,
    reply: Result<c_int, c_int>,
)
    requires
        call_ensures(Socket::set_recv_buffer_size, (socket, target, n), step),
    ensures
        exists|raw: c_int| #[trigger]
            low_bits(n as int, raw) && goes(
                *target,
                step,
                seq![
                    (
                        Request::SetSockOpt {
                            fd: socket.fd,
                            level: target.socket.level,
                            name: target.socket.rcvbuf,
                            value: OptValue::Int(raw),
                        },
                        Reply::Code(reply),
                    ),
                ],
                told(reply),
            ),
{
    reveal_with_fuel(after, 2);
    lemma_low_bits(n as int);
    assert(low_bits(n as int, int_of(n as int)));
}

/// Asks for the size of the send buffer.
pub proof fn law_get_send_buffer_size<'a>(
    socket: &Socket,
    target: &Target,
    step: Step<'a, ReadUsize, usize>,
    raw: Result<c_int, c_int>,
)
    requires
        call_ensures(Socket::send_buffer_size, (socket, target), step),
    ensures
        goes(
            *target,
            step,
            seq![
                (
                    Request::GetSockOpt {
                        fd: socket.fd,
                        level: target.socket.level,
                        name: target.socket.sndbuf,
                        kind: OptKind::Int,
                    },
                    int_reply(raw),
                ),
            ],
            as_size(raw),
        ),
{
    reveal_with_fuel(after, 2);
}

/// Writes the size of the send buffer.
pub proof fn law_set_send_buffer_size<'a>(
    socket: &Socket,
    target: &Target,
    n: usize,
    step: Step<'a, ReadNothing, ()>,
    reply: Result<c_int, c_int>,
)
    requires
        call_ensures(Socket::set_send_buffer_size, (socket, target, n), step),
    ensures
        exists|raw: c_int| #[trigger]
            low_bits(n as int, raw) && goes(
                *target,
                step,
                seq![
                    (
                        Request::SetSockOpt {
                            fd: socket.fd,
                            level: target.socket.level,
                            name: target.socket.sndbuf,
                            value: OptValue::Int(raw),
                        },
                        Reply::Code(reply),
                    ),
                ],
                told(reply),
            ),
{
    reveal_with_fuel(after, 2);
    lemma_low_bits(n as int);
    assert(low_bits(n as int, int_of(n as int)));
}

/// The most seconds that a `time_t` of this width holds.
pub open spec fn most_secs(width: TimeWidth) -> int {
    match width {
        TimeWidth::Bits32 => 0x7fff_ffff,
        TimeWidth::Bits64 => 0x7fff_ffff_ffff_ffff,
    }
}

/// `raw` is the timeout `dur` in seconds and microseconds: with as many seconds
/// as fit, and never zero.
pub open spec fn timeout_as(width: TimeWidth, dur: Duration, raw: Timeval) -> bool {
    &&& dur.secs <= most_secs(width) ==> raw.tv_sec == dur.secs
    &&& dur.secs > most_secs(width) ==> raw.tv_sec == most_secs(width)
    &&& dur.secs == 0 && dur.nanos < 1000 ==> raw.tv_usec == 1
    &&& dur.secs != 0 || dur.nanos >= 1000 ==> raw.tv_usec == dur.nanos / 1000
}

/// Writes the timeout of receiving: one of zero is refused without a request, none
/// is written as zero.
pub proof fn law_set_read_timeout<'a>(
    socket: &Socket,
    target: &Target,
    dur: Option<Duration>,
    step: Step<'a, ReadNothing, ()>,
    reply: Result<c_int, c_int>,
)
    requires
        call_ensures(Socket::set_read_timeout, (socket, target, dur), step),
    ensures
        if dur matches Some(d) && d.secs == 0 && d.nanos == 0 {
            goes(*target, step, seq![], Err(Error::ZeroTimeout))
        } else {
            exists|raw: Timeval|
                {
                    &&& match dur {
                        None => raw.tv_sec == 0 && raw.tv_usec == 0,
                        Some(d) => timeout_as(target.time, d, raw),
                    }
                    &&& #[trigger] goes(
                        *target,
                        step,
                        seq![
                            (
                                Request::SetSockOpt {
                                    fd: socket.fd,
                                    level: target.socket.level,
                                    name: target.socket.rcvtimeo,
                                    value: OptValue::Timeval(raw),
                                },
                                Reply::Code(reply),
                            ),
                        ],
                        told(reply),
                    )
                }
        },
{
    reveal_with_fuel(after, 2);
    let raw = timeval_of(target.time, dur);
    let request = Request::SetSockOpt {
        fd: socket.fd,
        level: target.socket.level,
        name: target.socket.rcvtimeo,
        value: OptValue::Timeval(raw),
    };
    if !(dur matches Some(d) && d.secs == 0 && d.nanos == 0) {
        assert(goes(*target, step, seq![(request, Reply::Code(reply))], told(reply)));
    }
}

/// Asks for the timeout of receiving: zero is none, and else the seconds and
/// microseconds are told, as unsigned numbers.
pub proof fn law_get_read_timeout<'a>(
    socket: &Socket,
    target: &Target,
    step: Step<'a, ReadTimeout, Option<Duration>>,
    raw: Timeval,
    secs: int,
    micros: int,
    error: c_int,
)
    requires
        call_ensures(Socket::read_timeout, (socket, target), step),
        secs == if raw.tv_sec >= 0 {
            raw.tv_sec as int
        } else {
            raw.tv_sec + 0x1_0000_0000_0000_0000
        },
        micros == raw.tv_usec as int % 0x1_0000_0000,
        micros * 1000 <= u32::MAX,
        secs + micros / 1_000_000 <= u64::MAX,
    ensures
        ({
            let request = Request::GetSockOpt {
                fd: socket.fd,
                level: target.socket.level,
                name: target.socket.rcvtimeo,
                kind: OptKind::Timeval,
            };
            &&& goes(
                *target,
                step,
                seq![(request, Reply::Opt(Ok(OptValue::Timeval(raw))))],
                Ok(
                    if raw.tv_sec == 0 && raw.tv_usec == 0 {
                        None
                    } else {
                        Some(
                            Duration {
                                secs: (secs + micros / 1_000_000) as u64,
                                nanos: (micros % 1_000_000 * 1000) as u32,
                            },
                        )
                    },
                ),
            )
            &&& goes(
                *target,
                step,
                seq![(request, Reply::Opt(Err(error)))],
                Err(Error::Os(error)),
            )
        }),
{
    reveal_with_fuel(after, 2);
    lemma_carry(secs, micros);
}

/// Writes the timeout of sending: one of zero is refused without a request, none
/// is written as zero.
pub proof fn law_set_write_timeout<'a>(
    socket: &Socket,
    target: &Target,
    dur: Option<Duration>,
    step: Step<'a, ReadNothing, ()>,
    reply: Result<c_int, c_int>,
)
    requires
        call_ensures(Socket::set_write_timeout, (socket, target, dur), step),
    ensures
        if dur matches Some(d) && d.secs == 0 && d.nanos == 0 {
            goes(*target, step, seq![], Err(Error::ZeroTimeout))
        } else {
            exists|raw: Timeval|
                {
                    &&& match dur {
                        None => raw.tv_sec == 0 && raw.tv_usec == 0,
                        Some(d) => timeout_as(target.time, d, raw),
                    }
                    &&& #[trigger] goes(
                        *target,
                        step,
                        seq![
                            (
                                Request::SetSockOpt {
                                    fd: socket.fd,
                                    level: target.socket.level,
                                    name: target.socket.sndtimeo,
                                    value: OptValue::Timeval(raw),
                                },
                                Reply::Code(reply),
                            ),
                        ],
                        told(reply),
                    )
                }
        },
{
    reveal_with_fuel(after, 2);
    let raw = timeval_of(target.time, dur);
    let request = Request::SetSockOpt {
        fd: socket.fd,
        level: target.socket.level,
        name: target.socket.sndtimeo,
        value: OptValue::Timeval(raw),
    };
    if !(dur matches Some(d) && d.secs == 0 && d.nanos == 0) {
        assert(goes(*target, step, seq![(request, Reply::Code(reply))], told(reply)));
    }
}

/// Asks for the timeout of sending: zero is none, and else the seconds and
/// microseconds are told, as unsigned numbers.
pub proof fn law_get_write_timeout<'a>(
    socket: &Socket,
    target: &Target,
    step: Step<'a, ReadTimeout, Option<Duration>>,
    raw: Timeval,
    secs: int,
    micros: int,
    error: c_int,
)
    requires
        call_ensures(Socket::write_timeout, (socket, target), step),
        secs == if raw.tv_sec >= 0 {
            raw.tv_sec as int
        } else {
            raw.tv_sec + 0x1_0000_0000_0000_0000
        },
        micros == raw.tv_usec as int % 0x1_0000_0000,
        micros * 1000 <= u32::MAX,
        secs + micros / 1_000_000 <= u64::MAX,
    ensures
        ({
            let request = Request::GetSockOpt {
                fd: socket.fd,
                level: target.socket.level,
                name: target.socket.sndtimeo,
                kind: OptKind::Timeval,
            };
            &&& goes(
                *target,
                step,
                seq![(request, Reply::Opt(Ok(OptValue::Timeval(raw))))],
                Ok(
                    if raw.tv_sec == 0 && raw.tv_usec == 0 {
                        None
                    } else {
                        Some(
                            Duration {
                                secs: (secs + micros / 1_000_000) as u64,
                                nanos: (micros % 1_000_000 * 1000) as u32,
                            },
                        )
                    },
                ),
            )
            &&& goes(
                *target,
                step,
                seq![(request, Reply::Opt(Err(error)))],
                Err(Error::Os(error)),
            )
        }),
{
    reveal_with_fuel(after, 2);
    lemma_carry(secs, micros);
}

/// Microseconds are carried over as nanoseconds are.
pub proof fn lemma_carry(secs: int, micros: int)
    requires
        0 <= secs,
        0 <= micros,
        micros * 1000 <= u32::MAX,
    ensures
        (micros * 1000) / 1_000_000_000 == micros / 1_000_000,
        (secs * 1_000_000_000 + micros * 1000) / 1_000_000_000 == secs + micros / 1_000_000,
        (secs * 1_000_000_000 + micros * 1000) % 1_000_000_000 == micros % 1_000_000 * 1000,
{
    let q = micros / 1_000_000;
    let r = micros % 1_000_000;
    assert(micros == q * 1_000_000 + r);
    assert(secs * 1_000_000_000 + micros * 1000 == (secs + q) * 1_000_000_000 + r * 1000);
}

/// Writes the time to linger, in the whole seconds of which the low 32 bits
/// count; none is written as zero.
pub proof fn law_set_linger<'a>(
    socket: &Socket,
    target: &Target,
    dur: Option<Duration>,
    step: Step<'a, ReadNothing, ()>,
    reply: Result<c_int, c_int>,
)
    requires
        call_ensures(Socket::set_linger, (socket, target, dur), step),
    ensures
        exists|raw: Linger|
            {
                &&& match dur {
                    None => raw.l_onoff == 0 && raw.l_linger == 0,
                    Some(d) => raw.l_onoff == 1 && low_bits(d.secs as int, raw.l_linger),
                }
                &&& #[trigger] goes(
                    *target,
                    step,
                    seq![
                        (
                            Request::SetSockOpt {
                                fd: socket.fd,
                                level: target.socket.level,
                                name: target.socket.linger,
                                value: OptValue::Linger(raw),
                            },
                            Reply::Code(reply),
                        ),
                    ],
                    told(reply),
                )
            },
{
    reveal_with_fuel(after, 2);
    let raw = linger_of(dur);
    if let Some(d) = dur {
        lemma_low_bits(d.secs as int);
    }
    let request = Request::SetSockOpt {
        fd: socket.fd,
        level: target.socket.level,
        name: target.socket.linger,
        value: OptValue::Linger(raw),
    };
    assert(goes(*target, step, seq![(request, Reply::Code(reply))], told(reply)));
}

/// Asks for the time to linger: none where it is switched off, and else the
/// seconds, as an unsigned number.
pub proof fn law_get_linger<'a>(
    socket: &Socket,
    target: &Target,
    step: Step<'a, ReadLinger, Option<Duration>>,
    raw: Linger,
    error: c_int,
)
    requires
        call_ensures(Socket::linger, (socket, target), step),
    ensures
        ({
            let request = Request::GetSockOpt {
                fd: socket.fd,
                level: target.socket.level,
                name: target.socket.linger,
                kind: OptKind::Linger,
            };
            &&& goes(
                *target,
                step,
                seq![(request, Reply::Opt(Ok(OptValue::Linger(raw))))],
                Ok(
                    if raw.l_onoff == 0 {
                        None
                    } else {
                        Some(Duration { secs: as_long(raw.l_linger), nanos: 0 })
                    },
                ),
            )
            &&& goes(
                *target,
                step,
                seq![(request, Reply::Opt(Err(error)))],
                Err(Error::Os(error)),
            )
        }),
{
    reveal_with_fuel(after, 2);
}

/// An integer as an unsigned one of 64 bits; a negative one, with its sign
/// extended.
pub open spec fn as_long(n: c_int) -> u64 {
    (if n >= 0 {
        n as int
    } else {
        n + 0x1_0000_0000_0000_0000
    }) as u64
}

/// Writes the interface of IPv4 multicast: its octets stand in memory in turn.
pub proof fn law_set_multicast_if_v4<'a>(
    socket: &Socket,
    target: &Target,
    interface: &Ipv4Addr,
    step: Step<'a, ReadNothing, ()>,
    reply: Result<c_int, c_int>,
)
    requires
        call_ensures(Socket::set_multicast_if_v4, (socket, target, interface), step),
    ensures
        exists|raw: u32| #[trigger]
            in_memory(target.endian, raw, *interface) && goes(
                *target,
                step,
                seq![
                    (
                        Request::SetSockOpt {
                            fd: socket.fd,
                            level: target.protocol.ip,
                            name: target.ip.multicast_if,
                            value: OptValue::InAddr(raw),
                        },
                        Reply::Code(reply),
                    ),
                ],
                told(reply),
            ),
{
    reveal_with_fuel(after, 2);
    lemma_in_memory(target.endian, *interface);
    assert(in_memory(target.endian, s_addr(target.endian, *interface), *interface));
}

/// Asks for the interface of IPv4 multicast: its octets are told as they stand
/// in memory.
pub proof fn law_get_multicast_if_v4<'a>(
    socket: &Socket,
    target: &Target,
    step: Step<'a, ReadIpv4, Ipv4Addr>,
    raw: u32,
    interface: Ipv4Addr,
    error: c_int,
)
    requires
        call_ensures(Socket::multicast_if_v4, (socket, target), step),
        in_memory(target.endian, raw, interface),
    ensures
        ({
            let request = Request::GetSockOpt {
                fd: socket.fd,
                level: target.protocol.ip,
                name: target.ip.multicast_if,
                kind: OptKind::InAddr,
            };
            &&& goes(
                *target,
                step,
                seq![(request, Reply::Opt(Ok(OptValue::InAddr(raw))))],
                Ok(interface),
            )
            &&& goes(
                *target,
                step,
                seq![(request, Reply::Opt(Err(error)))],
                Err(Error::Os(error)),
            )
        }),
{
    reveal_with_fuel(after, 2);
}

/// The octets of an address stand in memory in turn.
pub proof fn lemma_in_memory(endian: Endian, addr: Ipv4Addr)
    ensures
        in_memory(endian, s_addr(endian, addr), addr),
{
    law_ipv4_round_trip(endian, addr);
}

/// Joining a group of IPv4 writes that group and that interface: each reads back
/// as it was given, and has its octets in memory in turn.
pub proof fn law_join_multicast_v4<'a>(
    socket: &Socket,
    target: &Target,
    multiaddr: &Ipv4Addr,
    interface: &Ipv4Addr,
    step: Step<'a, ReadNothing, ()>,
    reply: Result<c_int, c_int>,
)
    requires
        call_ensures(Socket::join_multicast_v4, (socket, target, multiaddr, interface), step),
    ensures
        step matches Step::Call(request, _) && {
            &&& request matches Request::SetSockOpt {
                fd,
                level,
                name,
                value: OptValue::IpMreq(mreq),
            } && {
                &&& fd == socket.fd
                &&& level == target.protocol.ip
                &&& name == target.ip.add_membership
                &&& in_memory(target.endian, mreq.imr_multiaddr, *multiaddr)
                &&& addr_of(target.endian, mreq.imr_multiaddr) == *multiaddr
                &&& in_memory(target.endian, mreq.imr_interface, *interface)
                &&& addr_of(target.endian, mreq.imr_interface) == *interface
            }
            &&& goes(*target, step, seq![(request, Reply::Code(reply))], told(reply))
        },
{
    reveal_with_fuel(after, 2);
    lemma_in_memory(target.endian, *multiaddr);
    lemma_in_memory(target.endian, *interface);
    law_ipv4_round_trip(target.endian, *multiaddr);
    law_ipv4_round_trip(target.endian, *interface);
}

/// Joining a group of IPv6 writes that group, by its octets, and that interface.
pub proof fn law_join_multicast_v6<'a>(
    socket: &Socket,
    target: &Target,
    multiaddr: &Ipv6Addr,
    interface: u32,
    step: Step<'a, ReadNothing, ()>,
    reply: Result<c_int, c_int>,
)
    requires
        call_ensures(Socket::join_multicast_v6, (socket, target, multiaddr, interface), step),
    ensures
        step matches Step::Call(request, _) && {
            &&& request matches Request::SetSockOpt {
                fd,
                level,
                name,
                value: OptValue::Ipv6Mreq(mreq),
            } && {
                &&& fd == socket.fd
                &&& level == target.protocol.ipv6
                &&& name == target.ipv6.add_membership
                &&& mreq.ipv6mr_multiaddr.s6_addr@ == multiaddr.octets@
                &&& mreq.ipv6mr_interface == interface
            }
            &&& goes(*target, step, seq![(request, Reply::Code(reply))], told(reply))
        },
{
    reveal_with_fuel(after, 2);
}

/// Leaving a group of IPv4 writes that group and that interface: each reads back
/// as it was given, and has its octets in memory in turn.
pub proof fn law_leave_multicast_v4<'a>(
    socket: &Socket,
    target: &Target,
    multiaddr: &Ipv4Addr,
    interface: &Ipv4Addr,
    step: Step<'a, ReadNothing, ()>,
    reply: Result<c_int, c_int>,
)
    requires
        call_ensures(Socket::leave_multicast_v4, (socket, target, multiaddr, interface), step),
    ensures
        step matches Step::Call(request, _) && {
            &&& request matches Request::SetSockOpt {
                fd,
                level,
                name,
                value: OptValue::IpMreq(mreq),
            } && {
                &&& fd == socket.fd
                &&& level == target.protocol.ip
                &&& name == target.ip.drop_membership
                &&& in_memory(target.endian, mreq.imr_multiaddr, *multiaddr)
                &&& addr_of(target.endian, mreq.imr_multiaddr) == *multiaddr
                &&& in_memory(target.endian, mreq.imr_interface, *interface)
                &&& addr_of(target.endian, mreq.imr_interface) == *interface
            }
            &&& goes(*target, step, seq![(request, Reply::Code(reply))], told(reply))
        },
{
    reveal_with_fuel(after, 2);
    lemma_in_memory(target.endian, *multiaddr);
    lemma_in_memory(target.endian, *interface);
    law_ipv4_round_trip(target.endian, *multiaddr);
    law_ipv4_round_trip(target.endian, *interface);
}

/// Leaving a group of IPv6 writes that group, by its octets, and that interface.
pub proof fn law_leave_multicast_v6<'a>(
    socket: &Socket,
    target: &Target,
    multiaddr: &Ipv6Addr,
    interface: u32,
    step: Step<'a, ReadNothing, ()>,
    reply: Result<c_int, c_int>,
)
    requires
        call_ensures(Socket::leave_multicast_v6, (socket, target, multiaddr, interface), step),
    ensures
        step matches Step::Call(request, _) && {
            &&& request matches Request::SetSockOpt {
                fd,
                level,
                name,
                value: OptValue::Ipv6Mreq(mreq),
            } && {
                &&& fd == socket.fd
                &&& level == target.protocol.ipv6
                &&& name == target.ipv6.drop_membership
                &&& mreq.ipv6mr_multiaddr.s6_addr@ == multiaddr.octets@
                &&& mreq.ipv6mr_interface == interface
            }
            &&& goes(*target, step, seq![(request, Reply::Code(reply))], told(reply))
        },
{
    reveal_with_fuel(after, 2);
}

/// Asks whether probes keep a connection alive, and only if so after how many
/// idle seconds, which are told as an unsigned number.
pub proof fn law_get_keepalive<'a>(
    socket: &Socket,
    target: &Target,
    step: Step<'a, Keepalive, Option<Duration>>,
    on: c_int,
    secs: c_int,
    error: c_int,
)
    requires
        call_ensures(Socket::keepalive, (socket, target), step),
    ensures
        ({
            let enabled = Request::GetSockOpt {
                fd: socket.fd,
                level: target.socket.level,
                name: target.socket.keepalive,
                kind: OptKind::Int,
            };
            let idle = Request::GetSockOpt {
                fd: socket.fd,
                level: target.protocol.tcp,
                name: target.tcp.keepidle,
                kind: OptKind::Int,
            };
            &&& goes(*target, step, seq![(enabled, int_reply(Err(error)))], Err(Error::Os(error)))
            &&& on == 0 ==> goes(*target, step, seq![(enabled, int_reply(Ok(on)))], Ok(None))
            &&& on != 0 ==> goes(
                *target,
                step,
                seq![(enabled, int_reply(Ok(on))), (idle, int_reply(Ok(secs)))],
                Ok(Some(Duration { secs: as_long(secs), nanos: 0 })),
            )
            &&& on != 0 ==> goes(
                *target,
                step,
                seq![(enabled, int_reply(Ok(on))), (idle, int_reply(Err(error)))],
                Err(Error::Os(error)),
            )
        }),
{
    reveal_with_fuel(after, 3);
}

/// Writes whether probes keep a connection alive, and if so, and if that went
/// well, after how many idle seconds, of which the low 32 bits count.
pub proof fn law_set_keepalive<'a>(
    socket: &Socket,
    target: &Target,
    keepalive: Option<Duration>,
    step: Step<'a, SetKeepalive, ()>,
    first: c_int,
    second: Result<c_int, c_int>,
    error: c_int,
)
    requires
        call_ensures(Socket::set_keepalive, (socket, target, keepalive), step),
    ensures
        ({
            let enable = Request::SetSockOpt {
                fd: socket.fd,
                level: target.socket.level,
                name: target.socket.keepalive,
                value: OptValue::Int(if keepalive is Some { 1 } else { 0 }),
            };
            &&& goes(*target, step, seq![(enable, Reply::Code(Err(error)))], Err(Error::Os(error)))
            &&& match keepalive {
                None => goes(*target, step, seq![(enable, Reply::Code(Ok(first)))], Ok(())),
                Some(d) => exists|raw: c_int| #[trigger]
                    low_bits(d.secs as int, raw) && goes(
                        *target,
                        step,
                        seq![
                            (enable, Reply::Code(Ok(first))),
                            (
                                Request::SetSockOpt {
                                    fd: socket.fd,
                                    level: target.protocol.tcp,
                                    name: target.tcp.keepidle,
                                    value: OptValue::Int(raw),
                                },
                                Reply::Code(second),
                            ),
                        ],
                        told(second),
                    ),
            }
        }),
{
    reveal_with_fuel(after, 3);
    if let Some(d) = keepalive {
        lemma_low_bits(d.secs as int);
        assert(low_bits(d.secs as int, int_of(d.secs as int)));
    }
}

} // verus!
