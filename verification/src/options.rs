//! Socket options.

use libc::c_int;
use vstd::prelude::*;

use crate::addr::{
    s_addr, to_in6_addr, to_ipv6mr_interface, to_s_addr, In6Addr, IpMreq, Ipv4Addr, Ipv6Addr,
    Ipv6Mreq,
};
use crate::cast::{int_of, int_to_u64, u32_to_int, u64_of, u64_to_int, usize_to_int};
use crate::error::Error;
use crate::read::{
    int_in, int_of_opt, is_int, ReadBool, ReadIpv4, ReadLinger, ReadNothing, ReadTimeout, ReadU32,
    ReadUsize,
};
use crate::socket::Socket;
use crate::syscall::{
    asks, code_of, ends, get_opt, set_opt, OptKind, OptValue, Operation, Reply, Request, Step,
};
use crate::target::Target;
use crate::time::{dur2linger, dur2timeval, linger_of, timeval_of, Duration};

verus! {

/// The value of an option that is switched on or off.
pub open spec fn switch(on: bool) -> OptValue {
    OptValue::Int(if on { 1 } else { 0 })
}

/// The value of an option that is a number.
pub open spec fn number(n: int) -> OptValue {
    OptValue::Int(int_of(n))
}

/// A timeout of zero, which is refused.
pub open spec fn zero_timeout(dur: Option<Duration>) -> bool {
    dur matches Some(d) && d.secs == 0 && d.nanos == 0
}

impl Socket {
    /// Asks for an option, to be read by `state`.
    fn getsockopt<'a, S, T>(&self, level: c_int, name: c_int, kind: OptKind, state: S) -> (step:
        Step<'a, S, T>)
        ensures
            step == Step::<'a, S, T>::Call(get_opt(self.fd, level, name, kind), state),
    {
        Step::Call(Request::GetSockOpt { fd: self.fd, level, name, kind }, state)
    }

    /// Asks for an option to be set.
    fn setsockopt<'a>(&self, level: c_int, name: c_int, value: OptValue) -> (step: Step<
        'a,
        ReadNothing,
        (),
    >)
        ensures
            asks(step, set_opt(self.fd, level, name, value), ReadNothing),
    {
        Step::Call(Request::SetSockOpt { fd: self.fd, level, name, value }, ReadNothing)
    }

    /// The hops that a packet may take.
    pub fn ttl<'a>(&self, target: &Target) -> (step: Step<'a, ReadU32, u32>)
        ensures
            asks(
                step,
                get_opt(self.fd, target.protocol.ip, target.ip.ttl, OptKind::Int),
                ReadU32,
            ),
    {
        self.getsockopt(target.protocol.ip, target.ip.ttl, OptKind::Int, ReadU32)
    }

    /// Sets the hops that a packet may take.
    pub fn set_ttl<'a>(&self, target: &Target, ttl: u32) -> (step: Step<'a, ReadNothing, ()>)
        ensures
            asks(
                step,
                set_opt(self.fd, target.protocol.ip, target.ip.ttl, number(ttl as int)),
                ReadNothing,
            ),
    {
        self.setsockopt(target.protocol.ip, target.ip.ttl, OptValue::Int(u32_to_int(ttl)))
    }

    /// The hops that a unicast packet may take over IPv6.
    pub fn unicast_hops_v6<'a>(&self, target: &Target) -> (step: Step<'a, ReadU32, u32>)
        ensures
            asks(
                step,
                get_opt(self.fd, target.protocol.ipv6, target.ipv6.unicast_hops, OptKind::Int),
                ReadU32,
            ),
    {
        self.getsockopt(target.protocol.ipv6, target.ipv6.unicast_hops, OptKind::Int, ReadU32)
    }

    /// Sets the hops that a unicast packet may take over IPv6.
    pub fn set_unicast_hops_v6<'a>(
        &self,
        target: &Target,
        hops: u32,
    ) -> (step: Step<'a, ReadNothing, ()>)
        ensures
            asks(
                step,
                set_opt(
                    self.fd,
                    target.protocol.ipv6,
                    target.ipv6.unicast_hops,
                    number(hops as int),
                ),
                ReadNothing,
            ),
    {
        self.setsockopt(
            target.protocol.ipv6,
            target.ipv6.unicast_hops,
            OptValue::Int(u32_to_int(hops)),
        )
    }

    /// Whether the socket takes IPv6 alone.
    pub fn only_v6<'a>(&self, target: &Target) -> (step: Step<'a, ReadBool, bool>)
        ensures
            asks(
                step,
                get_opt(self.fd, target.protocol.ipv6, target.ipv6.v6only, OptKind::Int),
                ReadBool,
            ),
    {
        self.getsockopt(target.protocol.ipv6, target.ipv6.v6only, OptKind::Int, ReadBool)
    }

    /// Sets whether the socket takes IPv6 alone.
    pub fn set_only_v6<'a>(
        &self,
        target: &Target,
        only_v6: bool,
    ) -> (step: Step<'a, ReadNothing, ()>)
        ensures
            asks(
                step,
                set_opt(self.fd, target.protocol.ipv6, target.ipv6.v6only, switch(only_v6)),
                ReadNothing,
            ),
    {
        self.setsockopt(
            target.protocol.ipv6,
            target.ipv6.v6only,
            OptValue::Int(if only_v6 { 1 } else { 0 }),
        )
    }

    /// The time to wait for data, if there is one.
    pub fn read_timeout<'a>(
        &self,
        target: &Target,
    ) -> (step: Step<'a, ReadTimeout, Option<Duration>>)
        ensures
            asks(
                step,
                get_opt(self.fd, target.socket.level, target.socket.rcvtimeo, OptKind::Timeval),
                ReadTimeout,
            ),
    {
        self.getsockopt(target.socket.level, target.socket.rcvtimeo, OptKind::Timeval, ReadTimeout)
    }

    /// Sets the time to wait for data, or that there is none.  A timeout of zero is
    /// refused before anything is asked for.
    pub fn set_read_timeout<'a>(&self, target: &Target, dur: Option<Duration>) -> (step: Step<
        'a,
        ReadNothing,
        (),
    >)
        ensures
            if zero_timeout(dur) {
                ends(step, Err(Error::ZeroTimeout))
            } else {
                asks(
                    step,
                    set_opt(
                        self.fd,
                        target.socket.level,
                        target.socket.rcvtimeo,
                        OptValue::Timeval(timeval_of(target.time, dur)),
                    ),
                    ReadNothing,
                )
            },
    {
        match dur2timeval(target, dur) {
            Ok(raw) => self.setsockopt(
                target.socket.level,
                target.socket.rcvtimeo,
                OptValue::Timeval(raw),
            ),
            Err(error) => Step::Done(Err(error)),
        }
    }

    /// The time to wait until data can be sent, if there is one.
    pub fn write_timeout<'a>(
        &self,
        target: &Target,
    ) -> (step: Step<'a, ReadTimeout, Option<Duration>>)
        ensures
            asks(
                step,
                get_opt(self.fd, target.socket.level, target.socket.sndtimeo, OptKind::Timeval),
                ReadTimeout,
            ),
    {
        self.getsockopt(target.socket.level, target.socket.sndtimeo, OptKind::Timeval, ReadTimeout)
    }

    /// Sets the time to wait until data can be sent, or that there is none.  A timeout of zero is
    /// refused before anything is asked for.
    pub fn set_write_timeout<'a>(&self, target: &Target, dur: Option<Duration>) -> (step: Step<
        'a,
        ReadNothing,
        (),
    >)
        ensures
            if zero_timeout(dur) {
                ends(step, Err(Error::ZeroTimeout))
            } else {
                asks(
                    step,
                    set_opt(
                        self.fd,
                        target.socket.level,
                        target.socket.sndtimeo,
                        OptValue::Timeval(timeval_of(target.time, dur)),
                    ),
                    ReadNothing,
                )
            },
    {
        match dur2timeval(target, dur) {
            Ok(raw) => self.setsockopt(
                target.socket.level,
                target.socket.sndtimeo,
                OptValue::Timeval(raw),
            ),
            Err(error) => Step::Done(Err(error)),
        }
    }

    /// Whether small packets are sent without delay.
    pub fn nodelay<'a>(&self, target: &Target) -> (step: Step<'a, ReadBool, bool>)
        ensures
            asks(
                step,
                get_opt(self.fd, target.protocol.tcp, target.tcp.nodelay, OptKind::Int),
                ReadBool,
            ),
    {
        self.getsockopt(target.protocol.tcp, target.tcp.nodelay, OptKind::Int, ReadBool)
    }

    /// Sets whether small packets are sent without delay.
    pub fn set_nodelay<'a>(
        &self,
        target: &Target,
        nodelay: bool,
    ) -> (step: Step<'a, ReadNothing, ()>)
        ensures
            asks(
                step,
                set_opt(self.fd, target.protocol.tcp, target.tcp.nodelay, switch(nodelay)),
                ReadNothing,
            ),
    {
        self.setsockopt(
            target.protocol.tcp,
            target.tcp.nodelay,
            OptValue::Int(if nodelay { 1 } else { 0 }),
        )
    }

    /// Whether packets may be broadcast.
    pub fn broadcast<'a>(&self, target: &Target) -> (step: Step<'a, ReadBool, bool>)
        ensures
            asks(
                step,
                get_opt(self.fd, target.socket.level, target.socket.broadcast, OptKind::Int),
                ReadBool,
            ),
    {
        self.getsockopt(target.socket.level, target.socket.broadcast, OptKind::Int, ReadBool)
    }

    /// Sets whether packets may be broadcast.
    pub fn set_broadcast<'a>(
        &self,
        target: &Target,
        broadcast: bool,
    ) -> (step: Step<'a, ReadNothing, ()>)
        ensures
            asks(
                step,
                set_opt(self.fd, target.socket.level, target.socket.broadcast, switch(broadcast)),
                ReadNothing,
            ),
    {
        self.setsockopt(
            target.socket.level,
            target.socket.broadcast,
            OptValue::Int(if broadcast { 1 } else { 0 }),
        )
    }

    /// Whether IPv4 multicast packets come back to this host.
    pub fn multicast_loop_v4<'a>(&self, target: &Target) -> (step: Step<'a, ReadBool, bool>)
        ensures
            asks(
                step,
                get_opt(self.fd, target.protocol.ip, target.ip.multicast_loop, OptKind::Int),
                ReadBool,
            ),
    {
        self.getsockopt(target.protocol.ip, target.ip.multicast_loop, OptKind::Int, ReadBool)
    }

    /// Sets whether IPv4 multicast packets come back to this host.
    pub fn set_multicast_loop_v4<'a>(
        &self,
        target: &Target,
        multicast_loop_v4: bool,
    ) -> (step: Step<'a, ReadNothing, ()>)
        ensures
            asks(
                step,
                set_opt(
                    self.fd,
                    target.protocol.ip,
                    target.ip.multicast_loop,
                    switch(multicast_loop_v4),
                ),
                ReadNothing,
            ),
    {
        self.setsockopt(
            target.protocol.ip,
            target.ip.multicast_loop,
            OptValue::Int(if multicast_loop_v4 { 1 } else { 0 }),
        )
    }

    /// The hops that an IPv4 multicast packet may take.
    pub fn multicast_ttl_v4<'a>(&self, target: &Target) -> (step: Step<'a, ReadU32, u32>)
        ensures
            asks(
                step,
                get_opt(self.fd, target.protocol.ip, target.ip.multicast_ttl, OptKind::Int),
                ReadU32,
            ),
    {
        self.getsockopt(target.protocol.ip, target.ip.multicast_ttl, OptKind::Int, ReadU32)
    }

    /// Sets the hops that an IPv4 multicast packet may take.
    pub fn set_multicast_ttl_v4<'a>(
        &self,
        target: &Target,
        multicast_ttl_v4: u32,
    ) -> (step: Step<'a, ReadNothing, ()>)
        ensures
            asks(
                step,
                set_opt(
                    self.fd,
                    target.protocol.ip,
                    target.ip.multicast_ttl,
                    number(multicast_ttl_v4 as int),
                ),
                ReadNothing,
            ),
    {
        self.setsockopt(
            target.protocol.ip,
            target.ip.multicast_ttl,
            OptValue::Int(u32_to_int(multicast_ttl_v4)),
        )
    }

    /// The hops that an IPv6 multicast packet may take.
    pub fn multicast_hops_v6<'a>(&self, target: &Target) -> (step: Step<'a, ReadU32, u32>)
        ensures
            asks(
                step,
                get_opt(self.fd, target.protocol.ipv6, target.ipv6.multicast_hops, OptKind::Int),
                ReadU32,
            ),
    {
        self.getsockopt(target.protocol.ipv6, target.ipv6.multicast_hops, OptKind::Int, ReadU32)
    }

    /// Sets the hops that an IPv6 multicast packet may take.
    pub fn set_multicast_hops_v6<'a>(
        &self,
        target: &Target,
        hops: u32,
    ) -> (step: Step<'a, ReadNothing, ()>)
        ensures
            asks(
                step,
                set_opt(
                    self.fd,
                    target.protocol.ipv6,
                    target.ipv6.multicast_hops,
                    number(hops as int),
                ),
                ReadNothing,
            ),
    {
        self.setsockopt(
            target.protocol.ipv6,
            target.ipv6.multicast_hops,
            OptValue::Int(u32_to_int(hops)),
        )
    }

    /// The interface that IPv4 multicast packets leave by, by its address.
    pub fn multicast_if_v4<'a>(&self, target: &Target) -> (step: Step<'a, ReadIpv4, Ipv4Addr>)
        ensures
            asks(
                step,
                get_opt(self.fd, target.protocol.ip, target.ip.multicast_if, OptKind::InAddr),
                ReadIpv4,
            ),
    {
        self.getsockopt(target.protocol.ip, target.ip.multicast_if, OptKind::InAddr, ReadIpv4)
    }

    /// Sets the interface that IPv4 multicast packets leave by.
    pub fn set_multicast_if_v4<'a>(
        &self,
        target: &Target,
        interface: &Ipv4Addr,
    ) -> (step: Step<'a, ReadNothing, ()>)
        ensures
            asks(
                step,
                set_opt(
                    self.fd,
                    target.protocol.ip,
                    target.ip.multicast_if,
                    OptValue::InAddr(s_addr(target.endian, *interface)),
                ),
                ReadNothing,
            ),
    {
        self.setsockopt(
            target.protocol.ip,
            target.ip.multicast_if,
            OptValue::InAddr(to_s_addr(target, interface)),
        )
    }

    /// The interface that IPv6 multicast packets leave by, by its index.
    pub fn multicast_if_v6<'a>(&self, target: &Target) -> (step: Step<'a, ReadU32, u32>)
        ensures
            asks(
                step,
                get_opt(self.fd, target.protocol.ipv6, target.ipv6.multicast_if, OptKind::Int),
                ReadU32,
            ),
    {
        self.getsockopt(target.protocol.ipv6, target.ipv6.multicast_if, OptKind::Int, ReadU32)
    }

    /// Sets the interface that IPv6 multicast packets leave by, by its index.
    pub fn set_multicast_if_v6<'a>(
        &self,
        target: &Target,
        interface: u32,
    ) -> (step: Step<'a, ReadNothing, ()>)
        ensures
            asks(
                step,
                set_opt(
                    self.fd,
                    target.protocol.ipv6,
                    target.ipv6.multicast_if,
                    number(interface as int),
                ),
                ReadNothing,
            ),
    {
        self.setsockopt(
            target.protocol.ipv6,
            target.ipv6.multicast_if,
            OptValue::Int(u32_to_int(interface)),
        )
    }

    /// Whether IPv6 multicast packets come back to this host.
    pub fn multicast_loop_v6<'a>(&self, target: &Target) -> (step: Step<'a, ReadBool, bool>)
        ensures
            asks(
                step,
                get_opt(self.fd, target.protocol.ipv6, target.ipv6.multicast_loop, OptKind::Int),
                ReadBool,
            ),
    {
        self.getsockopt(target.protocol.ipv6, target.ipv6.multicast_loop, OptKind::Int, ReadBool)
    }

    /// Sets whether IPv6 multicast packets come back to this host.
    pub fn set_multicast_loop_v6<'a>(
        &self,
        target: &Target,
        multicast_loop_v6: bool,
    ) -> (step: Step<'a, ReadNothing, ()>)
        ensures
            asks(
                step,
                set_opt(
                    self.fd,
                    target.protocol.ipv6,
                    target.ipv6.multicast_loop,
                    switch(multicast_loop_v6),
                ),
                ReadNothing,
            ),
    {
        self.setsockopt(
            target.protocol.ipv6,
            target.ipv6.multicast_loop,
            OptValue::Int(if multicast_loop_v6 { 1 } else { 0 }),
        )
    }

    /// Joins an IPv4 multicast group, on the interface with an address.
    pub fn join_multicast_v4<'a>(
        &self,
        target: &Target,
        multiaddr: &Ipv4Addr,
        interface: &Ipv4Addr,
    ) -> (step: Step<'a, ReadNothing, ()>)
        ensures
            asks(
                step,
                set_opt(
                    self.fd,
                    target.protocol.ip,
                    target.ip.add_membership,
                    group_v4(*target, *multiaddr, *interface),
                ),
                ReadNothing,
            ),
    {
        let mreq = IpMreq {
            imr_multiaddr: to_s_addr(target, multiaddr),
            imr_interface: to_s_addr(target, interface),
        };
        self.setsockopt(target.protocol.ip, target.ip.add_membership, OptValue::IpMreq(mreq))
    }

    /// Joins an IPv6 multicast group, on the interface with an index.
    pub fn join_multicast_v6<'a>(
        &self,
        target: &Target,
        multiaddr: &Ipv6Addr,
        interface: u32,
    ) -> (step: Step<'a, ReadNothing, ()>)
        ensures
            asks(
                step,
                set_opt(
                    self.fd,
                    target.protocol.ipv6,
                    target.ipv6.add_membership,
                    group_v6(*multiaddr, interface),
                ),
                ReadNothing,
            ),
    {
        let mreq = Ipv6Mreq {
            ipv6mr_multiaddr: to_in6_addr(multiaddr),
            ipv6mr_interface: to_ipv6mr_interface(interface),
        };
        self.setsockopt(
            target.protocol.ipv6,
            target.ipv6.add_membership,
            OptValue::Ipv6Mreq(mreq),
        )
    }

    /// Leaves an IPv4 multicast group, on the interface with an address.
    pub fn leave_multicast_v4<'a>(
        &self,
        target: &Target,
        multiaddr: &Ipv4Addr,
        interface: &Ipv4Addr,
    ) -> (step: Step<'a, ReadNothing, ()>)
        ensures
            asks(
                step,
                set_opt(
                    self.fd,
                    target.protocol.ip,
                    target.ip.drop_membership,
                    group_v4(*target, *multiaddr, *interface),
                ),
                ReadNothing,
            ),
    {
        let mreq = IpMreq {
            imr_multiaddr: to_s_addr(target, multiaddr),
            imr_interface: to_s_addr(target, interface),
        };
        self.setsockopt(target.protocol.ip, target.ip.drop_membership, OptValue::IpMreq(mreq))
    }

    /// Leaves an IPv6 multicast group, on the interface with an index.
    pub fn leave_multicast_v6<'a>(
        &self,
        target: &Target,
        multiaddr: &Ipv6Addr,
        interface: u32,
    ) -> (step: Step<'a, ReadNothing, ()>)
        ensures
            asks(
                step,
                set_opt(
                    self.fd,
                    target.protocol.ipv6,
                    target.ipv6.drop_membership,
                    group_v6(*multiaddr, interface),
                ),
                ReadNothing,
            ),
    {
        let mreq = Ipv6Mreq {
            ipv6mr_multiaddr: to_in6_addr(multiaddr),
            ipv6mr_interface: to_ipv6mr_interface(interface),
        };
        self.setsockopt(
            target.protocol.ipv6,
            target.ipv6.drop_membership,
            OptValue::Ipv6Mreq(mreq),
        )
    }

    /// How long closing the socket waits for data to be sent, if it does.
    pub fn linger<'a>(&self, target: &Target) -> (step: Step<'a, ReadLinger, Option<Duration>>)
        ensures
            asks(
                step,
                get_opt(self.fd, target.socket.level, target.socket.linger, OptKind::Linger),
                ReadLinger,
            ),
    {
        self.getsockopt(target.socket.level, target.socket.linger, OptKind::Linger, ReadLinger)
    }

    /// Sets how long closing the socket waits for data to be sent, if it does.
    pub fn set_linger<'a>(
        &self,
        target: &Target,
        dur: Option<Duration>,
    ) -> (step: Step<'a, ReadNothing, ()>)
        ensures
            asks(
                step,
                set_opt(
                    self.fd,
                    target.socket.level,
                    target.socket.linger,
                    OptValue::Linger(linger_of(dur)),
                ),
                ReadNothing,
            ),
    {
        self.setsockopt(
            target.socket.level,
            target.socket.linger,
            OptValue::Linger(dur2linger(dur)),
        )
    }

    /// Whether the address may be in use.
    pub fn reuse_address<'a>(&self, target: &Target) -> (step: Step<'a, ReadBool, bool>)
        ensures
            asks(
                step,
                get_opt(self.fd, target.socket.level, target.socket.reuseaddr, OptKind::Int),
                ReadBool,
            ),
    {
        self.getsockopt(target.socket.level, target.socket.reuseaddr, OptKind::Int, ReadBool)
    }

    /// Sets whether the address may be in use.
    pub fn set_reuse_address<'a>(
        &self,
        target: &Target,
        reuse: bool,
    ) -> (step: Step<'a, ReadNothing, ()>)
        ensures
            asks(
                step,
                set_opt(self.fd, target.socket.level, target.socket.reuseaddr, switch(reuse)),
                ReadNothing,
            ),
    {
        self.setsockopt(
            target.socket.level,
            target.socket.reuseaddr,
            OptValue::Int(if reuse { 1 } else { 0 }),
        )
    }

    /// The size of the buffer for data received.
    pub fn recv_buffer_size<'a>(&self, target: &Target) -> (step: Step<'a, ReadUsize, usize>)
        ensures
            asks(
                step,
                get_opt(self.fd, target.socket.level, target.socket.rcvbuf, OptKind::Int),
                ReadUsize,
            ),
    {
        self.getsockopt(target.socket.level, target.socket.rcvbuf, OptKind::Int, ReadUsize)
    }

    /// Sets the size of the buffer for data received, of which the low 32 bits count.
    pub fn set_recv_buffer_size<'a>(
        &self,
        target: &Target,
        size: usize,
    ) -> (step: Step<'a, ReadNothing, ()>)
        ensures
            asks(
                step,
                set_opt(self.fd, target.socket.level, target.socket.rcvbuf, number(size as int)),
                ReadNothing,
            ),
    {
        self.setsockopt(
            target.socket.level,
            target.socket.rcvbuf,
            OptValue::Int(usize_to_int(size)),
        )
    }

    /// The size of the buffer for data to be sent.
    pub fn send_buffer_size<'a>(&self, target: &Target) -> (step: Step<'a, ReadUsize, usize>)
        ensures
            asks(
                step,
                get_opt(self.fd, target.socket.level, target.socket.sndbuf, OptKind::Int),
                ReadUsize,
            ),
    {
        self.getsockopt(target.socket.level, target.socket.sndbuf, OptKind::Int, ReadUsize)
    }

    /// Sets the size of the buffer for data to be sent, of which the low 32 bits count.
    pub fn set_send_buffer_size<'a>(
        &self,
        target: &Target,
        size: usize,
    ) -> (step: Step<'a, ReadNothing, ()>)
        ensures
            asks(
                step,
                set_opt(self.fd, target.socket.level, target.socket.sndbuf, number(size as int)),
                ReadNothing,
            ),
    {
        self.setsockopt(
            target.socket.level,
            target.socket.sndbuf,
            OptValue::Int(usize_to_int(size)),
        )
    }

    /// Whether the port may be in use.
    pub fn reuse_port<'a>(&self, target: &Target) -> (step: Step<'a, ReadBool, bool>)
        ensures
            asks(
                step,
                get_opt(self.fd, target.socket.level, target.socket.reuseport, OptKind::Int),
                ReadBool,
            ),
    {
        self.getsockopt(target.socket.level, target.socket.reuseport, OptKind::Int, ReadBool)
    }

    /// Sets whether the port may be in use.
    pub fn set_reuse_port<'a>(
        &self,
        target: &Target,
        reuse: bool,
    ) -> (step: Step<'a, ReadNothing, ()>)
        ensures
            asks(
                step,
                set_opt(self.fd, target.socket.level, target.socket.reuseport, switch(reuse)),
                ReadNothing,
            ),
    {
        self.setsockopt(
            target.socket.level,
            target.socket.reuseport,
            OptValue::Int(if reuse { 1 } else { 0 }),
        )
    }

    /// Whether urgent data is received among the rest.
    pub fn out_of_band_inline<'a>(&self, target: &Target) -> (step: Step<'a, ReadBool, bool>)
        ensures
            asks(
                step,
                get_opt(self.fd, target.socket.level, target.socket.oobinline, OptKind::Int),
                ReadBool,
            ),
    {
        self.getsockopt(target.socket.level, target.socket.oobinline, OptKind::Int, ReadBool)
    }

    /// Sets whether urgent data is received among the rest.
    pub fn set_out_of_band_inline<'a>(
        &self,
        target: &Target,
        oob_inline: bool,
    ) -> (step: Step<'a, ReadNothing, ()>)
        ensures
            asks(
                step,
                set_opt(self.fd, target.socket.level, target.socket.oobinline, switch(oob_inline)),
                ReadNothing,
            ),
    {
        self.setsockopt(
            target.socket.level,
            target.socket.oobinline,
            OptValue::Int(if oob_inline { 1 } else { 0 }),
        )
    }
}

/// The value of an option that names an IPv4 multicast group.
pub open spec fn group_v4(target: Target, multiaddr: Ipv4Addr, interface: Ipv4Addr) -> OptValue {
    OptValue::IpMreq(
        IpMreq {
            imr_multiaddr: s_addr(target.endian, multiaddr),
            imr_interface: s_addr(target.endian, interface),
        },
    )
}

/// The value of an option that names an IPv6 multicast group.
pub open spec fn group_v6(multiaddr: Ipv6Addr, interface: u32) -> OptValue {
    OptValue::Ipv6Mreq(
        Ipv6Mreq {
            ipv6mr_multiaddr: In6Addr { s6_addr: multiaddr.octets },
            ipv6mr_interface: interface,
        },
    )
}

/// Finding out after which idle time keepalive probes start, if they do.
#[derive(Clone, Copy, Debug)]
pub enum Keepalive {
    Enabled { fd: c_int },
    Idle,
}

impl<'a> Operation<'a> for Keepalive {
    type Output = Option<Duration>;

    open spec fn accepts(self, reply: Reply) -> bool {
        is_int(reply)
    }

    open spec fn next(self, target: Target, reply: Reply) -> Step<'a, Self, Option<Duration>> {
        match (self, int_in(reply)) {
            (_, Err(e)) => Step::Done(Err(Error::Os(e))),
            (Keepalive::Enabled { fd }, Ok(raw)) => if raw == 0 {
                Step::Done(Ok(None))
            } else {
                Step::Call(
                    get_opt(fd, target.protocol.tcp, target.tcp.keepidle, OptKind::Int),
                    Keepalive::Idle,
                )
            },
            (Keepalive::Idle, Ok(secs)) => Step::Done(
                Ok(Some(Duration { secs: u64_of(secs as int), nanos: 0 })),
            ),
        }
    }

    fn resume(self, target: &Target, reply: Reply) -> (step: Step<'a, Self, Option<Duration>>) {
        match (self, int_of_opt(reply)) {
            (_, Err(e)) => Step::Done(Err(Error::Os(e))),
            (Keepalive::Enabled { fd }, Ok(raw)) => if raw == 0 {
                Step::Done(Ok(None))
            } else {
                Step::Call(
                    Request::GetSockOpt {
                        fd,
                        level: target.protocol.tcp,
                        name: target.tcp.keepidle,
                        kind: OptKind::Int,
                    },
                    Keepalive::Idle,
                )
            },
            (Keepalive::Idle, Ok(secs)) => Step::Done(
                Ok(Some(Duration::new(int_to_u64(secs), 0))),
            ),
        }
    }
}

/// Setting after which idle time keepalive probes start, if they do.
#[derive(Clone, Copy, Debug)]
pub enum SetKeepalive {
    Enabling { fd: c_int, keepalive: Option<Duration> },
    Timing,
}

impl<'a> Operation<'a> for SetKeepalive {
    type Output = ();

    open spec fn accepts(self, reply: Reply) -> bool {
        reply is Code
    }

    open spec fn next(self, target: Target, reply: Reply) -> Step<'a, Self, ()> {
        match (self, reply->Code_0) {
            (_, Err(e)) => Step::Done(Err(Error::Os(e))),
            (SetKeepalive::Enabling { fd, keepalive: Some(dur) }, Ok(_)) => Step::Call(
                set_opt(
                    fd,
                    target.protocol.tcp,
                    target.tcp.keepidle,
                    number(dur.secs as int),
                ),
                SetKeepalive::Timing,
            ),
            (_, Ok(_)) => Step::Done(Ok(())),
        }
    }

    fn resume(self, target: &Target, reply: Reply) -> (step: Step<'a, Self, ()>) {
        match (self, code_of(reply)) {
            (_, Err(e)) => Step::Done(Err(Error::Os(e))),
            (SetKeepalive::Enabling { fd, keepalive: Some(dur) }, Ok(_)) => Step::Call(
                Request::SetSockOpt {
                    fd,
                    level: target.protocol.tcp,
                    name: target.tcp.keepidle,
                    value: OptValue::Int(u64_to_int(dur.as_secs())),
                },
                SetKeepalive::Timing,
            ),
            (_, Ok(_)) => Step::Done(Ok(())),
        }
    }
}

impl Socket {
    /// The idle time after which keepalive probes start, if they do.
    pub fn keepalive<'a>(&self, target: &Target) -> (step: Step<'a, Keepalive, Option<Duration>>)
        ensures
            asks(
                step,
                get_opt(self.fd, target.socket.level, target.socket.keepalive, OptKind::Int),
                (Keepalive::Enabled { fd: self.fd }),
            ),
    {
        self.getsockopt(
            target.socket.level,
            target.socket.keepalive,
            OptKind::Int,
            Keepalive::Enabled { fd: self.fd },
        )
    }

    /// Sets the idle time after which keepalive probes start, in whole seconds
    /// of which the low 32 bits count, or that they do not.
    pub fn set_keepalive<'a>(&self, target: &Target, keepalive: Option<Duration>) -> (step: Step<
        'a,
        SetKeepalive,
        (),
    >)
        ensures
            asks(
                step,
                set_opt(
                    self.fd,
                    target.socket.level,
                    target.socket.keepalive,
                    switch(keepalive is Some),
                ),
                (SetKeepalive::Enabling { fd: self.fd, keepalive }),
            ),
    {
        let fd: c_int = self.fd;
        Step::Call(
            Request::SetSockOpt {
                fd,
                level: target.socket.level,
                name: target.socket.keepalive,
                value: OptValue::Int(if keepalive.is_some() { 1 } else { 0 }),
            },
            SetKeepalive::Enabling { fd, keepalive },
        )
    }
}

} // verus!
