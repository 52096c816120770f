use std::collections::HashMap;

use libc::c_int;
use socket2::addr::{In6Addr, IpMreq, Ipv4Addr, Ipv6Addr, Ipv6Mreq};
use socket2::error::Error;
use socket2::socket::Socket;
use socket2::syscall::{Operation, OptKind, OptValue, Reply, Request, Step};
use socket2::target::Target;
use socket2::time::{Duration, Linger, Timeval};

/// A system that makes sockets and remembers what their options are set to.
struct System {
    target: Target,
    made: c_int,
    options: HashMap<(c_int, c_int, c_int), OptValue>,
    requests: usize,
}

impl System {
    fn new() -> System {
        System { target: Target::linux(), made: 2, options: HashMap::new(), requests: 0 }
    }

    fn reply(&mut self, request: Request<'_>) -> Reply {
        self.requests += 1;
        match request {
            Request::Socket { .. } => {
                self.made += 1;
                Reply::Code(Ok(self.made))
            }
            Request::SetSockOpt { fd, level, name, value } => {
                self.options.insert((fd, level, name), value);
                Reply::Code(Ok(0))
            }
            Request::GetSockOpt { fd, level, name, kind } => {
                Reply::Opt(Ok(match self.options.get(&(fd, level, name)) {
                    Some(value) => *value,
                    None => match kind {
                        OptKind::Int => OptValue::Int(0),
                        OptKind::Timeval => OptValue::Timeval(Timeval { tv_sec: 0, tv_usec: 0 }),
                        OptKind::Linger => OptValue::Linger(Linger { l_onoff: 0, l_linger: 0 }),
                        OptKind::InAddr => OptValue::InAddr(0),
                    },
                }))
            }
            other => panic!("{:?}", other),
        }
    }

    fn run<'a, S: Operation<'a>>(
        &mut self,
        mut step: Step<'a, S, S::Output>,
    ) -> Result<S::Output, Error> {
        loop {
            match step {
                Step::Done(result) => return result,
                Step::Call(request, state) => {
                    let reply = self.reply(request);
                    step = state.resume(&self.target, reply);
                }
            }
        }
    }

    fn stored(&self, socket: &Socket, level: c_int, name: c_int) -> Option<OptValue> {
        self.options.get(&(socket.as_raw_fd(), level, name)).copied()
    }
}

/// What comes of an operation whose one request is given `reply`.
fn answer<'a, S: Operation<'a>>(
    step: Step<'a, S, S::Output>,
    reply: Reply,
) -> Result<S::Output, Error> {
    match step {
        Step::Call(_, state) => match state.resume(&Target::linux(), reply) {
            Step::Done(result) => result,
            Step::Call(_, _) => panic!("a second request"),
        },
        Step::Done(_) => panic!("no request"),
    }
}

#[test]
fn test_out_of_band_inline() {
    let mut system = System::new();
    let t = Target::linux();
    let tcp = system.run(Socket::new(&t, libc::AF_INET, libc::SOCK_STREAM, 0)).unwrap();
    assert_eq!(system.run(tcp.out_of_band_inline(&t)).unwrap(), false);

    system.run(tcp.set_out_of_band_inline(&t, true)).unwrap();
    assert_eq!(system.run(tcp.out_of_band_inline(&t)).unwrap(), true);
}

#[test]
fn out_of_band_inline_is_a_socket_option() {
    let mut system = System::new();
    let t = Target::linux();
    let s = Socket::from_fd(5);
    system.run(s.set_out_of_band_inline(&t, true)).unwrap();
    let stored = system.stored(&s, libc::SOL_SOCKET, libc::SO_OOBINLINE);
    assert_eq!(stored, Some(OptValue::Int(1)));
}

#[test]
fn switches_read_back() {
    let t = Target::linux();
    let s = Socket::from_fd(5);
    for on in [true, false] {
        let mut system = System::new();
        system.run(s.set_only_v6(&t, on)).unwrap();
        system.run(s.set_nodelay(&t, on)).unwrap();
        system.run(s.set_broadcast(&t, on)).unwrap();
        system.run(s.set_multicast_loop_v4(&t, on)).unwrap();
        system.run(s.set_multicast_loop_v6(&t, on)).unwrap();
        system.run(s.set_reuse_address(&t, on)).unwrap();
        system.run(s.set_reuse_port(&t, on)).unwrap();
        let raw = Some(OptValue::Int(on as c_int));
        assert_eq!(system.stored(&s, libc::IPPROTO_IPV6, libc::IPV6_V6ONLY), raw);
        assert_eq!(system.stored(&s, libc::IPPROTO_TCP, libc::TCP_NODELAY), raw);
        assert_eq!(system.stored(&s, libc::SOL_SOCKET, libc::SO_BROADCAST), raw);
        assert_eq!(system.stored(&s, libc::IPPROTO_IP, libc::IP_MULTICAST_LOOP), raw);
        assert_eq!(system.stored(&s, libc::IPPROTO_IPV6, libc::IPV6_MULTICAST_LOOP), raw);
        assert_eq!(system.stored(&s, libc::SOL_SOCKET, libc::SO_REUSEADDR), raw);
        assert_eq!(system.stored(&s, libc::SOL_SOCKET, libc::SO_REUSEPORT), raw);
        assert_eq!(system.options.len(), 7);
        assert_eq!(system.run(s.only_v6(&t)), Ok(on));
        assert_eq!(system.run(s.nodelay(&t)), Ok(on));
        assert_eq!(system.run(s.broadcast(&t)), Ok(on));
        assert_eq!(system.run(s.multicast_loop_v4(&t)), Ok(on));
        assert_eq!(system.run(s.multicast_loop_v6(&t)), Ok(on));
        assert_eq!(system.run(s.reuse_address(&t)), Ok(on));
        assert_eq!(system.run(s.reuse_port(&t)), Ok(on));
    }
}

#[test]
fn any_number_but_zero_is_on() {
    let t = Target::linux();
    let s = Socket::from_fd(5);
    assert_eq!(answer(s.nodelay(&t), Reply::Opt(Ok(OptValue::Int(2)))), Ok(true));
    assert_eq!(answer(s.nodelay(&t), Reply::Opt(Ok(OptValue::Int(-1)))), Ok(true));
    assert_eq!(answer(s.nodelay(&t), Reply::Opt(Ok(OptValue::Int(0)))), Ok(false));
}

#[test]
fn numbers_read_back() {
    let t = Target::linux();
    let s = Socket::from_fd(5);
    for n in [0u32, 64, 0x7fff_ffff, 0x8000_0000, u32::MAX] {
        let mut system = System::new();
        system.run(s.set_ttl(&t, n)).unwrap();
        system.run(s.set_unicast_hops_v6(&t, n)).unwrap();
        system.run(s.set_multicast_ttl_v4(&t, n)).unwrap();
        system.run(s.set_multicast_hops_v6(&t, n)).unwrap();
        system.run(s.set_multicast_if_v6(&t, n)).unwrap();
        let raw = Some(OptValue::Int(n as c_int));
        assert_eq!(system.stored(&s, libc::IPPROTO_IP, libc::IP_TTL), raw);
        assert_eq!(system.stored(&s, libc::IPPROTO_IPV6, libc::IPV6_UNICAST_HOPS), raw);
        assert_eq!(system.stored(&s, libc::IPPROTO_IP, libc::IP_MULTICAST_TTL), raw);
        assert_eq!(system.stored(&s, libc::IPPROTO_IPV6, libc::IPV6_MULTICAST_HOPS), raw);
        assert_eq!(system.stored(&s, libc::IPPROTO_IPV6, libc::IPV6_MULTICAST_IF), raw);
        assert_eq!(system.run(s.ttl(&t)), Ok(n));
        assert_eq!(system.run(s.unicast_hops_v6(&t)), Ok(n));
        assert_eq!(system.run(s.multicast_ttl_v4(&t)), Ok(n));
        assert_eq!(system.run(s.multicast_hops_v6(&t)), Ok(n));
        assert_eq!(system.run(s.multicast_if_v6(&t)), Ok(n));
    }
}

#[test]
fn sizes_read_back() {
    let mut system = System::new();
    let t = Target::linux();
    let s = Socket::from_fd(5);
    system.run(s.set_recv_buffer_size(&t, 4096)).unwrap();
    system.run(s.set_send_buffer_size(&t, 0x7fff_ffff)).unwrap();
    let stored = system.stored(&s, libc::SOL_SOCKET, libc::SO_RCVBUF);
    assert_eq!(stored, Some(OptValue::Int(4096)));
    let stored = system.stored(&s, libc::SOL_SOCKET, libc::SO_SNDBUF);
    assert_eq!(stored, Some(OptValue::Int(0x7fff_ffff)));
    assert_eq!(system.run(s.recv_buffer_size(&t)), Ok(4096));
    assert_eq!(system.run(s.send_buffer_size(&t)), Ok(0x7fff_ffff));
}

#[test]
fn a_size_too_large_is_cut_to_its_low_bits() {
    let mut system = System::new();
    let t = Target::linux();
    let s = Socket::from_fd(5);
    system.run(s.set_recv_buffer_size(&t, 0x8000_0001)).unwrap();
    let stored = system.stored(&s, libc::SOL_SOCKET, libc::SO_RCVBUF);
    assert_eq!(stored, Some(OptValue::Int(i32::MIN + 1)));
    assert_eq!(system.run(s.recv_buffer_size(&t)), Ok((i32::MIN + 1) as usize));
}

#[test]
fn timeout_options_read_back() {
    let mut system = System::new();
    let t = Target::linux();
    let s = Socket::from_fd(5);
    let d = Some(Duration::new(3, 250_000_000));
    assert_eq!(system.run(s.read_timeout(&t)), Ok(None));
    system.run(s.set_read_timeout(&t, d)).unwrap();
    system.run(s.set_write_timeout(&t, Some(Duration::new(0, 1)))).unwrap();
    let stored = system.stored(&s, libc::SOL_SOCKET, libc::SO_RCVTIMEO);
    assert_eq!(stored, Some(OptValue::Timeval(Timeval { tv_sec: 3, tv_usec: 250_000 })));
    let stored = system.stored(&s, libc::SOL_SOCKET, libc::SO_SNDTIMEO);
    assert_eq!(stored, Some(OptValue::Timeval(Timeval { tv_sec: 0, tv_usec: 1 })));
    assert_eq!(system.run(s.read_timeout(&t)), Ok(d));
    assert_eq!(system.run(s.write_timeout(&t)), Ok(Some(Duration::new(0, 1_000))));
    system.run(s.set_read_timeout(&t, None)).unwrap();
    assert_eq!(system.run(s.read_timeout(&t)), Ok(None));
}

#[test]
fn a_zero_timeout_option_is_refused_without_a_request() {
    let mut system = System::new();
    let t = Target::linux();
    let s = Socket::from_fd(5);
    let zero = Some(Duration::from_secs(0));
    assert_eq!(system.run(s.set_read_timeout(&t, zero)), Err(Error::ZeroTimeout));
    assert_eq!(system.run(s.set_write_timeout(&t, zero)), Err(Error::ZeroTimeout));
    assert_eq!(system.requests, 0);
}

#[test]
fn linger_option_reads_back() {
    let mut system = System::new();
    let t = Target::linux();
    let s = Socket::from_fd(5);
    assert_eq!(system.run(s.linger(&t)), Ok(None));
    system.run(s.set_linger(&t, Some(Duration::new(4, 5)))).unwrap();
    let stored = system.stored(&s, libc::SOL_SOCKET, libc::SO_LINGER);
    assert_eq!(stored, Some(OptValue::Linger(Linger { l_onoff: 1, l_linger: 4 })));
    assert_eq!(system.run(s.linger(&t)), Ok(Some(Duration::from_secs(4))));
    system.run(s.set_linger(&t, None)).unwrap();
    assert_eq!(system.run(s.linger(&t)), Ok(None));
}

#[test]
fn keepalive_reads_back() {
    let mut system = System::new();
    let t = Target::linux();
    let s = Socket::from_fd(5);
    assert_eq!(system.run(s.keepalive(&t)), Ok(None));
    assert_eq!(system.requests, 1);
    system.run(s.set_keepalive(&t, Some(Duration::new(60, 7)))).unwrap();
    assert_eq!(system.requests, 3);
    let stored = system.stored(&s, libc::SOL_SOCKET, libc::SO_KEEPALIVE);
    assert_eq!(stored, Some(OptValue::Int(1)));
    let stored = system.stored(&s, libc::IPPROTO_TCP, libc::TCP_KEEPIDLE);
    assert_eq!(stored, Some(OptValue::Int(60)));
    assert_eq!(system.run(s.keepalive(&t)), Ok(Some(Duration::from_secs(60))));
    assert_eq!(system.requests, 5);
    system.run(s.set_keepalive(&t, None)).unwrap();
    assert_eq!(system.requests, 6);
    assert_eq!(system.run(s.keepalive(&t)), Ok(None));
    let stored = system.stored(&s, libc::IPPROTO_TCP, libc::TCP_KEEPIDLE);
    assert_eq!(stored, Some(OptValue::Int(60)));
}

#[test]
fn keepalive_is_given_up_at_the_first_error() {
    let t = Target::linux();
    let s = Socket::from_fd(5);
    let on = Some(Duration::from_secs(1));
    assert_eq!(answer(s.keepalive(&t), Reply::Opt(Err(9))), Err(Error::Os(9)));
    assert_eq!(answer(s.set_keepalive(&t, on), Reply::Code(Err(9))), Err(Error::Os(9)));
    match s.set_keepalive(&t, on) {
        Step::Call(_, state) => {
            let second = state.resume(&t, Reply::Code(Ok(0)));
            assert_eq!(answer(second, Reply::Code(Err(92))), Err(Error::Os(92)));
        }
        Step::Done(_) => panic!("no request"),
    }
    match s.keepalive(&t) {
        Step::Call(_, state) => {
            let second = state.resume(&t, Reply::Opt(Ok(OptValue::Int(1))));
            assert_eq!(answer(second, Reply::Opt(Err(92))), Err(Error::Os(92)));
        }
        Step::Done(_) => panic!("no request"),
    }
}

#[test]
fn interface_of_ipv4_reads_back() {
    let mut system = System::new();
    let t = Target::linux();
    let s = Socket::from_fd(5);
    let ip = Ipv4Addr::new(192, 168, 0, 17);
    system.run(s.set_multicast_if_v4(&t, &ip)).unwrap();
    let stored = system.stored(&s, libc::IPPROTO_IP, libc::IP_MULTICAST_IF);
    assert_eq!(stored, Some(OptValue::InAddr(u32::from_ne_bytes([192, 168, 0, 17]))));
    assert_eq!(system.run(s.multicast_if_v4(&t)), Ok(ip));
}

#[test]
fn groups_of_ipv4_are_joined_and_left() {
    let mut system = System::new();
    let t = Target::linux();
    let s = Socket::from_fd(5);
    let group = Ipv4Addr::new(224, 0, 0, 251);
    let interface = Ipv4Addr::new(10, 0, 0, 1);
    let mreq = Some(OptValue::IpMreq(IpMreq {
        imr_multiaddr: u32::from_ne_bytes([224, 0, 0, 251]),
        imr_interface: u32::from_ne_bytes([10, 0, 0, 1]),
    }));
    system.run(s.join_multicast_v4(&t, &group, &interface)).unwrap();
    assert_eq!(system.stored(&s, libc::IPPROTO_IP, libc::IP_ADD_MEMBERSHIP), mreq);
    assert_eq!(system.stored(&s, libc::IPPROTO_IP, libc::IP_DROP_MEMBERSHIP), None);
    system.run(s.leave_multicast_v4(&t, &group, &interface)).unwrap();
    assert_eq!(system.stored(&s, libc::IPPROTO_IP, libc::IP_DROP_MEMBERSHIP), mreq);
}

#[test]
fn groups_of_ipv6_are_joined_and_left() {
    let mut system = System::new();
    let t = Target::linux();
    let s = Socket::from_fd(5);
    let mut octets = [0u8; 16];
    octets[0] = 0xff;
    octets[15] = 1;
    let mreq = Some(OptValue::Ipv6Mreq(Ipv6Mreq {
        ipv6mr_multiaddr: In6Addr { s6_addr: octets },
        ipv6mr_interface: 3,
    }));
    system.run(s.join_multicast_v6(&t, &Ipv6Addr { octets }, 3)).unwrap();
    assert_eq!(system.stored(&s, libc::IPPROTO_IPV6, libc::IPV6_ADD_MEMBERSHIP), mreq);
    system.run(s.leave_multicast_v6(&t, &Ipv6Addr { octets }, 3)).unwrap();
    assert_eq!(system.stored(&s, libc::IPPROTO_IPV6, libc::IPV6_DROP_MEMBERSHIP), mreq);
    assert_eq!(system.options.len(), 2);
}

#[test]
fn an_error_of_the_system_is_handed_on() {
    let t = Target::linux();
    let s = Socket::from_fd(5);
    assert_eq!(answer(s.ttl(&t), Reply::Opt(Err(22))), Err(Error::Os(22)));
    assert_eq!(answer(s.only_v6(&t), Reply::Opt(Err(92))), Err(Error::Os(92)));
    assert_eq!(answer(s.recv_buffer_size(&t), Reply::Opt(Err(9))), Err(Error::Os(9)));
    assert_eq!(answer(s.read_timeout(&t), Reply::Opt(Err(9))), Err(Error::Os(9)));
    assert_eq!(answer(s.linger(&t), Reply::Opt(Err(9))), Err(Error::Os(9)));
    assert_eq!(answer(s.multicast_if_v4(&t), Reply::Opt(Err(9))), Err(Error::Os(9)));
    assert_eq!(answer(s.set_ttl(&t, 3), Reply::Code(Err(22))), Err(Error::Os(22)));
    let error = Error::Os(22);
    assert_eq!(error.raw_os_error(), Some(22));
    assert_eq!(error.kind(), None);
    assert_eq!(error.message(), "");
}
