use socket2::kind::{Domain, Protocol, Type};
use socket2::linux::order_of;
use socket2::target::{Endian, FamilyField, Target, TargetOs, TimeWidth};

#[test]
fn linux_is_what_the_c_library_says() {
    let t = Target::linux();
    assert_eq!(t.os, TargetOs::Linux);
    assert_eq!(t.endian == Endian::Little, u16::from_le_bytes([1, 0]).to_ne_bytes() == [1, 0]);
    assert_eq!(t.time == TimeWidth::Bits64, std::mem::size_of::<libc::time_t>() == 8);
    assert_eq!(t.layout.family, FamilyField::Wide);
    assert_eq!(t.layout.sun_path as usize, std::mem::size_of::<libc::sockaddr_un>() - 2);
    assert_eq!(t.layout.sun_path, 108);
    assert_eq!(t.layout.storage as usize, std::mem::size_of::<libc::sockaddr_storage>());
    assert_eq!(t.layout.storage, 128);
    assert_eq!(t.nosigpipe, None);
}

#[test]
fn the_byte_order_shows_in_memory() {
    assert_eq!(order_of(u16::from_le_bytes([1, 0])), Endian::Little);
    assert_eq!(order_of(u16::from_be_bytes([1, 0])), Endian::Big);
    assert_eq!(Target::linux().endian, order_of(u16::from_ne_bytes([1, 0])));
}

#[test]
fn linux_families_and_types() {
    let t = Target::linux();
    assert_eq!(t.family.unspec, libc::AF_UNSPEC);
    assert_eq!(t.family.unix, libc::AF_UNIX);
    assert_eq!(t.family.inet, libc::AF_INET);
    assert_eq!(t.family.inet6, libc::AF_INET6);
    assert_eq!(t.family.packet, libc::AF_PACKET);
    assert_eq!(t.ty.stream, libc::SOCK_STREAM);
    assert_eq!(t.ty.dgram, libc::SOCK_DGRAM);
    assert_eq!(t.ty.raw, libc::SOCK_RAW);
    assert_eq!(t.ty.rdm, libc::SOCK_RDM);
    assert_eq!(t.ty.seqpacket, libc::SOCK_SEQPACKET);
    assert_eq!(t.ty.nonblock, libc::SOCK_NONBLOCK);
    assert_eq!(t.ty.cloexec, libc::SOCK_CLOEXEC);
}

#[test]
fn linux_protocols_and_errors() {
    let t = Target::linux();
    assert_eq!(t.protocol.ip, libc::IPPROTO_IP);
    assert_eq!(t.protocol.ipv6, libc::IPPROTO_IPV6);
    assert_eq!(t.protocol.icmp, libc::IPPROTO_ICMP);
    assert_eq!(t.protocol.icmpv6, libc::IPPROTO_ICMPV6);
    assert_eq!(t.protocol.tcp, libc::IPPROTO_TCP);
    assert_eq!(t.protocol.udp, libc::IPPROTO_UDP);
    assert_eq!(t.errno.eintr, libc::EINTR);
    assert_eq!(t.errno.einval, libc::EINVAL);
    assert_eq!(t.errno.einprogress, libc::EINPROGRESS);
    assert_eq!(t.errno.enosys, libc::ENOSYS);
}

#[test]
fn linux_commands_and_flags() {
    let t = Target::linux();
    assert_eq!(t.fcntl.dupfd, libc::F_DUPFD);
    assert_eq!(t.fcntl.dupfd_cloexec, libc::F_DUPFD_CLOEXEC);
    assert_eq!(t.fcntl.getfd, libc::F_GETFD);
    assert_eq!(t.fcntl.setfd, libc::F_SETFD);
    assert_eq!(t.fcntl.getfl, libc::F_GETFL);
    assert_eq!(t.fcntl.setfl, libc::F_SETFL);
    assert_eq!(t.fcntl.fd_cloexec, libc::FD_CLOEXEC);
    assert_eq!(t.fcntl.o_nonblock, libc::O_NONBLOCK);
    assert_eq!(t.transfer.shut_rd, libc::SHUT_RD);
    assert_eq!(t.transfer.shut_wr, libc::SHUT_WR);
    assert_eq!(t.transfer.shut_rdwr, libc::SHUT_RDWR);
    assert_eq!(t.transfer.msg_peek, libc::MSG_PEEK);
    assert_eq!(t.transfer.pollout, libc::POLLOUT);
    assert_eq!(t.transfer.pollhup, libc::POLLHUP);
}

#[test]
fn linux_options() {
    let t = Target::linux();
    assert_eq!(t.socket.level, libc::SOL_SOCKET);
    assert_eq!(t.socket.error, libc::SO_ERROR);
    assert_eq!(t.socket.rcvtimeo, libc::SO_RCVTIMEO);
    assert_eq!(t.socket.sndtimeo, libc::SO_SNDTIMEO);
    assert_eq!(t.socket.broadcast, libc::SO_BROADCAST);
    assert_eq!(t.socket.linger, libc::SO_LINGER);
    assert_eq!(t.socket.reuseaddr, libc::SO_REUSEADDR);
    assert_eq!(t.socket.reuseport, libc::SO_REUSEPORT);
    assert_eq!(t.socket.rcvbuf, libc::SO_RCVBUF);
    assert_eq!(t.socket.sndbuf, libc::SO_SNDBUF);
    assert_eq!(t.socket.keepalive, libc::SO_KEEPALIVE);
    assert_eq!(t.socket.oobinline, libc::SO_OOBINLINE);
    assert_eq!(t.ip.ttl, libc::IP_TTL);
    assert_eq!(t.ip.multicast_loop, libc::IP_MULTICAST_LOOP);
    assert_eq!(t.ip.multicast_ttl, libc::IP_MULTICAST_TTL);
    assert_eq!(t.ip.multicast_if, libc::IP_MULTICAST_IF);
    assert_eq!(t.ip.add_membership, libc::IP_ADD_MEMBERSHIP);
    assert_eq!(t.ip.drop_membership, libc::IP_DROP_MEMBERSHIP);
    assert_eq!(t.ipv6.unicast_hops, libc::IPV6_UNICAST_HOPS);
    assert_eq!(t.ipv6.v6only, libc::IPV6_V6ONLY);
    assert_eq!(t.ipv6.multicast_hops, libc::IPV6_MULTICAST_HOPS);
    assert_eq!(t.ipv6.multicast_if, libc::IPV6_MULTICAST_IF);
    assert_eq!(t.ipv6.multicast_loop, libc::IPV6_MULTICAST_LOOP);
    assert_eq!(t.ipv6.add_membership, libc::IPV6_ADD_MEMBERSHIP);
    assert_eq!(t.ipv6.drop_membership, libc::IPV6_DROP_MEMBERSHIP);
    assert_eq!(t.tcp.nodelay, libc::TCP_NODELAY);
    assert_eq!(t.tcp.keepidle, libc::TCP_KEEPIDLE);
}

#[test]
fn domains_have_names() {
    let t = Target::linux();
    assert!(Domain::unix(&t) == Domain(libc::AF_UNIX));
    assert!(Domain::packet(&t) == Domain(libc::AF_PACKET));
    assert_eq!(Domain(libc::AF_INET).name(&t), Some("AF_INET"));
    assert_eq!(Domain(libc::AF_INET6).name(&t), Some("AF_INET6"));
    assert_eq!(Domain::unix(&t).name(&t), Some("AF_UNIX"));
    assert_eq!(Domain::packet(&t).name(&t), Some("AF_PACKET"));
    assert_eq!(Domain(libc::AF_UNSPEC).name(&t), Some("AF_UNSPEC"));
    assert_eq!(Domain(500).name(&t), None);

    let redox = Target { os: TargetOs::Redox, ..t };
    assert_eq!(Domain(libc::AF_UNSPEC).name(&redox), None);
    assert_eq!(Domain(libc::AF_PACKET).name(&redox), None);
    assert_eq!(Domain(libc::AF_UNIX).name(&redox), Some("AF_UNIX"));
}

#[test]
fn types_have_names() {
    let t = Target::linux();
    assert_eq!(Type(libc::SOCK_STREAM).name(&t), Some("SOCK_STREAM"));
    assert_eq!(Type(libc::SOCK_DGRAM).name(&t), Some("SOCK_DGRAM"));
    assert_eq!(Type(libc::SOCK_RAW).name(&t), Some("SOCK_RAW"));
    assert_eq!(Type(libc::SOCK_RDM).name(&t), Some("SOCK_RDM"));
    assert_eq!(Type(libc::SOCK_SEQPACKET).name(&t), Some("SOCK_SEQPACKET"));
    assert_eq!(Type(libc::SOCK_STREAM).cloexec(&t).name(&t), None);

    let haiku = Target { os: TargetOs::Haiku, ..t };
    assert_eq!(Type(libc::SOCK_RDM).name(&haiku), None);
    assert_eq!(Type(libc::SOCK_RAW).name(&haiku), Some("SOCK_RAW"));
    let redox = Target { os: TargetOs::Redox, ..t };
    assert_eq!(Type(libc::SOCK_RAW).name(&redox), None);
    assert_eq!(Type(libc::SOCK_SEQPACKET).name(&redox), None);
    assert_eq!(Type(libc::SOCK_DGRAM).name(&redox), Some("SOCK_DGRAM"));
}

#[test]
fn protocols_have_names() {
    let t = Target::linux();
    assert_eq!(Protocol(libc::IPPROTO_ICMP).name(&t), Some("IPPROTO_ICMP"));
    assert_eq!(Protocol(libc::IPPROTO_ICMPV6).name(&t), Some("IPPROTO_ICMPV6"));
    assert_eq!(Protocol(libc::IPPROTO_TCP).name(&t), Some("IPPROTO_TCP"));
    assert_eq!(Protocol(libc::IPPROTO_UDP).name(&t), Some("IPPROTO_UDP"));
    assert_eq!(Protocol(0).name(&t), None);
}

#[test]
fn flags_are_joined_to_a_type() {
    let t = Target::linux();
    let ty = Type(libc::SOCK_STREAM);
    assert!(ty.non_blocking(&t) == Type(libc::SOCK_STREAM | libc::SOCK_NONBLOCK));
    assert!(ty.cloexec(&t) == Type(libc::SOCK_STREAM | libc::SOCK_CLOEXEC));
    assert!(ty.cloexec(&t).non_blocking(&t) == ty.non_blocking(&t).cloexec(&t));
    assert!(ty.cloexec(&t).cloexec(&t) == ty.cloexec(&t));
}
