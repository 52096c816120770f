//! Linux as a [`Target`], read from the `libc` crate.
//!
//! A few of the numbers differ between the architectures that Linux runs on.
//! Of those, only the values that they have on some architecture are stated,
//! table by table: on 64-bit MIPS the crate has the errors of MIPS beside
//! options of the common table.

use vstd::prelude::*;

use crate::target::{
    Endian, Errnos, Families, FamilyField, Fcntl, IpOptions, Ipv6Options, Layout, Protocols,
    SocketOptions, Target, TargetOs, TcpOptions, TimeWidth, Transfer, Types,
};

verus! {

/// The numbers of the communication domains on Linux.
pub open spec fn linux_families() -> Families {
    Families { unspec: 0, unix: 1, inet: 2, inet6: 10, packet: 17 }
}

/// `t` has the numbers of the socket types on an architecture of Linux: on
/// MIPS the first two are swapped, and MIPS and SPARC number the flags
/// otherwise.
pub open spec fn linux_types(t: Types) -> bool {
    &&& t.raw == 3
    &&& t.rdm == 4
    &&& t.seqpacket == 5
    &&& {
        ||| (t.stream, t.dgram, t.nonblock, t.cloexec) == (1i32, 2i32, 0x800i32, 0x8_0000i32)
        ||| (t.stream, t.dgram, t.nonblock, t.cloexec) == (2i32, 1i32, 0x80i32, 0x8_0000i32)
        ||| (t.stream, t.dgram, t.nonblock, t.cloexec) == (1i32, 2i32, 0x4000i32, 0x40_0000i32)
    }
}

/// The numbers of the protocols.
pub open spec fn linux_protocols() -> Protocols {
    Protocols { ip: 0, ipv6: 41, icmp: 1, icmpv6: 58, tcp: 6, udp: 17 }
}

/// `e` has the error codes of an architecture of Linux.
pub open spec fn linux_errnos(e: Errnos) -> bool {
    &&& e.eintr == 4
    &&& e.einval == 22
    &&& {
        ||| (e.einprogress, e.enosys) == (115i32, 38i32)
        ||| (e.einprogress, e.enosys) == (150i32, 89i32)
        ||| (e.einprogress, e.enosys) == (36i32, 90i32)
    }
}

/// `f` has the commands and flags of an architecture of Linux.
pub open spec fn linux_fcntl(f: Fcntl) -> bool {
    &&& f.dupfd == 0
    &&& f.dupfd_cloexec == 1030
    &&& f.getfd == 1
    &&& f.setfd == 2
    &&& f.getfl == 3
    &&& f.setfl == 4
    &&& f.fd_cloexec == 1
    &&& f.o_nonblock == 0x800 || f.o_nonblock == 0x80 || f.o_nonblock == 0x4000
}

/// The numbers of `shutdown`, `recv` and `poll` on Linux.
pub open spec fn linux_transfer() -> Transfer {
    Transfer { shut_rd: 0, shut_wr: 1, shut_rdwr: 2, msg_peek: 2, pollout: 4, pollhup: 0x10 }
}

/// `o` has the option numbers of an architecture of Linux, of which MIPS and
/// SPARC have a table of their own.
pub open spec fn linux_socket_options(o: SocketOptions) -> bool {
    ||| {
        &&& o.level == 1
        &&& o.error == 4
        &&& o.broadcast == 6
        &&& o.linger == 13
        &&& o.reuseaddr == 2
        &&& o.reuseport == 15
        &&& o.rcvbuf == 8
        &&& o.sndbuf == 7
        &&& o.keepalive == 9
        &&& o.oobinline == 10
        &&& {
            ||| (o.rcvtimeo, o.sndtimeo) == (20i32, 21i32)
            ||| (o.rcvtimeo, o.sndtimeo) == (18i32, 19i32)
            ||| (o.rcvtimeo, o.sndtimeo) == (66i32, 67i32)
        }
    }
    ||| {
        &&& o.level == 0xffff
        &&& o.error == 0x1007
        &&& o.broadcast == 0x20
        &&& o.linger == 0x80
        &&& o.reuseaddr == 0x4
        &&& o.reuseport == 0x200
        &&& o.rcvbuf == 0x1002
        &&& o.sndbuf == 0x1001
        &&& o.keepalive == 0x8
        &&& o.oobinline == 0x100
        &&& {
            ||| (o.rcvtimeo, o.sndtimeo) == (0x1006i32, 0x1005i32)
            ||| (o.rcvtimeo, o.sndtimeo) == (66i32, 67i32)
            ||| (o.rcvtimeo, o.sndtimeo) == (0x2000i32, 0x4000i32)
            ||| (o.rcvtimeo, o.sndtimeo) == (0x44i32, 0x45i32)
        }
    }
}

/// The numbers of the IPv4 options on Linux.
pub open spec fn linux_ip_options() -> IpOptions {
    IpOptions {
        ttl: 2,
        multicast_loop: 34,
        multicast_ttl: 33,
        multicast_if: 32,
        add_membership: 35,
        drop_membership: 36,
    }
}

/// The numbers of the IPv6 options on Linux.
pub open spec fn linux_ipv6_options() -> Ipv6Options {
    Ipv6Options {
        unicast_hops: 16,
        v6only: 26,
        multicast_hops: 18,
        multicast_if: 17,
        multicast_loop: 19,
        add_membership: 20,
        drop_membership: 21,
    }
}

/// The numbers of the TCP options on Linux.
pub open spec fn linux_tcp_options() -> TcpOptions {
    TcpOptions { nodelay: 1, keepidle: 4 }
}

/// The values of `libc::AF_*`, which are the same on every Linux.
#[verifier::external_body]
fn libc_families() -> (f: Families)
    ensures
        f == linux_families(),
{
    Families {
        unspec: libc::AF_UNSPEC,
        unix: libc::AF_UNIX,
        inet: libc::AF_INET,
        inet6: libc::AF_INET6,
        packet: libc::AF_PACKET,
    }
}

/// The values of `libc::SOCK_*`.  That they are those of one of the
/// architectures is stated, but not of which.
#[verifier::external_body]
fn libc_types() -> (t: Types)
    ensures
        linux_types(t),
{
    Types {
        stream: libc::SOCK_STREAM,
        dgram: libc::SOCK_DGRAM,
        raw: libc::SOCK_RAW,
        rdm: libc::SOCK_RDM,
        seqpacket: libc::SOCK_SEQPACKET,
        nonblock: libc::SOCK_NONBLOCK,
        cloexec: libc::SOCK_CLOEXEC,
    }
}

/// The values of `libc::IPPROTO_*`, which are the same on every Unix.
#[verifier::external_body]
fn libc_protocols() -> (p: Protocols)
    ensures
        p == linux_protocols(),
{
    Protocols {
        ip: libc::IPPROTO_IP,
        ipv6: libc::IPPROTO_IPV6,
        icmp: libc::IPPROTO_ICMP,
        icmpv6: libc::IPPROTO_ICMPV6,
        tcp: libc::IPPROTO_TCP,
        udp: libc::IPPROTO_UDP,
    }
}

/// The values of `libc::EINTR` and `libc::EINVAL`, which are the same on every
/// Linux, and of `libc::EINPROGRESS` and `libc::ENOSYS`.  That those are of one
/// of the architectures is stated, but not of which.
#[verifier::external_body]
fn libc_errnos() -> (e: Errnos)
    ensures
        linux_errnos(e),
{
    Errnos {
        eintr: libc::EINTR,
        einval: libc::EINVAL,
        einprogress: libc::EINPROGRESS,
        enosys: libc::ENOSYS,
    }
}

/// The values of `libc::F_*`, `libc::FD_CLOEXEC` and `libc::O_NONBLOCK`, of
/// which the last differs between architectures.
#[verifier::external_body]
fn libc_fcntl() -> (f: Fcntl)
    ensures
        linux_fcntl(f),
{
    Fcntl {
        dupfd: libc::F_DUPFD,
        dupfd_cloexec: libc::F_DUPFD_CLOEXEC,
        getfd: libc::F_GETFD,
        setfd: libc::F_SETFD,
        getfl: libc::F_GETFL,
        setfl: libc::F_SETFL,
        fd_cloexec: libc::FD_CLOEXEC,
        o_nonblock: libc::O_NONBLOCK,
    }
}

/// The values of `libc::SHUT_*`, `libc::MSG_PEEK`, `libc::POLLOUT` and
/// `libc::POLLHUP`, which are the same on every Linux.
#[verifier::external_body]
fn libc_transfer() -> (t: Transfer)
    ensures
        t == linux_transfer(),
{
    Transfer {
        shut_rd: libc::SHUT_RD,
        shut_wr: libc::SHUT_WR,
        shut_rdwr: libc::SHUT_RDWR,
        msg_peek: libc::MSG_PEEK,
        pollout: libc::POLLOUT,
        pollhup: libc::POLLHUP,
    }
}

/// The values of `libc::SOL_SOCKET` and `libc::SO_*`.  That they are those of
/// one of the architectures is stated, but not of which.
#[verifier::external_body]
fn libc_socket_options() -> (o: SocketOptions)
    ensures
        linux_socket_options(o),
{
    SocketOptions {
        level: libc::SOL_SOCKET,
        error: libc::SO_ERROR,
        rcvtimeo: libc::SO_RCVTIMEO,
        sndtimeo: libc::SO_SNDTIMEO,
        broadcast: libc::SO_BROADCAST,
        linger: libc::SO_LINGER,
        reuseaddr: libc::SO_REUSEADDR,
        reuseport: libc::SO_REUSEPORT,
        rcvbuf: libc::SO_RCVBUF,
        sndbuf: libc::SO_SNDBUF,
        keepalive: libc::SO_KEEPALIVE,
        oobinline: libc::SO_OOBINLINE,
    }
}

/// The values of `libc::IP_*`, which are the same on every Linux.
#[verifier::external_body]
fn libc_ip_options() -> (o: IpOptions)
    ensures
        o == linux_ip_options(),
{
    IpOptions {
        ttl: libc::IP_TTL,
        multicast_loop: libc::IP_MULTICAST_LOOP,
        multicast_ttl: libc::IP_MULTICAST_TTL,
        multicast_if: libc::IP_MULTICAST_IF,
        add_membership: libc::IP_ADD_MEMBERSHIP,
        drop_membership: libc::IP_DROP_MEMBERSHIP,
    }
}

/// The values of `libc::IPV6_*`, which are the same on every Linux.
#[verifier::external_body]
fn libc_ipv6_options() -> (o: Ipv6Options)
    ensures
        o == linux_ipv6_options(),
{
    Ipv6Options {
        unicast_hops: libc::IPV6_UNICAST_HOPS,
        v6only: libc::IPV6_V6ONLY,
        multicast_hops: libc::IPV6_MULTICAST_HOPS,
        multicast_if: libc::IPV6_MULTICAST_IF,
        multicast_loop: libc::IPV6_MULTICAST_LOOP,
        add_membership: libc::IPV6_ADD_MEMBERSHIP,
        drop_membership: libc::IPV6_DROP_MEMBERSHIP,
    }
}

/// The values of `libc::TCP_NODELAY` and `libc::TCP_KEEPIDLE`, which are the
/// same on every Linux.
#[verifier::external_body]
fn libc_tcp_options() -> (o: TcpOptions)
    ensures
        o == linux_tcp_options(),
{
    TcpOptions { nodelay: libc::TCP_NODELAY, keepidle: libc::TCP_KEEPIDLE }
}

/// The size of `libc::sockaddr_un`: two bytes of family and 108 of path, none
/// of which is aligned to more than two.
#[verifier::external_body]
fn libc_sockaddr_un_size() -> (size: usize)
    ensures
        size == 110,
{
    std::mem::size_of::<libc::sockaddr_un>()
}

/// The size of `libc::sockaddr_storage`, which is padded to 128 bytes.
#[verifier::external_body]
fn libc_sockaddr_storage_size() -> (size: usize)
    ensures
        size == 128,
{
    std::mem::size_of::<libc::sockaddr_storage>()
}

/// `u16::from_ne_bytes`: the integer whose bytes in memory are `bytes`, in
/// the order of the machine.  Which of the two orders that is, is not stated.
#[verifier::external_body]
fn native_u16(bytes: [u8; 2]) -> (n: u16)
    ensures
        n == bytes@[0] + 0x100 * bytes@[1] || n == 0x100 * bytes@[0] + bytes@[1],
{
    u16::from_ne_bytes(bytes)
}

/// The byte order of the machine on which the bytes 1 and 0, in this order in
/// memory, are the integer `one`.
pub fn order_of(one: u16) -> (order: Endian)
    ensures
        order is Little <==> one == 1,
{
    if one == 1 {
        Endian::Little
    } else {
        Endian::Big
    }
}

/// `target` is Linux, on one of the architectures that Linux runs on.
pub open spec fn is_linux(target: Target) -> bool {
    &&& target.os is Linux
    &&& target.layout.family is Wide
    &&& target.layout.sun_path == 108
    &&& target.layout.storage == 128
    &&& target.family == linux_families()
    &&& linux_types(target.ty)
    &&& target.protocol == linux_protocols()
    &&& linux_errnos(target.errno)
    &&& linux_fcntl(target.fcntl)
    &&& target.transfer == linux_transfer()
    &&& linux_socket_options(target.socket)
    &&& target.nosigpipe is None
    &&& target.ip == linux_ip_options()
    &&& target.ipv6 == linux_ipv6_options()
    &&& target.tcp == linux_tcp_options()
}

impl Target {
    /// The Linux that this crate is built for.  Its architecture, its byte
    /// order and the width of its `time_t` are the machine's.
    pub fn linux() -> (target: Target)
        ensures
            is_linux(target),
            target.time is Bits64 <==> libc::time_t::BITS == 64,
    {
        let family_size: usize = 2;
        Target {
            os: TargetOs::Linux,
            endian: order_of(native_u16([1, 0])),
            time: if libc::time_t::BITS == 64 { TimeWidth::Bits64 } else { TimeWidth::Bits32 },
            layout: Layout {
                family: FamilyField::Wide,
                sun_path: (libc_sockaddr_un_size() - family_size) as u16,
                storage: libc_sockaddr_storage_size() as u32,
            },
            family: libc_families(),
            ty: libc_types(),
            protocol: libc_protocols(),
            errno: libc_errnos(),
            fcntl: libc_fcntl(),
            transfer: libc_transfer(),
            socket: libc_socket_options(),
            nosigpipe: None,
            ip: libc_ip_options(),
            ipv6: libc_ipv6_options(),
            tcp: libc_tcp_options(),
        }
    }
}

} // verus!
