//! What the C library fixes for a platform.

use libc::c_int;
use vstd::prelude::*;

verus! {

/// The systems between which the operations differ.
#[derive(Clone, Copy, Debug, PartialEq, Eq, Structural)]
pub enum TargetOs {
    Linux,
    MacOs,
    Haiku,
    Redox,
    Other,
}

/// The order of an integer's bytes in memory.
#[derive(Clone, Copy, Debug, PartialEq, Eq, Structural)]
pub enum Endian {
    Little,
    Big,
}

/// The width of a `time_t`.
#[derive(Clone, Copy, Debug, PartialEq, Eq, Structural)]
pub enum TimeWidth {
    Bits32,
    Bits64,
}

/// Where a socket address keeps its family.
#[derive(Clone, Copy, Debug, PartialEq, Eq, Structural)]
pub enum FamilyField {
    /// In the first two bytes.
    Wide,
    /// In the second byte, behind a byte for the length.
    Narrow,
}

/// The shape of socket addresses.
#[derive(Clone, Copy, Debug)]
pub struct Layout {
    pub family: FamilyField,
    /// The bytes of `sun_path`.
    pub sun_path: u16,
    /// The bytes of a `sockaddr_storage`.
    pub storage: u32,
}

/// Communication domains.
#[derive(Clone, Copy, Debug)]
pub struct Families {
    pub unspec: c_int,
    pub unix: c_int,
    pub inet: c_int,
    pub inet6: c_int,
    /// Read on Linux alone.
    pub packet: c_int,
}

/// Kinds of sockets, and the flags that may be joined to them.
#[derive(Clone, Copy, Debug)]
pub struct Types {
    pub stream: c_int,
    pub dgram: c_int,
    pub raw: c_int,
    pub rdm: c_int,
    pub seqpacket: c_int,
    pub nonblock: c_int,
    pub cloexec: c_int,
}

/// Protocols, which are the levels of their options too.
#[derive(Clone, Copy, Debug)]
pub struct Protocols {
    pub ip: c_int,
    pub ipv6: c_int,
    pub icmp: c_int,
    pub icmpv6: c_int,
    pub tcp: c_int,
    pub udp: c_int,
}

/// The error codes that an operation acts upon.
#[derive(Clone, Copy, Debug)]
pub struct Errnos {
    /// A signal interrupted the call.
    pub eintr: c_int,
    pub einval: c_int,
    pub einprogress: c_int,
    pub enosys: c_int,
}

/// The commands of `fcntl` and the flags that they read and write.
#[derive(Clone, Copy, Debug)]
pub struct Fcntl {
    pub dupfd: c_int,
    pub dupfd_cloexec: c_int,
    pub getfd: c_int,
    pub setfd: c_int,
    pub getfl: c_int,
    pub setfl: c_int,
    pub fd_cloexec: c_int,
    pub o_nonblock: c_int,
}

/// Numbers of `shutdown`, `recv` and `poll`.
#[derive(Clone, Copy, Debug)]
pub struct Transfer {
    pub shut_rd: c_int,
    pub shut_wr: c_int,
    pub shut_rdwr: c_int,
    pub msg_peek: c_int,
    pub pollout: i16,
    pub pollhup: i16,
}

/// Options of every socket, with their level.
#[derive(Clone, Copy, Debug)]
pub struct SocketOptions {
    pub level: c_int,
    pub error: c_int,
    pub rcvtimeo: c_int,
    pub sndtimeo: c_int,
    pub broadcast: c_int,
    pub linger: c_int,
    pub reuseaddr: c_int,
    pub reuseport: c_int,
    pub rcvbuf: c_int,
    pub sndbuf: c_int,
    pub keepalive: c_int,
    pub oobinline: c_int,
}

/// Options of IPv4.
#[derive(Clone, Copy, Debug)]
pub struct IpOptions {
    pub ttl: c_int,
    pub multicast_loop: c_int,
    pub multicast_ttl: c_int,
    pub multicast_if: c_int,
    pub add_membership: c_int,
    pub drop_membership: c_int,
}

/// Options of IPv6.
#[derive(Clone, Copy, Debug)]
pub struct Ipv6Options {
    pub unicast_hops: c_int,
    pub v6only: c_int,
    pub multicast_hops: c_int,
    pub multicast_if: c_int,
    pub multicast_loop: c_int,
    pub add_membership: c_int,
    pub drop_membership: c_int,
}

/// Options of TCP.
#[derive(Clone, Copy, Debug)]
pub struct TcpOptions {
    pub nodelay: c_int,
    /// The idle time after which keepalive probes start.
    pub keepidle: c_int,
}

/// A platform.
#[derive(Clone, Copy, Debug)]
pub struct Target {
    pub os: TargetOs,
    pub endian: Endian,
    pub time: TimeWidth,
    pub layout: Layout,
    pub family: Families,
    pub ty: Types,
    pub protocol: Protocols,
    pub errno: Errnos,
    pub fcntl: Fcntl,
    pub transfer: Transfer,
    pub socket: SocketOptions,
    /// The option that keeps `SIGPIPE` from being raised, where a socket has
    /// to be told so.
    pub nosigpipe: Option<c_int>,
    pub ip: IpOptions,
    pub ipv6: Ipv6Options,
    pub tcp: TcpOptions,
}

} // verus!
