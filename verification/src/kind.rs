//! Domains, types and protocols.

use libc::c_int;
use vstd::prelude::*;

use crate::target::{Target, TargetOs};

verus! {

/// A communication domain.
#[derive(Clone, Copy, PartialEq, Eq, Structural)]
pub struct Domain(pub c_int);

/// A kind of socket.
#[derive(Clone, Copy, PartialEq, Eq, Structural)]
pub struct Type(pub c_int);

/// A protocol.
#[derive(Clone, Copy, PartialEq, Eq, Structural)]
pub struct Protocol(pub c_int);

/// The name of a domain that has one; the first that fits.
pub open spec fn name_of_domain(target: Target, n: c_int) -> Option<Seq<char>> {
    if n == target.family.inet {
        Some("AF_INET"@)
    } else if n == target.family.inet6 {
        Some("AF_INET6"@)
    } else if n == target.family.unix {
        Some("AF_UNIX"@)
    } else if target.os is Linux && n == target.family.packet {
        Some("AF_PACKET"@)
    } else if !(target.os is Redox) && n == target.family.unspec {
        Some("AF_UNSPEC"@)
    } else {
        None
    }
}

/// The name of a type that has one; the first that fits.
pub open spec fn name_of_type(target: Target, n: c_int) -> Option<Seq<char>> {
    if n == target.ty.stream {
        Some("SOCK_STREAM"@)
    } else if n == target.ty.dgram {
        Some("SOCK_DGRAM"@)
    } else if !(target.os is Redox) && n == target.ty.raw {
        Some("SOCK_RAW"@)
    } else if !(target.os is Redox) && !(target.os is Haiku) && n == target.ty.rdm {
        Some("SOCK_RDM"@)
    } else if !(target.os is Redox) && n == target.ty.seqpacket {
        Some("SOCK_SEQPACKET"@)
    } else {
        None
    }
}

/// The name of a protocol that has one; the first that fits.
pub open spec fn name_of_protocol(target: Target, n: c_int) -> Option<Seq<char>> {
    if n == target.protocol.icmp {
        Some("IPPROTO_ICMP"@)
    } else if n == target.protocol.icmpv6 {
        Some("IPPROTO_ICMPV6"@)
    } else if n == target.protocol.tcp {
        Some("IPPROTO_TCP"@)
    } else if n == target.protocol.udp {
        Some("IPPROTO_UDP"@)
    } else {
        None
    }
}

/// `name` is spelled as `spelling`.
pub open spec fn spelled(name: Option<&'static str>, spelling: Option<Seq<char>>) -> bool {
    match (name, spelling) {
        (Some(text), Some(chars)) => text@ == chars,
        (None, None) => true,
        _ => false,
    }
}

impl Domain {
    /// The domain of Unix socket communication.
    pub fn unix(target: &Target) -> (domain: Domain)
        ensures
            domain == Domain(target.family.unix),
    {
        Domain(target.family.unix)
    }

    /// The domain of the packet interface, on Linux.
    pub fn packet(target: &Target) -> (domain: Domain)
        requires
            target.os is Linux,
        ensures
            domain == Domain(target.family.packet),
    {
        Domain(target.family.packet)
    }

    /// The name of the domain, if it has one; else it is known by its number.
    pub fn name(&self, target: &Target) -> (name: Option<&'static str>)
        ensures
            spelled(name, name_of_domain(*target, self.0)),
    {
        let n: c_int = self.0;
        if n == target.family.inet {
            Some("AF_INET")
        } else if n == target.family.inet6 {
            Some("AF_INET6")
        } else if n == target.family.unix {
            Some("AF_UNIX")
        } else if target.os == TargetOs::Linux && n == target.family.packet {
            Some("AF_PACKET")
        } else if target.os != TargetOs::Redox && n == target.family.unspec {
            Some("AF_UNSPEC")
        } else {
            None
        }
    }
}

impl Type {
    /// The type with the flag that has calls not wait.
    pub fn non_blocking(self, target: &Target) -> (ty: Type)
        ensures
            ty == Type(self.0 | target.ty.nonblock),
    {
        Type(self.0 | target.ty.nonblock)
    }

    /// The type with the flag that has the socket closed on `exec`.
    pub fn cloexec(self, target: &Target) -> (ty: Type)
        ensures
            ty == Type(self.0 | target.ty.cloexec),
    {
        Type(self.0 | target.ty.cloexec)
    }

    /// The name of the type, if it has one; else it is known by its number.
    pub fn name(&self, target: &Target) -> (name: Option<&'static str>)
        ensures
            spelled(name, name_of_type(*target, self.0)),
    {
        let n: c_int = self.0;
        if n == target.ty.stream {
            Some("SOCK_STREAM")
        } else if n == target.ty.dgram {
            Some("SOCK_DGRAM")
        } else if target.os != TargetOs::Redox && n == target.ty.raw {
            Some("SOCK_RAW")
        } else if target.os != TargetOs::Redox && target.os != TargetOs::Haiku && n
            == target.ty.rdm {
            Some("SOCK_RDM")
        } else if target.os != TargetOs::Redox && n == target.ty.seqpacket {
            Some("SOCK_SEQPACKET")
        } else {
            None
        }
    }
}

impl Protocol {
    /// The name of the protocol, if it has one; else it is known by its
    /// number.
    pub fn name(&self, target: &Target) -> (name: Option<&'static str>)
        ensures
            spelled(name, name_of_protocol(*target, self.0)),
    {
        let n: c_int = self.0;
        if n == target.protocol.icmp {
            Some("IPPROTO_ICMP")
        } else if n == target.protocol.icmpv6 {
            Some("IPPROTO_ICMPV6")
        } else if n == target.protocol.tcp {
            Some("IPPROTO_TCP")
        } else if n == target.protocol.udp {
            Some("IPPROTO_UDP")
        } else {
            None
        }
    }
}

} // verus!
