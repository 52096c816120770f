//! Addresses of hosts and of sockets.

use vstd::prelude::*;

use crate::cast::int_to_u32;
use crate::error::Error;
use crate::target::{Endian, FamilyField, Target};

verus! {

/// An IPv4 address, by its four octets.
#[derive(Clone, Copy, Debug, PartialEq, Eq, Structural)]
pub struct Ipv4Addr {
    pub a: u8,
    pub b: u8,
    pub c: u8,
    pub d: u8,
}

impl Ipv4Addr {
    /// The address `a.b.c.d`.
    pub fn new(a: u8, b: u8, c: u8, d: u8) -> (addr: Ipv4Addr)
        ensures
            addr == (Ipv4Addr { a, b, c, d }),
    {
        Ipv4Addr { a, b, c, d }
    }
}

/// An IPv6 address, by its sixteen octets.
#[derive(Clone, Copy, Debug, PartialEq, Eq)]
pub struct Ipv6Addr {
    pub octets: [u8; 16],
}

/// The `in6_addr` of the C library.
#[derive(Clone, Copy, Debug, PartialEq, Eq)]
pub struct In6Addr {
    pub s6_addr: [u8; 16],
}

/// The `ip_mreq` of the C library: a group, and the interface to be a member
/// on.
#[derive(Clone, Copy, Debug, PartialEq, Eq, Structural)]
pub struct IpMreq {
    pub imr_multiaddr: u32,
    pub imr_interface: u32,
}

/// The `ipv6_mreq` of the C library: a group, and the index of the interface
/// to be a member on.
#[derive(Clone, Copy, Debug, PartialEq, Eq)]
pub struct Ipv6Mreq {
    pub ipv6mr_multiaddr: In6Addr,
    pub ipv6mr_interface: u32,
}

/// The integer whose four bytes in memory are `m0` to `m3`.
pub open spec fn word(endian: Endian, m0: u8, m1: u8, m2: u8, m3: u8) -> u32 {
    (match endian {
        Endian::Little => m0 + 0x100 * m1 + 0x1_0000 * m2 + 0x100_0000 * m3,
        Endian::Big => 0x100_0000 * m0 + 0x1_0000 * m1 + 0x100 * m2 + m3,
    }) as u32
}

/// The `in_addr_t` of an address, whose bytes in memory are the octets.
pub open spec fn s_addr(endian: Endian, addr: Ipv4Addr) -> u32 {
    word(endian, addr.a, addr.b, addr.c, addr.d)
}

/// Turns an address into an `in_addr_t`.
pub fn to_s_addr(target: &Target, addr: &Ipv4Addr) -> (n: u32)
    ensures
        n == s_addr(target.endian, *addr),
{
    let (a, b, c, d): (u32, u32, u32, u32) = (
        addr.a as u32,
        addr.b as u32,
        addr.c as u32,
        addr.d as u32,
    );
    match target.endian {
        Endian::Little => a + 0x100 * b + 0x1_0000 * c + 0x100_0000 * d,
        Endian::Big => 0x100_0000 * a + 0x1_0000 * b + 0x100 * c + d,
    }
}

/// The address whose octets are the bytes of `in_addr` in memory.
pub open spec fn addr_of(endian: Endian, in_addr: u32) -> Ipv4Addr {
    let low = (in_addr % 0x100) as u8;
    let mid_low = (in_addr / 0x100 % 0x100) as u8;
    let mid_high = (in_addr / 0x1_0000 % 0x100) as u8;
    let high = (in_addr / 0x100_0000) as u8;
    match endian {
        Endian::Little => Ipv4Addr { a: low, b: mid_low, c: mid_high, d: high },
        Endian::Big => Ipv4Addr { a: high, b: mid_high, c: mid_low, d: low },
    }
}

/// Turns an `in_addr_t` into an address.
pub fn from_s_addr(target: &Target, in_addr: u32) -> (addr: Ipv4Addr)
    ensures
        addr == addr_of(target.endian, in_addr),
{
    let low: u8 = (in_addr % 0x100) as u8;
    let mid_low: u8 = (in_addr / 0x100 % 0x100) as u8;
    let mid_high: u8 = (in_addr / 0x1_0000 % 0x100) as u8;
    let high: u8 = (in_addr / 0x100_0000) as u8;
    match target.endian {
        Endian::Little => Ipv4Addr { a: low, b: mid_low, c: mid_high, d: high },
        Endian::Big => Ipv4Addr { a: high, b: mid_high, c: mid_low, d: low },
    }
}

/// Turns an address into an `in6_addr`, whose bytes are the octets.
pub fn to_in6_addr(addr: &Ipv6Addr) -> (ret: In6Addr)
    ensures
        ret == (In6Addr { s6_addr: addr.octets }),
{
    In6Addr { s6_addr: addr.octets }
}

/// Turns the index of an interface into the field of an `ipv6_mreq`, which has
/// the same 32 bits.
pub fn to_ipv6mr_interface(value: u32) -> (r: u32)
    ensures
        r == value,
{
    value
}

/// The address of a socket: bytes, of which the first `len` count.
#[derive(Debug, PartialEq, Eq)]
pub struct SockAddr {
    pub storage: Vec<u8>,
    pub len: u32,
}

impl View for SockAddr {
    type V = Seq<u8>;

    /// The bytes that count.
    open spec fn view(&self) -> Seq<u8> {
        self.storage@.take(self.len as int)
    }
}

/// The bytes of the family in front of a Unix address.
pub open spec fn family_bytes(target: Target) -> Seq<u8> {
    let family = target.family.unix as int % 0x1_0000;
    let low = (family % 0x100) as u8;
    let high = (family / 0x100) as u8;
    match (target.layout.family, target.endian) {
        (FamilyField::Wide, Endian::Little) => seq![low, high],
        (FamilyField::Wide, Endian::Big) => seq![high, low],
        (FamilyField::Narrow, _) => seq![0u8, low],
    }
}

/// The bytes of a Unix address: the family, the path, and a zero that ends
/// it, unless the path is empty or is a name that itself starts with a zero.
pub open spec fn unix_bytes(target: Target, path: Seq<u8>) -> Seq<u8> {
    family_bytes(target) + path + if path.len() > 0 && path[0] != 0 {
        seq![0u8]
    } else {
        seq![]
    }
}

impl SockAddr {
    /// The bytes that count are there.
    pub open spec fn wf(self) -> bool {
        self.len <= self.storage@.len()
    }

    /// The address in the first `len` bytes of `storage`.
    pub fn from_raw_parts(storage: Vec<u8>, len: u32) -> (addr: SockAddr)
        requires
            len <= storage@.len(),
        ensures
            addr == (SockAddr { storage, len }),
            addr.wf(),
            addr@ == storage@.take(len as int),
    {
        SockAddr { storage, len }
    }

    /// The number of bytes that count.
    pub fn len(&self) -> (len: u32)
        ensures
            len == self.len,
            self.wf() ==> len == self@.len(),
    {
        self.len
    }

    /// The Unix address of `path`, which has to be shorter than the room for
    /// it.
    pub fn unix(target: &Target, path: &[u8]) -> (r: Result<SockAddr, Error>)
        ensures
            match r {
                Ok(addr) => {
                    &&& path@.len() < target.layout.sun_path
                    &&& addr.wf()
                    &&& addr@ == unix_bytes(*target, path@)
                    &&& addr.len == unix_bytes(*target, path@).len()
                },
                Err(e) => path@.len() >= target.layout.sun_path && e == Error::PathTooLong,
            },
    {
        if path.len() >= target.layout.sun_path as usize {
            return Err(Error::PathTooLong);
        }
        let family: u32 = int_to_u32(target.family.unix) % 0x1_0000;
        let low: u8 = (family % 0x100) as u8;
        let high: u8 = (family / 0x100) as u8;
        let mut bytes: Vec<u8> = match (target.layout.family, target.endian) {
            (FamilyField::Wide, Endian::Little) => vec![low, high],
            (FamilyField::Wide, Endian::Big) => vec![high, low],
            (FamilyField::Narrow, _) => vec![0u8, low],
        };
        assert(bytes@ =~= family_bytes(*target));
        bytes.extend_from_slice(path);
        if path.len() > 0 && path[0] != 0 {
            bytes.push(0);
        }
        assert(bytes@ =~= unix_bytes(*target, path@));
        let len: u32 = bytes.len() as u32;
        assert(bytes@.take(len as int) =~= bytes@);
        Ok(SockAddr::from_raw_parts(bytes, len))
    }
}

} // verus!
