//! The values that cross the border: what each conversion gives, in numbers.

use libc::c_int;
use vstd::prelude::*;

use crate::addr::{
    from_s_addr, to_in6_addr, to_ipv6mr_interface, to_s_addr, In6Addr, Ipv4Addr, Ipv6Addr,
    SockAddr,
};
use crate::cast::{
    i64_to_u32, i64_to_u64, int_to_u32, int_to_u64, int_to_usize, isize_to_usize, u32_to_int,
    u64_to_int, usize_to_int,
};
use crate::error::{Error, ErrorKind};
use crate::kind::{Domain, Protocol, Type};
use crate::linux::order_of;
use crate::settings::{as_long, in_memory, lemma_carry, lemma_in_memory, low_bits, timeout_as};
use crate::target::{Endian, Target};
use crate::time::{
    dur2linger, dur2timeval, linger2dur, poll_timeout, timeval2dur, Duration, Linger, Timeval,
};

verus! {

/// A signed number is taken as unsigned by adding all that the wider range
/// holds, if it is negative.
pub proof fn law_signed_to_unsigned(
    n: c_int,
    long: i64,
    size: isize,
    n32: u32,
    n64: u64,
    long64: u64,
    n_size: usize,
    size_size: usize,
)
    requires
        call_ensures(int_to_u32, (n,), n32),
        call_ensures(int_to_u64, (n,), n64),
        call_ensures(i64_to_u64, (long,), long64),
        call_ensures(int_to_usize, (n,), n_size),
        call_ensures(isize_to_usize, (size,), size_size),
    ensures
        n >= 0 ==> n32 == n && n64 == n && n_size == n,
        n < 0 ==> n32 == n + 0x1_0000_0000,
        n < 0 ==> n64 == n + 0x1_0000_0000_0000_0000,
        n < 0 ==> n_size == n + usize::MAX + 1,
        long >= 0 ==> long64 == long,
        long < 0 ==> long64 == long + 0x1_0000_0000_0000_0000,
        size >= 0 ==> size_size == size,
        size < 0 ==> size_size == size + usize::MAX + 1,
{
}

/// A number is cut to its low 32 bits: what is lost is a multiple of what they
/// hold, and nothing is lost of a number that fits.
pub proof fn law_low_bits(
    n: u32,
    long: u64,
    size: usize,
    signed: i64,
    of_n: c_int,
    of_long: c_int,
    of_size: c_int,
    of_signed: u32,
)
    requires
        call_ensures(u32_to_int, (n,), of_n),
        call_ensures(u64_to_int, (long,), of_long),
        call_ensures(usize_to_int, (size,), of_size),
        call_ensures(i64_to_u32, (signed,), of_signed),
    ensures
        low_bits(n as int, of_n),
        low_bits(long as int, of_long),
        low_bits(size as int, of_size),
        (signed - of_signed) % 0x1_0000_0000 == 0,
{
}

/// A number that is taken as unsigned and back is the same.
pub proof fn law_cast_round_trip(n: c_int, unsigned: u32, back: c_int)
    requires
        call_ensures(int_to_u32, (n,), unsigned),
        call_ensures(u32_to_int, (unsigned,), back),
    ensures
        back == n,
{
}

/// The length of a duration is counted in nanoseconds.
pub proof fn law_duration_length(d: Duration)
    ensures
        d@ == d.secs * 1_000_000_000 + d.nanos,
        d.wf() <==> d.nanos < 1_000_000_000,
{
}

/// A duration that is made is as long as its parts together, with less than a
/// second beyond the whole ones, which are what it tells.
pub proof fn law_duration_is_made(
    secs: u64,
    nanos: u32,
    d: Duration,
    whole: u64,
    beyond: u32,
    of_secs: Duration,
)
    requires
        secs + nanos / 1_000_000_000 <= u64::MAX,
        call_ensures(Duration::new, (secs, nanos), d),
        call_ensures(Duration::as_secs, (&d,), whole),
        call_ensures(Duration::subsec_nanos, (&d,), beyond),
        call_ensures(Duration::from_secs, (secs,), of_secs),
    ensures
        call_requires(Duration::new, (secs, nanos)),
        d.secs * 1_000_000_000 + d.nanos == secs * 1_000_000_000 + nanos,
        d.nanos < 1_000_000_000,
        whole == d.secs,
        beyond == d.nanos,
        of_secs.secs == secs,
        of_secs.nanos == 0,
{
}

/// Durations are compared and subtracted as their lengths are.
pub proof fn law_duration_order(a: Duration, b: Duration, no_shorter: bool, left: Duration)
    requires
        a.nanos < 1_000_000_000,
        b.nanos < 1_000_000_000,
        call_ensures(Duration::at_least, (&a, &b), no_shorter),
        no_shorter ==> call_ensures(Duration::minus, (&a, &b), left),
    ensures
        call_requires(Duration::at_least, (&a, &b)),
        no_shorter ==> call_requires(Duration::minus, (&a, &b)),
        no_shorter <==> a.secs * 1_000_000_000 + a.nanos >= b.secs * 1_000_000_000 + b.nanos,
        no_shorter ==> left.nanos < 1_000_000_000,
        no_shorter ==> (left.secs * 1_000_000_000 + left.nanos) + (b.secs * 1_000_000_000
            + b.nanos) == a.secs * 1_000_000_000 + a.nanos,
{
}

/// A timeout is turned into seconds and microseconds; one of zero is refused,
/// and none is zero.
pub proof fn law_dur2timeval(target: &Target, dur: Option<Duration>, r: Result<Timeval, Error>)
    requires
        call_ensures(dur2timeval, (target, dur), r),
    ensures
        match dur {
            None => r == Ok::<Timeval, Error>(Timeval { tv_sec: 0, tv_usec: 0 }),
            Some(d) => if d.secs == 0 && d.nanos == 0 {
                r == Err::<Timeval, Error>(Error::ZeroTimeout)
            } else {
                r matches Ok(raw) && timeout_as(target.time, d, raw) && !(raw.tv_sec == 0
                    && raw.tv_usec == 0)
            },
        },
{
}

/// Which values of a timeout option can be read.
pub proof fn law_is_readable(raw: Timeval, r: bool, secs: int, micros: int)
    requires
        call_ensures(Timeval::is_readable, (&raw,), r),
        secs == if raw.tv_sec >= 0 {
            raw.tv_sec as int
        } else {
            raw.tv_sec + 0x1_0000_0000_0000_0000
        },
        micros == raw.tv_usec as int % 0x1_0000_0000,
    ensures
        r <==> micros * 1000 <= u32::MAX && secs + micros / 1_000_000 <= u64::MAX,
        raw.tv_sec >= 0 && 0 <= raw.tv_usec < 1_000_000 ==> r,
{
    assert((micros * 1000) / 1_000_000_000 == micros / 1_000_000);
}

/// A timeout option is read as so many seconds and microseconds, as unsigned
/// numbers; zero is none.
pub proof fn law_timeval2dur(raw: Timeval, secs: int, micros: int, r: Option<Duration>)
    requires
        secs == if raw.tv_sec >= 0 {
            raw.tv_sec as int
        } else {
            raw.tv_sec + 0x1_0000_0000_0000_0000
        },
        micros == raw.tv_usec as int % 0x1_0000_0000,
        micros * 1000 <= u32::MAX,
        secs + micros / 1_000_000 <= u64::MAX,
        call_ensures(timeval2dur, (raw,), r),
    ensures
        call_requires(timeval2dur, (raw,)),
        r is None <==> raw.tv_sec == 0 && raw.tv_usec == 0,
        r matches Some(d) ==> {
            &&& d.secs == secs + micros / 1_000_000
            &&& d.nanos == micros % 1_000_000 * 1000
        },
{
    lemma_carry(secs, micros);
}

/// A time to linger is turned into whole seconds, of which the low 32 bits
/// count, and read as an unsigned number of them.
pub proof fn law_linger(
    dur: Option<Duration>,
    set: Linger,
    raw: Linger,
    read: Option<Duration>,
)
    requires
        call_ensures(dur2linger, (dur,), set),
        call_ensures(linger2dur, (raw,), read),
    ensures
        dur is None ==> set.l_onoff == 0 && set.l_linger == 0,
        dur matches Some(d) ==> set.l_onoff == 1 && low_bits(d.secs as int, set.l_linger),
        raw.l_onoff == 0 ==> read == None::<Duration>,
        raw.l_onoff != 0 ==> read == Some(Duration { secs: as_long(raw.l_linger), nanos: 0 }),
{
}

/// The wait that is handed to `poll` is what is left, in whole milliseconds; one
/// at least, and the most that fits, if more is left.
pub proof fn law_poll_timeout(left: Duration, millis: c_int)
    requires
        left.nanos < 1_000_000_000,
        call_ensures(poll_timeout, (left,), millis),
    ensures
        call_requires(poll_timeout, (left,)),
        ({
            let nanos = left.secs * 1_000_000_000 + left.nanos;
            &&& nanos < 1_000_000 ==> millis == 1
            &&& 1_000_000 <= nanos < 0x8000_0000 * 1_000_000 ==> {
                &&& millis * 1_000_000 <= nanos
                &&& nanos < (millis + 1) * 1_000_000
            }
            &&& nanos >= 0x8000_0000 * 1_000_000 ==> millis == 0x7fff_ffff
        }),
{
}

/// An IPv4 address keeps its octets, in memory and back.
pub proof fn law_ipv4(
    target: &Target,
    a: u8,
    b: u8,
    c: u8,
    d: u8,
    addr: Ipv4Addr,
    n: u32,
    raw: u32,
    from_raw: Ipv4Addr,
)
    requires
        call_ensures(Ipv4Addr::new, (a, b, c, d), addr),
        call_ensures(to_s_addr, (target, &addr), n),
        call_ensures(from_s_addr, (target, raw), from_raw),
    ensures
        (addr.a, addr.b, addr.c, addr.d) == (a, b, c, d),
        in_memory(target.endian, n, addr),
        in_memory(target.endian, raw, from_raw),
{
    lemma_in_memory(target.endian, addr);
}

/// An IPv6 address keeps its octets, and an interface its index.
pub proof fn law_ipv6(addr: Ipv6Addr, ret: In6Addr, value: u32, index: u32)
    requires
        call_ensures(to_in6_addr, (&addr,), ret),
        call_ensures(to_ipv6mr_interface, (value,), index),
    ensures
        ret.s6_addr@ == addr.octets@,
        index == value,
{
}

/// The byte order is little where the first byte in memory is the low one.
pub proof fn law_order(one: u16, order: Endian)
    requires
        call_ensures(order_of, (one,), order),
    ensures
        one == 1 ==> order is Little,
        one != 1 ==> order is Big,
{
}

/// An address of a socket keeps its bytes, and the number of them that count.
pub proof fn law_raw_parts(storage: Vec<u8>, len: u32, addr: SockAddr, told: u32)
    requires
        len <= storage@.len(),
        call_ensures(SockAddr::from_raw_parts, (storage, len), addr),
        call_ensures(SockAddr::len, (&addr,), told),
    ensures
        call_requires(SockAddr::from_raw_parts, (storage, len)),
        addr.storage@ == storage@,
        addr.len == len,
        told == len,
        addr@ == storage@.take(len as int),
{
}

/// A Unix address has the family in its first two bytes, the path behind it,
/// and a zero at the end, if the path is there and does not begin with a zero.
/// It is refused just when the path does not leave room for one byte more.
pub proof fn law_unix(target: &Target, path: &[u8], r: Result<SockAddr, Error>)
    requires
        call_ensures(SockAddr::unix, (target, path), r),
    ensures
        path@.len() >= target.layout.sun_path ==> r == Err::<SockAddr, Error>(Error::PathTooLong),
        path@.len() < target.layout.sun_path ==> (r matches Ok(addr) && {
            let family = target.family.unix as int % 0x1_0000;
            let bytes = addr.storage@;
            let ended = path@.len() > 0 && path@[0] != 0;
            &&& addr.len <= bytes.len()
            &&& addr.len == 2 + path@.len() + if ended { 1int } else { 0 }
            &&& target.layout.family is Wide && target.endian is Little ==> bytes[0] + 0x100
                * bytes[1] == family
            &&& target.layout.family is Wide && target.endian is Big ==> 0x100 * bytes[0]
                + bytes[1] == family
            &&& target.layout.family is Narrow ==> bytes[0] == 0 && bytes[1] == family % 0x100
            &&& forall|i: int| 0 <= i < path@.len() ==> #[trigger] bytes[2 + i] == path@[i]
            &&& ended ==> bytes[2 + path@.len() as int] == 0
        }),
{
    if let Ok(addr) = r {
        let bytes = addr.storage@;
        assert forall|i: int| 0 <= i < addr.len implies #[trigger] bytes[i] == addr@[i] by {}
    }
}

/// An error of the system has its code, and no other has one.
pub proof fn law_error(
    error: Error,
    code: Option<c_int>,
    kind: Option<ErrorKind>,
    text: &'static str,
)
    requires
        call_ensures(Error::raw_os_error, (&error,), code),
        call_ensures(Error::kind, (&error,), kind),
        call_ensures(Error::message, (&error,), text),
    ensures
        error matches Error::Os(c) ==> code == Some(c) && kind is None && text@ == ""@,
        !(error is Os) ==> code is None && kind is Some,
        error is PathTooLong ==> kind == Some(ErrorKind::InvalidInput) && text@
            == "path must be shorter than SUN_LEN"@,
        error is ZeroTimeout ==> kind == Some(ErrorKind::InvalidInput) && text@
            == "cannot set a 0 duration timeout"@,
        error is TimedOut ==> kind == Some(ErrorKind::TimedOut) && text@
            == "connection timed out"@,
        error is NoErrorSet ==> kind == Some(ErrorKind::Other) && text@
            == "no error set after POLLHUP"@,
{
}

/// `name` is `text`.
pub open spec fn is_named(name: Option<&'static str>, text: Seq<char>) -> bool {
    name matches Some(s) && s@ == text
}

/// A domain has the name of its number, and only the numbers that have names do.
pub proof fn law_domain(
    target: &Target,
    domain: Domain,
    name: Option<&'static str>,
    unix: Domain,
    packet: Domain,
)
    requires
        call_ensures(Domain::name, (&domain, target), name),
        call_ensures(Domain::unix, (target,), unix),
        target.os is Linux ==> call_ensures(Domain::packet, (target,), packet),
    ensures
        unix.0 == target.family.unix,
        target.os is Linux ==> call_requires(Domain::packet, (target,)),
        target.os is Linux ==> packet.0 == target.family.packet,
        ({
            let n = domain.0;
            let f = target.family;
            let inet = n == f.inet;
            let inet6 = !inet && n == f.inet6;
            let local = !inet && !inet6 && n == f.unix;
            let low = !inet && !inet6 && !local && target.os is Linux && n == f.packet;
            let none = !inet && !inet6 && !local && !low && !(target.os is Redox) && n == f.unspec;
            &&& inet ==> is_named(name, "AF_INET"@)
            &&& inet6 ==> is_named(name, "AF_INET6"@)
            &&& local ==> is_named(name, "AF_UNIX"@)
            &&& low ==> is_named(name, "AF_PACKET"@)
            &&& none ==> is_named(name, "AF_UNSPEC"@)
            &&& name is Some <==> inet || inet6 || local || low || none
        }),
{
}

/// A type has the name of its number, and only the numbers that have names do;
/// a flag is joined to it by its bits.
pub proof fn law_type(
    target: &Target,
    ty: Type,
    name: Option<&'static str>,
    unblocked: Type,
    marked: Type,
)
    requires
        call_ensures(Type::name, (&ty, target), name),
        call_ensures(Type::non_blocking, (ty, target), unblocked),
        call_ensures(Type::cloexec, (ty, target), marked),
    ensures
        unblocked.0 & target.ty.nonblock == target.ty.nonblock,
        unblocked.0 & !target.ty.nonblock == ty.0 & !target.ty.nonblock,
        marked.0 & target.ty.cloexec == target.ty.cloexec,
        marked.0 & !target.ty.cloexec == ty.0 & !target.ty.cloexec,
        ({
            let n = ty.0;
            let t = target.ty;
            let stream = n == t.stream;
            let dgram = !stream && n == t.dgram;
            let known = stream || dgram;
            let raw = !known && !(target.os is Redox) && n == t.raw;
            let rdm = !known && !raw && !(target.os is Redox) && !(target.os is Haiku) && n
                == t.rdm;
            let seqpacket = !known && !raw && !rdm && !(target.os is Redox) && n == t.seqpacket;
            &&& stream ==> is_named(name, "SOCK_STREAM"@)
            &&& dgram ==> is_named(name, "SOCK_DGRAM"@)
            &&& raw ==> is_named(name, "SOCK_RAW"@)
            &&& rdm ==> is_named(name, "SOCK_RDM"@)
            &&& seqpacket ==> is_named(name, "SOCK_SEQPACKET"@)
            &&& name is Some <==> known || raw || rdm || seqpacket
        }),
{
    let n = ty.0;
    let f = target.ty.nonblock;
    let c = target.ty.cloexec;
    assert((n | f) & f == f && (n | f) & !f == n & !f) by (bit_vector);
    assert((n | c) & c == c && (n | c) & !c == n & !c) by (bit_vector);
}

/// A protocol has the name of its number, and only the numbers that have names
/// do.
pub proof fn law_protocol(target: &Target, protocol: Protocol, name: Option<&'static str>)
    requires
        call_ensures(Protocol::name, (&protocol, target), name),
    ensures
        ({
            let n = protocol.0;
            let p = target.protocol;
            let icmp = n == p.icmp;
            let icmpv6 = !icmp && n == p.icmpv6;
            let tcp = !icmp && !icmpv6 && n == p.tcp;
            let udp = !icmp && !icmpv6 && !tcp && n == p.udp;
            &&& icmp ==> is_named(name, "IPPROTO_ICMP"@)
            &&& icmpv6 ==> is_named(name, "IPPROTO_ICMPV6"@)
            &&& tcp ==> is_named(name, "IPPROTO_TCP"@)
            &&& udp ==> is_named(name, "IPPROTO_UDP"@)
            &&& name is Some <==> icmp || icmpv6 || tcp || udp
        }),
{
}

} // verus!
