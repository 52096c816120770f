//! Spans of time, and the two forms in which socket options hold them.

use libc::c_int;
use vstd::prelude::*;

use crate::cast::{i64_to_u32, i64_to_u64, int_to_u64, u64_to_int};
use crate::error::Error;
use crate::target::{Target, TimeWidth};

verus! {

pub const NANOS_PER_SEC: u32 = 1_000_000_000;

/// A span of time, as whole seconds and the nanoseconds beyond them.
#[derive(Clone, Copy, Debug, PartialEq, Eq, Structural)]
pub struct Duration {
    pub secs: u64,
    pub nanos: u32,
}

/// The `timeval` of the C library.
#[derive(Clone, Copy, Debug, PartialEq, Eq, Structural)]
pub struct Timeval {
    pub tv_sec: i64,
    pub tv_usec: i64,
}

/// The `linger` of the C library.
#[derive(Clone, Copy, Debug, PartialEq, Eq, Structural)]
pub struct Linger {
    pub l_onoff: c_int,
    pub l_linger: c_int,
}

impl View for Duration {
    type V = nat;

    /// The length in nanoseconds.
    open spec fn view(&self) -> nat {
        (self.secs * NANOS_PER_SEC + self.nanos) as nat
    }
}

impl Duration {
    /// Less than one second lies beyond the whole seconds.
    pub open spec fn wf(self) -> bool {
        self.nanos < NANOS_PER_SEC
    }

    /// The duration of `n` nanoseconds.
    pub open spec fn of_nanos(n: nat) -> Duration {
        Duration {
            secs: (n / NANOS_PER_SEC as nat) as u64,
            nanos: (n % NANOS_PER_SEC as nat) as u32,
        }
    }

    /// The duration of `secs` seconds and `nanos` nanoseconds, of which whole
    /// seconds are carried over.
    pub fn new(secs: u64, nanos: u32) -> (d: Duration)
        requires
            secs + nanos / NANOS_PER_SEC <= u64::MAX,
        ensures
            d.wf(),
            d@ == secs * NANOS_PER_SEC + nanos,
            d == Duration::of_nanos((secs * NANOS_PER_SEC + nanos) as nat),
    {
        Duration {
            secs: secs + (nanos / NANOS_PER_SEC) as u64,
            nanos: nanos % NANOS_PER_SEC,
        }
    }

    /// The duration of `secs` seconds.
    pub fn from_secs(secs: u64) -> (d: Duration)
        ensures
            d.wf(),
            d == (Duration { secs, nanos: 0 }),
    {
        Duration { secs, nanos: 0 }
    }

    /// The whole seconds.
    pub fn as_secs(&self) -> (secs: u64)
        ensures
            secs == self.secs,
            self.wf() ==> secs == self@ / NANOS_PER_SEC as nat,
    {
        self.secs
    }

    /// The nanoseconds beyond the whole seconds.
    pub fn subsec_nanos(&self) -> (nanos: u32)
        ensures
            nanos == self.nanos,
            self.wf() ==> nanos == self@ % NANOS_PER_SEC as nat,
    {
        self.nanos
    }

    /// Whether this is no shorter than `other`.
    pub fn at_least(&self, other: &Duration) -> (r: bool)
        requires
            self.wf(),
            other.wf(),
        ensures
            r == (self@ >= other@),
    {
        self.secs > other.secs || (self.secs == other.secs && self.nanos >= other.nanos)
    }

    /// What is left of this after `other`.
    pub fn minus(&self, other: &Duration) -> (d: Duration)
        requires
            self.wf(),
            other.wf(),
            self@ >= other@,
        ensures
            d.wf(),
            d@ == self@ - other@,
    {
        if self.nanos >= other.nanos {
            Duration { secs: self.secs - other.secs, nanos: self.nanos - other.nanos }
        } else {
            Duration {
                secs: self.secs - other.secs - 1,
                nanos: self.nanos + (NANOS_PER_SEC - other.nanos),
            }
        }
    }
}

/// The largest number of seconds that a `time_t` of this width holds.
pub open spec fn max_time(width: TimeWidth) -> i64 {
    match width {
        TimeWidth::Bits32 => 0x7fff_ffff,
        TimeWidth::Bits64 => i64::MAX,
    }
}

/// `dur` in whole seconds, no more than a `time_t` holds.
pub open spec fn capped_secs(width: TimeWidth, dur: Duration) -> i64 {
    if dur.secs > max_time(width) {
        max_time(width)
    } else {
        dur.secs as i64
    }
}

/// What a timeout option is set to: nothing for no timeout; else the duration
/// in seconds and microseconds, rounded down, but never to zero.
pub open spec fn timeval_of(width: TimeWidth, dur: Option<Duration>) -> Timeval {
    match dur {
        None => Timeval { tv_sec: 0, tv_usec: 0 },
        Some(d) => {
            let secs = capped_secs(width, d);
            let usec = (d.nanos / 1000) as i64;
            Timeval { tv_sec: secs, tv_usec: if secs == 0 && usec == 0 { 1 } else { usec } }
        },
    }
}

/// Turns a timeout into the value of a timeout option.  A timeout of zero is
/// refused: to the system, zero means no timeout.
pub fn dur2timeval(target: &Target, dur: Option<Duration>) -> (r: Result<Timeval, Error>)
    ensures
        r == (if dur matches Some(d) && d.secs == 0 && d.nanos == 0 {
            Err(Error::ZeroTimeout)
        } else {
            Ok(timeval_of(target.time, dur))
        }),
{
    match dur {
        Some(dur) => {
            if dur.as_secs() == 0 && dur.subsec_nanos() == 0 {
                return Err(Error::ZeroTimeout);
            }
            let max: i64 = match target.time {
                TimeWidth::Bits32 => 0x7fff_ffff,
                TimeWidth::Bits64 => i64::MAX,
            };
            let secs: i64 = if dur.as_secs() > max as u64 { max } else { dur.as_secs() as i64 };
            let mut timeout = Timeval { tv_sec: secs, tv_usec: (dur.subsec_nanos() / 1000) as i64 };
            if timeout.tv_sec == 0 && timeout.tv_usec == 0 {
                timeout.tv_usec = 1;
            }
            Ok(timeout)
        },
        None => Ok(Timeval { tv_sec: 0, tv_usec: 0 }),
    }
}

/// The microseconds, taken as 32 bits, come to a number of nanoseconds that
/// fits into 32 bits, and the carried seconds into 64.
pub open spec fn readable(raw: Timeval) -> bool {
    let micros = crate::cast::u32_of(raw.tv_usec as int);
    &&& micros * 1000 <= u32::MAX
    &&& crate::cast::u64_of(raw.tv_sec as int) + (micros * 1000) / NANOS_PER_SEC as int <= u64::MAX
}

/// The timeout that the value of a timeout option stands for.
pub open spec fn timeout_of(raw: Timeval) -> Option<Duration> {
    if raw.tv_sec == 0 && raw.tv_usec == 0 {
        None
    } else {
        let secs = crate::cast::u64_of(raw.tv_sec as int);
        let micros = crate::cast::u32_of(raw.tv_usec as int);
        Some(Duration::of_nanos((secs * NANOS_PER_SEC + micros * 1000) as nat))
    }
}

impl Timeval {
    /// Whether [`timeval2dur`] can read this value.
    pub fn is_readable(&self) -> (r: bool)
        ensures
            r == readable(*self),
    {
        let micros: u32 = i64_to_u32(self.tv_usec);
        let secs: u64 = i64_to_u64(self.tv_sec);
        micros <= u32::MAX / 1000 && secs <= u64::MAX - (micros * 1000 / NANOS_PER_SEC) as u64
    }
}

/// Reads the value of a timeout option.
pub fn timeval2dur(raw: Timeval) -> (r: Option<Duration>)
    requires
        readable(raw),
    ensures
        r == timeout_of(raw),
{
    if raw.tv_sec == 0 && raw.tv_usec == 0 {
        None
    } else {
        let sec: u64 = i64_to_u64(raw.tv_sec);
        let nsec: u32 = i64_to_u32(raw.tv_usec) * 1000;
        Some(Duration::new(sec, nsec))
    }
}

/// How long a socket lingers, from the value of the linger option.
pub open spec fn linger_time(raw: Linger) -> Option<Duration> {
    if raw.l_onoff == 0 {
        None
    } else {
        Some(Duration { secs: crate::cast::u64_of(raw.l_linger as int), nanos: 0 })
    }
}

/// The value of the linger option for a time to linger, in whole seconds of
/// which the low 32 bits count.
pub open spec fn linger_of(dur: Option<Duration>) -> Linger {
    match dur {
        Some(d) => Linger { l_onoff: 1, l_linger: crate::cast::int_of(d.secs as int) },
        None => Linger { l_onoff: 0, l_linger: 0 },
    }
}

/// Reads the value of the linger option.
pub fn linger2dur(linger_opt: Linger) -> (r: Option<Duration>)
    ensures
        r == linger_time(linger_opt),
{
    if linger_opt.l_onoff == 0 {
        None
    } else {
        Some(Duration::from_secs(int_to_u64(linger_opt.l_linger)))
    }
}

/// Turns a time to linger into the value of the linger option.
pub fn dur2linger(dur: Option<Duration>) -> (r: Linger)
    ensures
        r == linger_of(dur),
{
    match dur {
        Some(d) => Linger { l_onoff: 1, l_linger: u64_to_int(d.as_secs()) },
        None => Linger { l_onoff: 0, l_linger: 0 },
    }
}

/// What is handed to `poll` for a wait of `nanos` nanoseconds: milliseconds,
/// rounded down, at least one and at most what a `c_int` holds.
pub open spec fn poll_millis(nanos: nat) -> c_int {
    let millis = nanos / 1_000_000;
    if millis == 0 {
        1
    } else if millis > c_int::MAX {
        c_int::MAX
    } else {
        millis as c_int
    }
}

/// The wait to hand to `poll` when `left` is left of a timeout.
pub fn poll_timeout(left: Duration) -> (millis: c_int)
    requires
        left.wf(),
    ensures
        millis == poll_millis(left@),
{
    let secs_as_millis: u64 = if left.as_secs() > u64::MAX / 1_000 {
        u64::MAX
    } else {
        left.as_secs() * 1_000
    };
    let mut millis: u64 = secs_as_millis.saturating_add(left.subsec_nanos() as u64 / 1_000_000);
    if millis == 0 {
        millis = 1;
    }
    if millis > c_int::MAX as u64 {
        c_int::MAX
    } else {
        millis as c_int
    }
}

} // verus!
