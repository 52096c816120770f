use socket2::cast::{
    i64_to_u32, i64_to_u64, int_to_u32, int_to_u64, int_to_usize, isize_to_usize, u32_to_int,
    u64_to_int, usize_to_int,
};
use socket2::error::Error;
use socket2::target::{Target, TimeWidth};
use socket2::time::{
    dur2linger, dur2timeval, linger2dur, poll_timeout, timeval2dur, Duration, Linger, Timeval,
};

fn narrow() -> Target {
    Target { time: TimeWidth::Bits32, ..Target::linux() }
}

fn wide() -> Target {
    Target { time: TimeWidth::Bits64, ..Target::linux() }
}

fn set(secs: u64, nanos: u32) -> Result<Timeval, Error> {
    dur2timeval(&wide(), Some(Duration::new(secs, nanos)))
}

#[test]
fn durations_carry_whole_seconds() {
    let d = Duration::new(1, 2_500_000_000);
    assert_eq!((d.as_secs(), d.subsec_nanos()), (3, 500_000_000));
    assert_eq!(Duration::from_secs(5), Duration::new(5, 0));
    assert_eq!(Duration::new(u64::MAX, 999_999_999).as_secs(), u64::MAX);
}

#[test]
fn durations_are_compared_and_subtracted() {
    let a = Duration::new(3, 100);
    let b = Duration::new(1, 200);
    assert!(a.at_least(&b));
    assert!(a.at_least(&a));
    assert!(!b.at_least(&a));
    assert_eq!(a.minus(&b), Duration::new(1, 999_999_900));
    assert_eq!(a.minus(&Duration::new(1, 50)), Duration::new(2, 50));
    assert_eq!(a.minus(&a), Duration::from_secs(0));
}

#[test]
fn timeouts_are_set_in_microseconds() {
    assert_eq!(set(2, 500_000_999), Ok(Timeval { tv_sec: 2, tv_usec: 500_000 }));
    assert_eq!(set(0, 1_000), Ok(Timeval { tv_sec: 0, tv_usec: 1 }));
    assert_eq!(set(7, 999), Ok(Timeval { tv_sec: 7, tv_usec: 0 }));
}

#[test]
fn a_short_timeout_is_not_rounded_to_none() {
    assert_eq!(set(0, 1), Ok(Timeval { tv_sec: 0, tv_usec: 1 }));
    assert_eq!(set(0, 999), Ok(Timeval { tv_sec: 0, tv_usec: 1 }));
}

#[test]
fn a_timeout_of_zero_is_refused() {
    assert_eq!(set(0, 0), Err(Error::ZeroTimeout));
    assert_eq!(Error::ZeroTimeout.message(), "cannot set a 0 duration timeout");
}

#[test]
fn no_timeout_is_zero() {
    let none = dur2timeval(&wide(), None);
    assert_eq!(none, Ok(Timeval { tv_sec: 0, tv_usec: 0 }));
    assert_eq!(timeval2dur(none.unwrap()), None);
}

#[test]
fn a_long_timeout_is_cut_to_what_fits() {
    assert_eq!(set(u64::MAX, 5_000), Ok(Timeval { tv_sec: i64::MAX, tv_usec: 5 }));
    let long = Some(Duration::new(0x8000_0000, 5_000));
    assert_eq!(dur2timeval(&narrow(), long), Ok(Timeval { tv_sec: 0x7fff_ffff, tv_usec: 5 }));
    assert_eq!(dur2timeval(&wide(), long), Ok(Timeval { tv_sec: 0x8000_0000, tv_usec: 5 }));
}

#[test]
fn timeouts_come_back() {
    for d in [Duration::new(1, 0), Duration::new(0, 1_000), Duration::new(9, 999_999_000)] {
        assert_eq!(timeval2dur(dur2timeval(&wide(), Some(d)).unwrap()), Some(d));
    }
    assert_eq!(timeval2dur(set(2, 500_000_999).unwrap()), Some(Duration::new(2, 500_000_000)));
    assert_eq!(timeval2dur(set(0, 1).unwrap()), Some(Duration::new(0, 1_000)));
}

#[test]
fn a_raw_timeout_is_read_as_c_reads_it() {
    let raw = Timeval { tv_sec: 1, tv_usec: 2_000_000 };
    assert!(raw.is_readable());
    assert_eq!(timeval2dur(raw), Some(Duration::new(3, 0)));
    let negative = Timeval { tv_sec: -1, tv_usec: 0 };
    assert!(negative.is_readable());
    assert_eq!(timeval2dur(negative), Some(Duration::new(u64::MAX, 0)));
    assert!(Timeval { tv_sec: 0, tv_usec: 4_294_967 }.is_readable());
    assert!(!Timeval { tv_sec: 0, tv_usec: 4_294_968 }.is_readable());
    assert!(!Timeval { tv_sec: 0, tv_usec: -1 }.is_readable());
    assert!(!Timeval { tv_sec: -1, tv_usec: 1_000_000 }.is_readable());
}

#[test]
fn a_timeout_that_was_read_is_set_as_it_was() {
    for raw in [
        Timeval { tv_sec: 0, tv_usec: 0 },
        Timeval { tv_sec: 0, tv_usec: 1 },
        Timeval { tv_sec: 5, tv_usec: 999_999 },
        Timeval { tv_sec: i64::MAX, tv_usec: 0 },
    ] {
        assert_eq!(dur2timeval(&wide(), timeval2dur(raw)), Ok(raw));
    }
}

#[test]
fn a_longer_timeout_is_no_shorter() {
    let rising = [(0, 1), (0, 999), (0, 2_500), (0, 999_999_999), (1, 0), (1, 1_000), (9, 0)];
    for pair in rising.windows(2) {
        let short = set(pair[0].0, pair[0].1).unwrap();
        let long = set(pair[1].0, pair[1].1).unwrap();
        assert!((short.tv_sec, short.tv_usec) <= (long.tv_sec, long.tv_usec));
    }
    let cut = set(i64::MAX as u64, 900_000_000).unwrap();
    let longer_but_cut = set(i64::MAX as u64 + 1, 0).unwrap();
    assert_eq!(cut, Timeval { tv_sec: i64::MAX, tv_usec: 900_000 });
    assert_eq!(longer_but_cut, Timeval { tv_sec: i64::MAX, tv_usec: 0 });
}

#[test]
fn linger_is_in_whole_seconds() {
    assert_eq!(dur2linger(None), Linger { l_onoff: 0, l_linger: 0 });
    let set = dur2linger(Some(Duration::new(10, 999_999_999)));
    assert_eq!(set, Linger { l_onoff: 1, l_linger: 10 });
    assert_eq!(linger2dur(set), Some(Duration::from_secs(10)));
    assert_eq!(linger2dur(Linger { l_onoff: 0, l_linger: 5 }), None);
    assert_eq!(linger2dur(Linger { l_onoff: 1, l_linger: 0 }), Some(Duration::from_secs(0)));
    assert_eq!(linger2dur(Linger { l_onoff: 2, l_linger: -1 }), Some(Duration::from_secs(u64::MAX)));
}

#[test]
fn a_linger_that_was_read_is_set_as_it_was() {
    for raw in [
        Linger { l_onoff: 0, l_linger: 0 },
        Linger { l_onoff: 1, l_linger: 0 },
        Linger { l_onoff: 1, l_linger: 30 },
        Linger { l_onoff: 1, l_linger: -1 },
    ] {
        assert_eq!(dur2linger(linger2dur(raw)), raw);
    }
}

#[test]
fn a_linger_too_long_is_cut_to_its_low_bits() {
    let set = dur2linger(Some(Duration::from_secs(0x1_0000_0003)));
    assert_eq!(set, Linger { l_onoff: 1, l_linger: 3 });
    let set = dur2linger(Some(Duration::from_secs(0x8000_0000)));
    assert_eq!(set, Linger { l_onoff: 1, l_linger: i32::MIN });
    assert_eq!(linger2dur(set), Some(Duration::from_secs(0xffff_ffff_8000_0000)));
}

#[test]
fn waits_are_in_milliseconds() {
    assert_eq!(poll_timeout(Duration::new(1, 999_999)), 1_000);
    assert_eq!(poll_timeout(Duration::new(1, 1_000_000)), 1_001);
    assert_eq!(poll_timeout(Duration::new(0, 1)), 1);
    assert_eq!(poll_timeout(Duration::new(0, 999_999)), 1);
    assert_eq!(poll_timeout(Duration::new(2_147_483, 647_000_000)), i32::MAX);
    assert_eq!(poll_timeout(Duration::new(2_147_483, 648_000_000)), i32::MAX);
    assert_eq!(poll_timeout(Duration::new(2_147_483, 646_000_000)), i32::MAX - 1);
    assert_eq!(poll_timeout(Duration::new(u64::MAX, 999_999_999)), i32::MAX);
}

#[test]
fn conversions_are_those_of_c() {
    assert_eq!(int_to_u32(-1), u32::MAX);
    assert_eq!(int_to_u32(7), 7);
    assert_eq!(int_to_u64(-1), u64::MAX);
    assert_eq!(int_to_u64(7), 7);
    assert_eq!(i64_to_u64(-1), u64::MAX);
    assert_eq!(i64_to_u32(-1), u32::MAX);
    assert_eq!(i64_to_u32(0x1_0000_0005), 5);
    assert_eq!(int_to_usize(-1), usize::MAX);
    assert_eq!(int_to_usize(7), 7);
    assert_eq!(isize_to_usize(-2), usize::MAX - 1);
    assert_eq!(isize_to_usize(7), 7);
    assert_eq!(u32_to_int(u32::MAX), -1);
    assert_eq!(u64_to_int(0x1_8000_0000), i32::MIN);
    assert_eq!(usize_to_int(0x8000_0000), i32::MIN);
    assert_eq!(usize_to_int(7), 7);
}
