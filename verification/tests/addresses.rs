use socket2::addr::{
    from_s_addr, to_in6_addr, to_ipv6mr_interface, to_s_addr, Ipv4Addr, Ipv6Addr, SockAddr,
};
use socket2::error::{Error, ErrorKind};
use socket2::target::{Endian, FamilyField, Layout, Target};

fn little() -> Target {
    Target { endian: Endian::Little, ..Target::linux() }
}

fn big() -> Target {
    Target { endian: Endian::Big, ..Target::linux() }
}

fn bytes_of(addr: &SockAddr) -> &[u8] {
    &addr.storage[..addr.len() as usize]
}

#[test]
fn test_ip() {
    let target = Target::linux();
    let ip = Ipv4Addr::new(127, 0, 0, 1);
    assert_eq!(ip, from_s_addr(&target, to_s_addr(&target, &ip)));

    let ip = Ipv4Addr::new(127, 34, 4, 12);
    let want = 127 << 0 | 34 << 8 | 4 << 16 | 12 << 24;
    assert_eq!(to_s_addr(&target, &ip), want);
    assert_eq!(from_s_addr(&target, want), ip);
}

#[test]
fn ip_of_a_big_endian_machine() {
    let ip = Ipv4Addr::new(127, 34, 4, 12);
    let want = 127 << 24 | 34 << 16 | 4 << 8 | 12 << 0;
    assert_eq!(to_s_addr(&big(), &ip), want);
    assert_eq!(from_s_addr(&big(), want), ip);
}

#[test]
fn bytes_in_memory_are_the_octets() {
    let ip = Ipv4Addr::new(224, 0, 0, 251);
    assert_eq!(to_s_addr(&Target::linux(), &ip).to_ne_bytes(), [224, 0, 0, 251]);
    assert_eq!(to_s_addr(&little(), &ip).to_le_bytes(), [224, 0, 0, 251]);
    assert_eq!(to_s_addr(&big(), &ip).to_be_bytes(), [224, 0, 0, 251]);
}

#[test]
fn every_in_addr_comes_back() {
    for target in [little(), big()] {
        for n in [0u32, 1, 0xff, 0x100, 0x0102_0304, 0x7fff_ffff, 0x8000_0000, u32::MAX] {
            assert_eq!(to_s_addr(&target, &from_s_addr(&target, n)), n);
        }
    }
}

#[test]
fn ipv6_keeps_its_octets() {
    let mut octets = [0u8; 16];
    octets[0] = 0xff;
    octets[1] = 0x02;
    octets[15] = 0xfb;
    assert_eq!(to_in6_addr(&Ipv6Addr { octets }).s6_addr, octets);
    assert_eq!(to_ipv6mr_interface(7), 7);
    assert_eq!(to_ipv6mr_interface(u32::MAX), u32::MAX);
}

#[test]
fn unix_address_of_a_path_ends_in_a_zero() {
    let addr = SockAddr::unix(&little(), b"/tmp/s").unwrap();
    assert_eq!(bytes_of(&addr), [1, 0, b'/', b't', b'm', b'p', b'/', b's', 0]);
    assert_eq!(addr.len(), 9);
}

#[test]
fn unix_address_of_a_name_has_no_zero_added() {
    let addr = SockAddr::unix(&little(), b"\0abc").unwrap();
    assert_eq!(bytes_of(&addr), [1, 0, 0, b'a', b'b', b'c']);
}

#[test]
fn unix_address_without_a_path() {
    let addr = SockAddr::unix(&little(), b"").unwrap();
    assert_eq!(bytes_of(&addr), [1, 0]);
    assert_eq!(addr.len(), 2);
}

#[test]
fn unix_address_keeps_the_family_where_the_platform_has_it() {
    let addr = SockAddr::unix(&big(), b"a").unwrap();
    assert_eq!(bytes_of(&addr), [0, 1, b'a', 0]);

    let linux = Target::linux();
    let narrow = Target {
        layout: Layout { family: FamilyField::Narrow, sun_path: 104, ..linux.layout },
        ..linux
    };
    let addr = SockAddr::unix(&narrow, b"a").unwrap();
    assert_eq!(bytes_of(&addr), [0, 1, b'a', 0]);
}

#[test]
fn unix_path_has_to_be_shorter_than_the_room() {
    let target = Target::linux();
    let longest = vec![b'x'; 107];
    let addr = SockAddr::unix(&target, &longest).unwrap();
    assert_eq!(addr.len(), 110);

    let error = SockAddr::unix(&target, &vec![b'x'; 108]).unwrap_err();
    assert_eq!(error, Error::PathTooLong);
    assert_eq!(error.kind(), Some(ErrorKind::InvalidInput));
    assert_eq!(error.message(), "path must be shorter than SUN_LEN");
    assert_eq!(error.raw_os_error(), None);
    assert!(SockAddr::unix(&target, &vec![0u8; 5000]).is_err());
}

#[test]
fn different_paths_have_different_addresses() {
    let target = Target::linux();
    let paths: [&[u8]; 6] = [b"", b"a", b"a\0", b"\0a", b"\0", b"aa"];
    for (i, p) in paths.iter().enumerate() {
        for (j, q) in paths.iter().enumerate() {
            let p = SockAddr::unix(&target, p).unwrap();
            let q = SockAddr::unix(&target, q).unwrap();
            assert_eq!(bytes_of(&p) == bytes_of(&q), i == j);
        }
    }
}

#[test]
fn raw_parts_are_kept() {
    let addr = SockAddr::from_raw_parts(vec![2, 0, 0, 80, 127, 0, 0, 1, 9, 9], 8);
    assert_eq!(addr.len(), 8);
    assert_eq!(bytes_of(&addr), [2, 0, 0, 80, 127, 0, 0, 1]);
}
