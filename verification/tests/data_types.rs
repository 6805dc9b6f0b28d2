use ifconfig::data_types::{ALL_FLAG_BITS, MULTICAST_BIT, UP_BIT};
use ifconfig::{Flags, HardwareAddr, IpAddr, IpAddrSet, EUI48_LEN};

#[test]
fn hardware_addr_formats_dashed_lower_hex() {
    let addr = HardwareAddr::from_bytes([0x00, 0x1a, 0x2b, 0x3c, 0x4d, 0x5e]);
    assert_eq!(addr.to_string(), "00-1a-2b-3c-4d-5e");
}

#[test]
fn hardware_addr_formats_all_ones_and_zeros() {
    assert_eq!(HardwareAddr::from_bytes([0xff; EUI48_LEN]).to_string(), "ff-ff-ff-ff-ff-ff");
    assert_eq!(HardwareAddr::from_bytes([0; EUI48_LEN]).to_string(), "00-00-00-00-00-00");
}

#[test]
fn hardware_addr_string_has_seventeen_chars() {
    let s = HardwareAddr::from_bytes([0xde, 0xad, 0xbe, 0xef, 0x09, 0xa0]).to_string();
    assert_eq!(s.len(), 17);
    assert_eq!(s, "de-ad-be-ef-09-a0");
}

#[test]
fn hardware_addr_strings_differ_for_different_bytes() {
    let a = HardwareAddr::from_bytes([1, 2, 3, 4, 5, 6]).to_string();
    let b = HardwareAddr::from_bytes([1, 2, 3, 4, 5, 7]).to_string();
    let c = HardwareAddr::from_bytes([0x10, 2, 3, 4, 5, 6]).to_string();
    assert_ne!(a, b);
    assert_ne!(a, c);
    assert_eq!(a, "01-02-03-04-05-06");
    assert_eq!(c, "10-02-03-04-05-06");
}

#[test]
fn flags_constants_have_their_bits() {
    assert_eq!(Flags::up().bits(), 0x1);
    assert_eq!(Flags::broadcast().bits(), 0x2);
    assert_eq!(Flags::loopback().bits(), 0x8);
    assert_eq!(Flags::point_to_point().bits(), 0x10);
    assert_eq!(Flags::multicast().bits(), 0x1000);
    assert_eq!(Flags::all().bits(), ALL_FLAG_BITS);
    assert_eq!(Flags::empty().bits(), 0);
    assert!(Flags::empty().is_empty());
    assert!(!Flags::up().is_empty());
}

#[test]
fn flags_from_bits_accepts_only_defined_bits() {
    let f = Flags::from_bits(UP_BIT | MULTICAST_BIT).unwrap();
    assert_eq!(f.bits(), 0x1001);
    assert!(Flags::from_bits(0x4).is_none());
    assert!(Flags::from_bits(0x1_0000).is_none());
    assert_eq!(Flags::from_bits(0).unwrap(), Flags::empty());
    assert_eq!(Flags::from_bits(ALL_FLAG_BITS).unwrap(), Flags::all());
}

#[test]
fn flags_round_trip_through_bits() {
    let f = Flags::broadcast().union(Flags::loopback());
    assert_eq!(Flags::from_bits(f.bits()).unwrap(), f);
}

#[test]
fn flags_union_contains_both() {
    let a = Flags::up();
    let b = Flags::multicast();
    let u = a.union(b);
    assert!(u.contains(a));
    assert!(u.contains(b));
    assert!(!u.contains(Flags::loopback()));
    assert!(Flags::all().contains(u));
    assert!(u.contains(Flags::empty()));
    assert_eq!(u, b.union(a));
}

#[test]
fn ip_addr_set_is_copied_by_value() {
    let s = IpAddrSet { unicast_addr: IpAddr::V4(0x7f00_0001), prefix_len: 8 };
    let t = s;
    assert_eq!(s, t);
    assert_ne!(IpAddr::V4(1), IpAddr::V6(1));
}

#[test]
fn flags_set_operations() {
    let a = Flags::up().union(Flags::broadcast()).union(Flags::multicast());
    let b = Flags::broadcast().union(Flags::loopback());
    assert_eq!(a.intersection(b).bits(), 0x2);
    assert_eq!(a.difference(b).bits(), 0x1001);
    assert_eq!(a.symmetric_difference(b).bits(), 0x1009);
    assert_eq!(a.complement().bits(), 0x18);
    assert_eq!(Flags::empty().complement(), Flags::all());
    assert!(a.intersects(b));
    assert!(!Flags::up().intersects(Flags::loopback()));
    assert!(Flags::all().is_all());
    assert!(!a.is_all());
}

#[test]
fn flags_from_bits_truncate_drops_unknown_bits() {
    assert_eq!(Flags::from_bits_truncate(0x1_1043).bits(), 0x1003);
    assert_eq!(Flags::from_bits_truncate(0xffff_ffff), Flags::all());
    assert_eq!(Flags::from_bits_truncate(0x4), Flags::empty());
}

#[test]
fn flags_mutation() {
    let mut f = Flags::empty();
    f.insert(Flags::up());
    f.insert(Flags::multicast());
    assert_eq!(f.bits(), 0x1001);
    f.remove(Flags::up());
    assert_eq!(f.bits(), 0x1000);
    f.toggle(Flags::up().union(Flags::multicast()));
    assert_eq!(f.bits(), 0x1);
    f.set(Flags::loopback(), true);
    assert_eq!(f.bits(), 0x9);
    f.set(Flags::loopback(), false);
    assert_eq!(f.bits(), 0x1);
}

#[test]
fn hardware_addr_string_parses_back() {
    let bytes = [0x00, 0x9f, 0xa0, 0x3c, 0xff, 0x5e];
    let s = HardwareAddr::from_bytes(bytes).to_string();
    for i in 0..EUI48_LEN {
        assert_eq!(u8::from_str_radix(&s[3 * i..3 * i + 2], 16), Ok(bytes[i]));
        if i + 1 < EUI48_LEN {
            assert_eq!(&s[3 * i + 2..3 * i + 3], "-");
        }
    }
}

#[test]
fn flags_order_and_hash_follow_bits() {
    assert!(Flags::up() < Flags::broadcast());
    assert!(Flags::empty() < Flags::up());
    let mut set = std::collections::HashSet::new();
    set.insert(Flags::up());
    set.insert(Flags::from_bits(1).unwrap());
    assert_eq!(set.len(), 1);
}
