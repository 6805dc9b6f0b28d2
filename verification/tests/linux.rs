use ifconfig::os::linux::{
    to_interfaces, unicast_ip_addrs, AddrInfo, Interface, InterfaceIterator, LinkEntry, LinkInfo,
};
use ifconfig::{IfConfigError, IpAddr, IpAddrSet};

fn link(index: u32, name: Option<&str>, flags: u32) -> LinkInfo {
    LinkInfo {
        index,
        mtu: Some(1500),
        name: name.map(|n| n.to_string()),
        flags,
        hw_addr: Some([0x52, 0x54, 0x00, 0x12, 0x34, 0x56]),
    }
}

fn addr(ip: Option<IpAddr>, prefix_len: u8) -> AddrInfo {
    AddrInfo { local_ip: ip, prefix_len }
}

#[test]
fn interface_needs_a_name() {
    match Interface::from(link(2, None, 0), Vec::new()) {
        Err(IfConfigError::ValueNotFound { msg }) => {
            assert_eq!(msg, "Underlying library returned no value for name")
        }
        _ => panic!("an unnamed link must be refused"),
    }
}

#[test]
fn interface_reports_its_link() {
    let sets = vec![IpAddrSet { unicast_addr: IpAddr::V4(0xc0a8_0001), prefix_len: 24 }];
    let i = Interface::from(link(3, Some("eth0"), 0x1043), sets.clone()).unwrap();
    assert_eq!(i.index(), 3);
    assert_eq!(i.mtu(), Some(1500));
    assert_eq!(i.name().unwrap(), "eth0");
    assert_eq!(i.friendly_name().unwrap(), "");
    assert_eq!(i.description().unwrap(), "");
    assert_eq!(i.hw_addr().unwrap().unwrap().to_string(), "52-54-00-12-34-56");
    let mut it = i.ip_addrs().unwrap();
    assert_eq!(it.next(), Some(sets[0]));
    assert_eq!(it.next(), None);
    assert_eq!(it.next(), None);
}

#[test]
fn interface_without_hw_addr_or_mtu() {
    let l = LinkInfo { index: 1, mtu: None, name: Some("lo".to_string()), flags: 0x9, hw_addr: None };
    let i = Interface::from(l, Vec::new()).unwrap();
    assert_eq!(i.mtu(), None);
    assert!(i.hw_addr().unwrap().is_none());
    assert!(i.ip_addrs().unwrap().next().is_none());
}

#[test]
fn flags_keep_only_defined_bits() {
    // IFF_UP | IFF_BROADCAST | IFF_RUNNING | IFF_MULTICAST | IFF_LOWER_UP
    let i = Interface::from(link(2, Some("eth0"), 0x1_1043), Vec::new()).unwrap();
    assert_eq!(i.flags().bits(), 0x1003);
    // IFF_UP | IFF_LOOPBACK | IFF_RUNNING
    let lo = Interface::from(link(1, Some("lo"), 0x49), Vec::new()).unwrap();
    assert_eq!(lo.flags().bits(), 0x9);
    let none = Interface::from(link(4, Some("x"), 0xffff_ffff), Vec::new()).unwrap();
    assert_eq!(none.flags().bits(), 0x101b);
}

#[test]
fn unicast_addrs_skip_addresses_without_local_ip() {
    let addrs = vec![
        addr(Some(IpAddr::V4(0x0a00_0001)), 8),
        addr(None, 64),
        addr(Some(IpAddr::V6(1)), 128),
    ];
    let sets = unicast_ip_addrs(&addrs);
    assert_eq!(
        sets,
        vec![
            IpAddrSet { unicast_addr: IpAddr::V4(0x0a00_0001), prefix_len: 8 },
            IpAddrSet { unicast_addr: IpAddr::V6(1), prefix_len: 128 },
        ]
    );
    assert!(unicast_ip_addrs(&Vec::new()).is_empty());
}

#[test]
fn to_interfaces_reports_failed_listing() {
    match to_interfaces(None) {
        Err(IfConfigError::UnderlyingApiFailed { msg }) => assert_eq!(msg, "Api iter_links() failed"),
        _ => panic!("a failed listing must be reported"),
    }
}

#[test]
fn to_interfaces_keeps_link_order_and_addresses() {
    let entries = vec![
        LinkEntry { link: link(1, Some("lo"), 0x49), addrs: Some(vec![addr(Some(IpAddr::V4(0x7f00_0001)), 8)]) },
        LinkEntry { link: link(2, Some("eth0"), 0x1043), addrs: None },
        LinkEntry {
            link: link(3, Some("wlan0"), 0x1003),
            addrs: Some(vec![addr(None, 24), addr(Some(IpAddr::V4(0xc0a8_0102)), 24)]),
        },
    ];
    let ifs = to_interfaces(Some(entries)).unwrap();
    assert_eq!(ifs.len(), 3);
    let names: Vec<&str> = ifs.iter().map(|i| i.name().unwrap()).collect();
    assert_eq!(names, vec!["lo", "eth0", "wlan0"]);
    assert_eq!(ifs[0].ip_addrs().unwrap().next(), Some(IpAddrSet { unicast_addr: IpAddr::V4(0x7f00_0001), prefix_len: 8 }));
    assert!(ifs[1].ip_addrs().unwrap().next().is_none());
    let mut w = ifs[2].ip_addrs().unwrap();
    assert_eq!(w.next(), Some(IpAddrSet { unicast_addr: IpAddr::V4(0xc0a8_0102), prefix_len: 24 }));
    assert_eq!(w.next(), None);
}

#[test]
fn to_interfaces_fails_on_unnamed_link() {
    let entries = vec![
        LinkEntry { link: link(1, Some("lo"), 0), addrs: None },
        LinkEntry { link: link(2, None, 0), addrs: None },
    ];
    match to_interfaces(Some(entries)) {
        Err(IfConfigError::UnderlyingApiFailed { msg }) => assert_eq!(msg, "Error creating interface"),
        _ => panic!("an unnamed link must fail the listing"),
    }
}

#[test]
fn to_interfaces_of_no_link_is_empty() {
    assert!(to_interfaces(Some(Vec::new())).unwrap().is_empty());
}

#[test]
fn interface_iterator_yields_in_order_then_none() {
    let ifs = to_interfaces(Some(vec![
        LinkEntry { link: link(5, Some("a"), 0), addrs: None },
        LinkEntry { link: link(6, Some("b"), 0), addrs: None },
    ]))
    .unwrap();
    let mut it = InterfaceIterator::new(ifs);
    assert_eq!(it.next().unwrap().index(), 5);
    assert_eq!(it.next().unwrap().index(), 6);
    assert!(it.next().is_none());
    assert!(it.next().is_none());
}
