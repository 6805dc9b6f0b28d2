use vstd::prelude::*;

use crate::data_types::{
    known_bits, masked_bits_are_known, Flags, HardwareAddr, IpAddr, IpAddrSet, ALL_FLAG_BITS,
    EUI48_LEN,
};
use crate::iteration::queue_next;
use crate::{is_api_failure, is_value_not_found, IfConfigError};

verus! {

/// What a netlink link message reports of one interface.
pub struct LinkInfo {
    /// The interface index.
    pub index: u32,
    /// The MTU attribute, where present.
    pub mtu: Option<u32>,
    /// The interface name attribute, where present.
    pub name: Option<String>,
    /// The raw `IFF_*` flag bits of the link.
    pub flags: u32,
    /// The hardware address attribute, where present.
    pub hw_addr: Option<[u8; EUI48_LEN]>,
}

/// What a netlink address message reports of one address of a link.
#[derive(Clone, Copy, Debug, PartialEq, Eq)]
pub struct AddrInfo {
    /// The local address attribute, where present.
    pub local_ip: Option<IpAddr>,
    /// The network prefix length.
    pub prefix_len: u8,
}

/// One link together with the answer to the request for its addresses:
/// `None` where that request failed.
pub struct LinkEntry {
    pub link: LinkInfo,
    pub addrs: Option<Vec<AddrInfo>>,
}

/// The addresses reported for a link, none where the request failed.
pub open spec fn entry_addrs(entry: LinkEntry) -> Seq<AddrInfo> {
    match entry.addrs {
        Some(v) => v@,
        None => Seq::empty(),
    }
}

/// The unicast address sets of a link: the addresses that carry a local
/// address, in the order reported.
pub open spec fn unicast_addr_sets(addrs: Seq<AddrInfo>) -> Seq<IpAddrSet>
    decreases addrs.len(),
{
    if addrs.len() == 0 {
        Seq::empty()
    } else {
        let prev = unicast_addr_sets(addrs.drop_last());
        match addrs.last().local_ip {
            Some(ip) => prev.push(IpAddrSet { unicast_addr: ip, prefix_len: addrs.last().prefix_len }),
            None => prev,
        }
    }
}

/// A network interface of a Linux system.
pub struct Interface {
    link: LinkInfo,
    ip_addrs: Vec<IpAddrSet>,
    name: String,
}

impl Interface {
    /// The link that the interface was built from.
    pub closed spec fn link_info(&self) -> LinkInfo {
        self.link
    }

    /// The unicast address sets of the interface.
    pub closed spec fn addr_sets(&self) -> Seq<IpAddrSet> {
        self.ip_addrs@
    }

    /// The name of the interface.
    pub closed spec fn name_string(&self) -> String {
        self.name
    }

    /// The interface of a link with the given address sets; fails where the
    /// link has no name.
    pub fn from(link: LinkInfo, ip_addrs: Vec<IpAddrSet>) -> (res: Result<Self, IfConfigError>)
        ensures
            res is Ok <==> link.name is Some,
            res matches Ok(i) ==> {
                &&& i.link_info() == link
                &&& i.addr_sets() == ip_addrs@
                &&& Some(i.name_string()) == link.name
            },
            res matches Err(e) ==> is_value_not_found(
                e,
                "Underlying library returned no value for name"@,
            ),
    {
        let name = match &link.name {
            Some(n) => n.clone(),
            None => {
                return Err(
                    IfConfigError::ValueNotFound {
                        msg: "Underlying library returned no value for name".to_owned(),
                    },
                );
            },
        };
        Ok(Self { link, ip_addrs, name })
    }

    /// The interface index.
    pub fn index(&self) -> (res: u32)
        ensures
            res == self.link_info().index,
    {
        self.link.index
    }

    /// The MTU, where the link reports one.
    pub fn mtu(&self) -> (res: Option<u32>)
        ensures
            res == self.link_info().mtu,
    {
        self.link.mtu
    }

    /// The interface name.
    pub fn name(&self) -> (res: Result<&str, IfConfigError>)
        ensures
            res matches Ok(s) && s@ == self.name_string()@,
    {
        Ok(self.name.as_str())
    }

    /// The friendly name: Linux has no such notion, so it is empty.
    pub fn friendly_name(&self) -> (res: Result<String, IfConfigError>)
        ensures
            res matches Ok(s) && s@ == Seq::<char>::empty(),
    {
        Ok(String::new())
    }

    /// The description: Linux has no such notion, so it is empty.
    pub fn description(&self) -> (res: Result<String, IfConfigError>)
        ensures
            res matches Ok(s) && s@ == Seq::<char>::empty(),
    {
        Ok(String::new())
    }

    /// The hardware address, where the link reports one.
    pub fn hw_addr(&self) -> (res: Result<Option<HardwareAddr>, IfConfigError>)
        ensures
            res matches Ok(a) && (a is Some <==> self.link_info().hw_addr is Some) && (
            a matches Some(h) ==> h@ == self.link_info().hw_addr.unwrap()@),
    {
        match self.link.hw_addr {
            Some(bytes) => Ok(Some(HardwareAddr::from_bytes(bytes))),
            None => Ok(None),
        }
    }

    /// The unicast address sets of the interface, in the order reported.
    pub fn ip_addrs(&self) -> (res: Result<IpAddrSetIterator, IfConfigError>)
        ensures
            res matches Ok(it) && it.remaining() == self.addr_sets(),
    {
        let mut v: Vec<IpAddrSet> = Vec::new();
        let n = self.ip_addrs.len();
        let mut i: usize = 0;
        while i < n
            invariant
                n == self.ip_addrs@.len(),
                0 <= i <= n,
                v@ == self.ip_addrs@.take(i as int),
            decreases n - i,
        {
            v.push(self.ip_addrs[i]);
            i = i + 1;
            assert(v@ =~= self.ip_addrs@.take(i as int));
        }
        assert(self.ip_addrs@.take(n as int) =~= self.ip_addrs@);
        Ok(IpAddrSetIterator { addrs: v })
    }

    /// The status flags of the link: its flag bits that belong to a defined flag.
    pub fn flags(&self) -> (res: Flags)
        ensures
            res@ == self.link_info().flags & ALL_FLAG_BITS,
    {
        let masked = self.link.flags & Flags::all().bits();
        proof {
            masked_bits_are_known(self.link.flags);
        }
        match Flags::from_bits(masked) {
            Some(f) => f,
            None => {
                assert(false);
                Flags::empty()
            },
        }
    }
}

/// The unicast address sets among the reported addresses, in order.
pub fn unicast_ip_addrs(addrs: &Vec<AddrInfo>) -> (res: Vec<IpAddrSet>)
    ensures
        res@ == unicast_addr_sets(addrs@),
{
    let mut res: Vec<IpAddrSet> = Vec::new();
    let n = addrs.len();
    let mut i: usize = 0;
    while i < n
        invariant
            n == addrs@.len(),
            0 <= i <= n,
            res@ == unicast_addr_sets(addrs@.take(i as int)),
        decreases n - i,
    {
        let a = addrs[i];
        match a.local_ip {
            Some(ip) => {
                res.push(IpAddrSet { unicast_addr: ip, prefix_len: a.prefix_len });
            },
            None => {},
        }
        proof {
            assert(addrs@.take(i + 1).drop_last() =~= addrs@.take(i as int));
        }
        i = i + 1;
    }
    assert(addrs@.take(n as int) =~= addrs@);
    res
}

/// The unicast address sets of a link are exactly its addresses that carry
/// a local address, in the order reported, each paired with its prefix
/// length: none is dropped, added or moved.
pub proof fn unicast_sets_are_the_local_addresses(addrs: Seq<AddrInfo>)
    ensures
        unicast_addr_sets(addrs) == addrs.filter(|a: AddrInfo| a.local_ip is Some).map_values(
            |a: AddrInfo| IpAddrSet { unicast_addr: a.local_ip.unwrap(), prefix_len: a.prefix_len },
        ),
        unicast_addr_sets(addrs).len() == addrs.filter(|a: AddrInfo| a.local_ip is Some).len(),
    decreases addrs.len(),
{
    let pred = |a: AddrInfo| a.local_ip is Some;
    let f = |a: AddrInfo| IpAddrSet { unicast_addr: a.local_ip.unwrap(), prefix_len: a.prefix_len };
    reveal_with_fuel(Seq::<AddrInfo>::filter, 1);
    if addrs.len() == 0 {
        assert(addrs.filter(pred) =~= Seq::<AddrInfo>::empty());
        assert(addrs.filter(pred).map_values(f) =~= Seq::<IpAddrSet>::empty());
    } else {
        unicast_sets_are_the_local_addresses(addrs.drop_last());
        let sub = addrs.drop_last().filter(pred);
        assert(addrs.filter(pred) == if pred(addrs.last()) {
            sub.push(addrs.last())
        } else {
            sub
        });
        if pred(addrs.last()) {
            assert(sub.push(addrs.last()).map_values(f) =~= sub.map_values(f).push(f(addrs.last())));
        }
    }
}

/// Every link has a name.
pub open spec fn all_named(entries: Seq<LinkEntry>) -> bool {
    forall|k: int| 0 <= k < entries.len() ==> (#[trigger] entries[k]).link.name is Some
}

/// `ifs` are the interfaces of the links `entries`, one each, in order.
pub open spec fn interfaces_of(entries: Seq<LinkEntry>, ifs: Seq<Interface>) -> bool {
    &&& ifs.len() == entries.len()
    &&& forall|k: int|
        0 <= k < entries.len() ==> {
            &&& (#[trigger] ifs[k]).link_info() == entries[k].link
            &&& ifs[k].addr_sets() == unicast_addr_sets(entry_addrs(entries[k]))
            &&& Some(ifs[k].name_string()) == entries[k].link.name
        }
}

/// Each interface carries the unicast addresses that were reported for its
/// own link, whatever else the link reports (hardware address, flags, MTU):
/// the reported addresses with a local address, in order, with their prefix
/// lengths; no address where the address request failed.
pub proof fn interfaces_keep_reported_addresses(entries: Seq<LinkEntry>, ifs: Seq<Interface>)
    requires
        interfaces_of(entries, ifs),
    ensures
        forall|k: int|
            0 <= k < entries.len() ==> {
                &&& (entries[k].addrs matches Some(v) ==> (#[trigger] ifs[k]).addr_sets() == v@.filter(
                    |a: AddrInfo| a.local_ip is Some,
                ).map_values(
                    |a: AddrInfo|
                        IpAddrSet { unicast_addr: a.local_ip.unwrap(), prefix_len: a.prefix_len },
                ))
                &&& (entries[k].addrs is None ==> ifs[k].addr_sets().len() == 0)
            },
{
    assert forall|k: int| 0 <= k < entries.len() implies {
        &&& (entries[k].addrs matches Some(v) ==> (#[trigger] ifs[k]).addr_sets() == v@.filter(
            |a: AddrInfo| a.local_ip is Some,
        ).map_values(
            |a: AddrInfo| IpAddrSet { unicast_addr: a.local_ip.unwrap(), prefix_len: a.prefix_len },
        ))
        &&& (entries[k].addrs is None ==> ifs[k].addr_sets().len() == 0)
    } by {
        unicast_sets_are_the_local_addresses(entry_addrs(entries[k]));
        if entries[k].addrs is None {
            assert(unicast_addr_sets(Seq::<AddrInfo>::empty()).len() == 0);
        }
    }
}

/// The interfaces of the reported links, in order. `links` is `None` where
/// listing the links failed. A link whose address request failed gets no
/// address; a link without a name fails the whole listing.
pub fn to_interfaces(links: Option<Vec<LinkEntry>>) -> (res: Result<Vec<Interface>, IfConfigError>)
    ensures
        links is None ==> (res matches Err(e) && is_api_failure(e, "Api iter_links() failed"@)),
        links matches Some(entries) ==> {
            &&& res is Ok <==> all_named(entries@)
            &&& res matches Ok(ifs) ==> interfaces_of(entries@, ifs@)
            &&& res matches Err(e) ==> is_api_failure(e, "Error creating interface"@)
        },
{
    let mut entries = match links {
        Some(v) => v,
        None => {
            return Err(
                IfConfigError::UnderlyingApiFailed { msg: "Api iter_links() failed".to_owned() },
            );
        },
    };
    let ghost all = entries@;
    let mut interfaces: Vec<Interface> = Vec::new();
    while entries.len() > 0
        invariant
            links matches Some(v) && v@ == all,
            all.len() == interfaces@.len() + entries@.len(),
            entries@ == all.skip(interfaces@.len() as int),
            interfaces_of(all.take(interfaces@.len() as int), interfaces@),
            all_named(all.take(interfaces@.len() as int)),
        decreases entries@.len(),
    {
        let ghost k = interfaces@.len() as int;
        let entry = entries.remove(0);
        assert(entry == all[k]);
        let ip_addrs = match &entry.addrs {
            Some(a) => unicast_ip_addrs(a),
            None => Vec::new(),
        };
        let interface = Interface::from(entry.link, ip_addrs);
        match interface {
            Ok(i) => {
                interfaces.push(i);
                assert(entries@ =~= all.skip(interfaces@.len() as int));
                assert(interfaces_of(all.take(interfaces@.len() as int), interfaces@)) by {
                    assert forall|j: int| 0 <= j < interfaces@.len() implies {
                        &&& (#[trigger] interfaces@[j]).link_info() == all.take(
                            interfaces@.len() as int,
                        )[j].link
                        &&& interfaces@[j].addr_sets() == unicast_addr_sets(
                            entry_addrs(all.take(interfaces@.len() as int)[j]),
                        )
                        &&& Some(interfaces@[j].name_string()) == all.take(
                            interfaces@.len() as int,
                        )[j].link.name
                    } by {
                        if j < k {
                            assert(all.take(k)[j] == all[j]);
                        }
                    }
                }
                assert(all_named(all.take(interfaces@.len() as int))) by {
                    assert forall|j: int| 0 <= j < interfaces@.len() implies (#[trigger] all.take(
                        interfaces@.len() as int,
                    )[j]).link.name is Some by {
                        if j < k {
                            assert(all.take(k)[j] == all[j]);
                        }
                    }
                }
            },
            Err(_) => {
                assert(!all_named(all)) by {
                    assert(all[k].link.name is None);
                }
                return Err(
                    IfConfigError::UnderlyingApiFailed {
                        msg: "Error creating interface".to_owned(),
                    },
                );
            },
        }
    }
    assert(all.take(all.len() as int) =~= all);
    Ok(interfaces)
}

/// The interfaces of the system, handed out one at a time in order.
pub struct InterfaceIterator {
    interfaces: Vec<Interface>,
}

impl InterfaceIterator {
    /// The interfaces not handed out yet, in order.
    pub closed spec fn remaining(&self) -> Seq<Interface> {
        self.interfaces@
    }

    /// An iterator over the given interfaces.
    pub fn new(interfaces: Vec<Interface>) -> (res: Self)
        ensures
            res.remaining() == interfaces@,
    {
        InterfaceIterator { interfaces }
    }

    /// The next interface, or `None` once all were handed out.
    pub fn next(&mut self) -> (res: Option<Interface>)
        ensures
            old(self).remaining().len() == 0 ==> res is None && final(self).remaining() == old(
                self,
            ).remaining(),
            old(self).remaining().len() > 0 ==> res == Some(old(self).remaining()[0])
                && final(self).remaining() == old(self).remaining().drop_first(),
            (res, final(self).remaining()) == queue_next(old(self).remaining()),
    {
        if self.interfaces.len() == 0 {
            None
        } else {
            Some(self.interfaces.remove(0))
        }
    }
}

/// The unicast address sets of an interface, handed out one at a time in order.
pub struct IpAddrSetIterator {
    addrs: Vec<IpAddrSet>,
}

impl IpAddrSetIterator {
    /// The address sets not handed out yet, in order.
    pub closed spec fn remaining(&self) -> Seq<IpAddrSet> {
        self.addrs@
    }

    /// The next address set, or `None` once all were handed out.
    pub fn next(&mut self) -> (res: Option<IpAddrSet>)
        ensures
            old(self).remaining().len() == 0 ==> res is None && final(self).remaining() == old(
                self,
            ).remaining(),
            old(self).remaining().len() > 0 ==> res == Some(old(self).remaining()[0])
                && final(self).remaining() == old(self).remaining().drop_first(),
            (res, final(self).remaining()) == queue_next(old(self).remaining()),
    {
        if self.addrs.len() == 0 {
            None
        } else {
            Some(self.addrs.remove(0))
        }
    }
}

} // verus!
