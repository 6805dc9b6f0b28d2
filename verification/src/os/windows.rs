use vstd::prelude::*;

use crate::data_types::{
    Flags, HardwareAddr, IpAddr, BROADCAST_BIT, EUI48_LEN, LOOPBACK_BIT, MULTICAST_BIT,
    POINT_TO_POINT_BIT,
};
use crate::iteration::queue_next;
use crate::IfConfigError;

verus! {

/// Interface type: none of the others.
pub const IF_TYPE_OTHER: u32 = 1;
/// Interface type: Ethernet.
pub const IF_TYPE_ETHERNET_CSMACD: u32 = 6;
/// Interface type: token ring.
pub const IF_TYPE_ISO88025_TOKENRING: u32 = 9;
/// Interface type: PPP.
pub const IF_TYPE_PPP: u32 = 23;
/// Interface type: software loopback.
pub const IF_TYPE_SOFTWARE_LOOPBACK: u32 = 24;
/// Interface type: ATM.
pub const IF_TYPE_ATM: u32 = 37;
/// Interface type: IEEE 802.11 wireless.
pub const IF_TYPE_IEEE80211: u32 = 71;
/// Interface type: tunnel encapsulation.
pub const IF_TYPE_TUNNEL: u32 = 131;
/// Interface type: IEEE 1394 (FireWire).
pub const IF_TYPE_IEEE1394: u32 = 144;

/// Win32 status: the call succeeded.
pub const ERROR_SUCCESS: u32 = 0;
/// Win32 status: the buffer given was too small.
pub const ERROR_BUFFER_OVERFLOW: u32 = 111;
/// Win32 status: there is no data to return; here, the system has no adapter.
pub const ERROR_NO_DATA: u32 = 232;
/// The buffer size, in bytes, tried when a sized buffer still overflows.
pub const RECOMMENDED_BUF_LEN: u32 = 15000;
/// Size of the physical address field of an adapter record.
pub const MAX_ADAPTER_ADDRESS_LENGTH: usize = 8;

/// Errors reported by the Windows adapter query.
#[derive(Debug, PartialEq, Eq)]
pub enum WindowsError {
    /// The query failed with this Win32 error code.
    UnknownError { error_code: u32 },
}

/// What an `IP_ADAPTER_ADDRESSES` record reports of one adapter.
pub struct AdapterAddresses {
    /// The IPv4 interface index; zero where IPv4 is disabled on the adapter.
    pub if_index: u32,
    /// The IPv6 interface index.
    pub ipv6_if_index: u32,
    /// The MTU.
    pub mtu: u32,
    /// The adapter name.
    pub adapter_name: String,
    /// The user-friendly name.
    pub friendly_name: String,
    /// The description.
    pub description: String,
    /// The physical address buffer.
    pub physical_address: [u8; MAX_ADAPTER_ADDRESS_LENGTH],
    /// How many bytes of the physical address buffer are in use.
    pub physical_address_length: u32,
    /// The interface type (an `IF_TYPE_*` value).
    pub if_type: u32,
    /// The unicast addresses, in list order.
    pub unicast_addresses: Vec<IpAddr>,
}

/// The index of an adapter: its IPv4 index, or its IPv6 index where the
/// IPv4 index is zero.
pub open spec fn adapter_index(a: AdapterAddresses) -> u32 {
    if a.if_index != 0 {
        a.if_index
    } else {
        a.ipv6_if_index
    }
}

/// The index of an adapter is its IPv4 index whenever that is nonzero, and
/// its IPv6 index otherwise; it is zero only where both are.
pub proof fn index_prefers_ipv4(a: AdapterAddresses)
    ensures
        a.if_index != 0 ==> adapter_index(a) == a.if_index,
        a.if_index == 0 ==> adapter_index(a) == a.ipv6_if_index,
        adapter_index(a) == 0 <==> (a.if_index == 0 && a.ipv6_if_index == 0),
{
}

/// The flag bits that an interface type implies.
pub open spec fn if_type_flag_bits(if_type: u32) -> u32 {
    if if_type == IF_TYPE_ETHERNET_CSMACD || if_type == IF_TYPE_ISO88025_TOKENRING || if_type
        == IF_TYPE_IEEE80211 || if_type == IF_TYPE_IEEE1394 {
        BROADCAST_BIT | MULTICAST_BIT
    } else if if_type == IF_TYPE_PPP || if_type == IF_TYPE_TUNNEL {
        POINT_TO_POINT_BIT | MULTICAST_BIT
    } else if if_type == IF_TYPE_SOFTWARE_LOOPBACK {
        LOOPBACK_BIT | MULTICAST_BIT
    } else if if_type == IF_TYPE_ATM {
        (BROADCAST_BIT | POINT_TO_POINT_BIT) | MULTICAST_BIT
    } else {
        0
    }
}

/// The flags of an interface type: Ethernet (6), token ring (9), 802.11
/// (71) and IEEE 1394 (144) broadcast and multicast; PPP (23) and tunnels
/// (131) are point-to-point and multicast; software loopback (24) is
/// loopback and multicast; ATM (37) is broadcast, point-to-point and
/// multicast; every other type has no flag.
pub proof fn if_type_flags_table(if_type: u32)
    ensures
        (if_type == 6 || if_type == 9 || if_type == 71 || if_type == 144) ==> if_type_flag_bits(
            if_type,
        ) == 0x1002,
        (if_type == 23 || if_type == 131) ==> if_type_flag_bits(if_type) == 0x1010,
        if_type == 24 ==> if_type_flag_bits(if_type) == 0x1008,
        if_type == 37 ==> if_type_flag_bits(if_type) == 0x1012,
        !(if_type == 6 || if_type == 9 || if_type == 71 || if_type == 144 || if_type == 23
            || if_type == 131 || if_type == 24 || if_type == 37) ==> if_type_flag_bits(if_type) == 0,
{
    assert(0x2u32 | 0x1000u32 == 0x1002u32) by (bit_vector);
    assert(0x10u32 | 0x1000u32 == 0x1010u32) by (bit_vector);
    assert(0x8u32 | 0x1000u32 == 0x1008u32) by (bit_vector);
    assert((0x2u32 | 0x10u32) | 0x1000u32 == 0x1012u32) by (bit_vector);
}

/// A network adapter of a Windows system.
pub struct Interface(AdapterAddresses);

impl Interface {
    /// The adapter record of the interface.
    pub closed spec fn adapter(&self) -> AdapterAddresses {
        self.0
    }

    /// The interface of an adapter record.
    pub fn new(adapter: AdapterAddresses) -> (res: Self)
        ensures
            res.adapter() == adapter,
    {
        Interface(adapter)
    }

    /// The interface index: the IPv4 index, or the IPv6 index where IPv4 is
    /// disabled on this interface (IPv4 index zero).
    pub fn index(&self) -> (res: u32)
        ensures
            res == adapter_index(self.adapter()),
    {
        let mut index = self.0.if_index;
        if index == 0 {
            index = self.0.ipv6_if_index;
        }
        index
    }

    /// The MTU.
    pub fn mtu(&self) -> (res: u32)
        ensures
            res == self.adapter().mtu,
    {
        self.0.mtu
    }

    /// The adapter name.
    pub fn name(&self) -> (res: &str)
        ensures
            res@ == self.adapter().adapter_name@,
    {
        self.0.adapter_name.as_str()
    }

    /// The user-friendly name.
    pub fn friendly_name(&self) -> (res: String)
        ensures
            res@ == self.adapter().friendly_name@,
    {
        self.0.friendly_name.clone()
    }

    /// The description.
    pub fn description(&self) -> (res: String)
        ensures
            res@ == self.adapter().description@,
    {
        self.0.description.clone()
    }

    /// The hardware address: present only where the adapter reports an
    /// address of exactly six bytes; then it is those bytes.
    pub fn hw_addr(&self) -> (res: Result<Option<HardwareAddr>, IfConfigError>)
        ensures
            res matches Ok(a) && (a is Some <==> self.adapter().physical_address_length
                == EUI48_LEN) && (a matches Some(h) ==> h@
                == self.adapter().physical_address@.take(EUI48_LEN as int)),
    {
        let len = self.0.physical_address_length;
        if len == 0 {
            Ok(None)
        } else if len != 6 {
            Ok(None)
        } else {
            let p = &self.0.physical_address;
            let bytes: [u8; EUI48_LEN] = [p[0], p[1], p[2], p[3], p[4], p[5]];
            let h = HardwareAddr::from_bytes(bytes);
            assert(bytes@ =~= p@.take(EUI48_LEN as int));
            Ok(Some(h))
        }
    }

    /// The unicast IP addresses of the adapter, in list order.
    pub fn ip_addrs(&self) -> (res: IpAddrIterator)
        ensures
            res.remaining() == self.adapter().unicast_addresses@,
    {
        let mut v: Vec<IpAddr> = Vec::new();
        let n = self.0.unicast_addresses.len();
        let mut i: usize = 0;
        while i < n
            invariant
                n == self.0.unicast_addresses@.len(),
                0 <= i <= n,
                v@ == self.0.unicast_addresses@.take(i as int),
            decreases n - i,
        {
            v.push(self.0.unicast_addresses[i]);
            i = i + 1;
            assert(v@ =~= self.0.unicast_addresses@.take(i as int));
        }
        assert(self.0.unicast_addresses@.take(n as int) =~= self.0.unicast_addresses@);
        IpAddrIterator::from(v)
    }

    /// The status flags that the interface type implies.
    pub fn flags(&self) -> (res: Flags)
        ensures
            res@ == if_type_flag_bits(self.adapter().if_type),
    {
        let t = self.0.if_type;
        if t == IF_TYPE_ETHERNET_CSMACD || t == IF_TYPE_ISO88025_TOKENRING || t == IF_TYPE_IEEE80211
            || t == IF_TYPE_IEEE1394 {
            Flags::broadcast().union(Flags::multicast())
        } else if t == IF_TYPE_PPP || t == IF_TYPE_TUNNEL {
            Flags::point_to_point().union(Flags::multicast())
        } else if t == IF_TYPE_SOFTWARE_LOOPBACK {
            Flags::loopback().union(Flags::multicast())
        } else if t == IF_TYPE_ATM {
            // all services assumed: LANE, point-to-point and point-to-multipoint
            Flags::broadcast().union(Flags::point_to_point()).union(Flags::multicast())
        } else {
            Flags::empty()
        }
    }
}

/// The adapters of the system, handed out one at a time in order.
pub struct InterfaceIterator {
    adapters: Vec<AdapterAddresses>,
}

impl InterfaceIterator {
    /// The adapter records not handed out yet, in order.
    pub closed spec fn remaining(&self) -> Seq<AdapterAddresses> {
        self.adapters@
    }

    /// An iterator over the adapters of the given records, in order.
    pub fn from(adapters: Vec<AdapterAddresses>) -> (res: Self)
        ensures
            res.remaining() == adapters@,
    {
        InterfaceIterator { adapters }
    }

    /// The interface of the next adapter, or `None` once all were handed out.
    pub fn next(&mut self) -> (res: Option<Interface>)
        ensures
            old(self).remaining().len() == 0 ==> res is None && final(self).remaining() == old(
                self,
            ).remaining(),
            old(self).remaining().len() > 0 ==> (res matches Some(i) && i.adapter() == old(
                self,
            ).remaining()[0]) && final(self).remaining() == old(self).remaining().drop_first(),
            final(self).remaining() == queue_next(old(self).remaining()).1,
            res matches Some(i) ==> queue_next(old(self).remaining()).0 == Some(i.adapter()),
            res is None <==> queue_next(old(self).remaining()).0 is None,
    {
        if self.adapters.len() == 0 {
            None
        } else {
            Some(Interface::new(self.adapters.remove(0)))
        }
    }
}

/// The unicast addresses of an adapter, handed out one at a time in order.
pub struct IpAddrIterator {
    addrs: Vec<IpAddr>,
}

impl IpAddrIterator {
    /// The addresses not handed out yet, in order.
    pub closed spec fn remaining(&self) -> Seq<IpAddr> {
        self.addrs@
    }

    /// An iterator over the given addresses, in order.
    pub fn from(addrs: Vec<IpAddr>) -> (res: Self)
        ensures
            res.remaining() == addrs@,
    {
        IpAddrIterator { addrs }
    }

    /// The next address, or `None` once all were handed out.
    pub fn next(&mut self) -> (res: Option<IpAddr>)
        ensures
            old(self).remaining().len() == 0 ==> res is None && final(self).remaining() == old(
                self,
            ).remaining(),
            old(self).remaining().len() > 0 ==> res == Some(old(self).remaining()[0])
                && final(self).remaining() == old(self).remaining().drop_first(),
            (res, final(self).remaining()) == queue_next(old(self).remaining()),
    {
        if self.addrs.len() == 0 {
            None
        } else {
            Some(self.addrs.remove(0))
        }
    }
}

/// Where the adapter query stands.
#[derive(Debug, PartialEq, Eq)]
pub enum FetchState {
    /// Asked for the buffer size with no buffer.
    Sizing,
    /// Asked for the records with a buffer of the reported size.
    Fetching,
    /// Asked once more, with a buffer of at least the recommended size.
    Refetching,
    /// The query is over.
    Done,
}

/// What to do next in the adapter query.
#[derive(Debug, PartialEq, Eq)]
pub enum FetchAction {
    /// Call `GetAdaptersAddresses` with no buffer, to learn the size needed.
    QuerySize,
    /// Call `GetAdaptersAddresses` with a zeroed buffer of `buf_len` bytes.
    Fetch { buf_len: u32 },
    /// The last buffer holds the adapter records.
    Finish,
    /// The system has no adapter: the list is empty and no buffer holds records.
    NoAdapters,
    /// The query failed.
    Fail(WindowsError),
}

/// The calls still allowed from a state.
pub open spec fn calls_left(state: FetchState) -> nat {
    match state {
        FetchState::Sizing => 2,
        FetchState::Fetching => 1,
        FetchState::Refetching => 0,
        FetchState::Done => 0,
    }
}

/// The next state and action of the query, after a call in `state`
/// returned `result` and reported `buf_len` bytes needed.
pub open spec fn fetch_step_spec(state: FetchState, result: u32, buf_len: u32) -> (
    FetchState,
    FetchAction,
) {
    if result == ERROR_NO_DATA {
        (FetchState::Done, FetchAction::NoAdapters)
    } else {
        match state {
            FetchState::Sizing => {
                if result != ERROR_BUFFER_OVERFLOW {
                    (FetchState::Done, FetchAction::Fail(WindowsError::UnknownError { error_code: result }))
                } else {
                    (FetchState::Fetching, FetchAction::Fetch { buf_len })
                }
            },
            FetchState::Fetching => {
                if result == ERROR_BUFFER_OVERFLOW {
                    (
                        FetchState::Refetching,
                        FetchAction::Fetch {
                            buf_len: if buf_len < RECOMMENDED_BUF_LEN {
                                RECOMMENDED_BUF_LEN
                            } else {
                                buf_len
                            },
                        },
                    )
                } else if result != ERROR_SUCCESS {
                    (FetchState::Done, FetchAction::Fail(WindowsError::UnknownError { error_code: result }))
                } else {
                    (FetchState::Done, FetchAction::Finish)
                }
            },
            _ => {
                if result != ERROR_SUCCESS {
                    (FetchState::Done, FetchAction::Fail(WindowsError::UnknownError { error_code: result }))
                } else {
                    (FetchState::Done, FetchAction::Finish)
                }
            },
        }
    }
}

/// The first state and action of the adapter query: ask for the size.
pub fn start_fetch() -> (res: (FetchState, FetchAction))
    ensures
        res == (FetchState::Sizing, FetchAction::QuerySize),
{
    (FetchState::Sizing, FetchAction::QuerySize)
}

/// The next state and action of the adapter query, after the call that
/// `state` asked for returned `result` and reported `buf_len` bytes needed.
/// A size query that succeeds outright is outside the protocol.
pub fn fetch_step(state: FetchState, result: u32, buf_len: u32) -> (res: (FetchState, FetchAction))
    requires
        state != FetchState::Done,
        !(state == FetchState::Sizing && result == ERROR_SUCCESS),
    ensures
        res == fetch_step_spec(state, result, buf_len),
{
    if result == ERROR_NO_DATA {
        return (FetchState::Done, FetchAction::NoAdapters);
    }
    match state {
        FetchState::Sizing => {
            if result != ERROR_BUFFER_OVERFLOW {
                (FetchState::Done, FetchAction::Fail(WindowsError::UnknownError { error_code: result }))
            } else {
                (FetchState::Fetching, FetchAction::Fetch { buf_len })
            }
        },
        FetchState::Fetching => {
            if result == ERROR_BUFFER_OVERFLOW {
                let len = if buf_len < RECOMMENDED_BUF_LEN {
                    RECOMMENDED_BUF_LEN
                } else {
                    buf_len
                };
                (FetchState::Refetching, FetchAction::Fetch { buf_len: len })
            } else if result != ERROR_SUCCESS {
                (FetchState::Done, FetchAction::Fail(WindowsError::UnknownError { error_code: result }))
            } else {
                (FetchState::Done, FetchAction::Finish)
            }
        },
        _ => {
            if result != ERROR_SUCCESS {
                (FetchState::Done, FetchAction::Fail(WindowsError::UnknownError { error_code: result }))
            } else {
                (FetchState::Done, FetchAction::Finish)
            }
        },
    }
}

/// Every call the query asks for after the first brings it closer to its
/// end: the states that ask for another call have fewer calls left, and a
/// finished or failed query is done. So the query makes at most three calls.
pub proof fn fetch_terminates(state: FetchState, result: u32, buf_len: u32)
    requires
        state != FetchState::Done,
    ensures
        fetch_step_spec(state, result, buf_len).1 is Fetch ==> calls_left(
            fetch_step_spec(state, result, buf_len).0,
        ) < calls_left(state),
        fetch_step_spec(state, result, buf_len).0 == FetchState::Done <==> !(fetch_step_spec(
            state,
            result,
            buf_len,
        ).1 is Fetch),
        fetch_step_spec(state, result, buf_len).1 !is QuerySize,
{
}

/// After the size query overflows, the records are fetched with a buffer of
/// exactly the size reported, and one retry is still left.
pub proof fn size_query_fetches_reported_size(buf_len: u32)
    ensures
        fetch_step_spec(FetchState::Sizing, 111, buf_len) == (
            FetchState::Fetching,
            FetchAction::Fetch { buf_len },
        ),
        calls_left(fetch_step_spec(FetchState::Sizing, 111, buf_len).0) == 1,
{
}

/// A size query that reports any status but an overflow or a missing
/// adapter fails the query with that status.
pub proof fn size_query_errors_fail(result: u32, buf_len: u32)
    requires
        result != 0,
        result != 111,
        result != 232,
    ensures
        fetch_step_spec(FetchState::Sizing, result, buf_len) == (
            FetchState::Done,
            FetchAction::Fail(WindowsError::UnknownError { error_code: result }),
        ),
{
}

/// A sized buffer that still overflows is retried once, with a buffer of the
/// larger of the size reported and 15000 bytes.
pub proof fn overflow_retries_with_larger_buffer(buf_len: u32)
    ensures
        fetch_step_spec(FetchState::Fetching, 111, buf_len) == (
            FetchState::Refetching,
            FetchAction::Fetch { buf_len: if buf_len < 15000 { 15000 } else { buf_len } },
        ),
        fetch_step_spec(FetchState::Refetching, 111, buf_len) == (
            FetchState::Done,
            FetchAction::Fail(WindowsError::UnknownError { error_code: 111 }),
        ),
{
}

/// A retry after an overflowing sized buffer asks for a buffer at least as
/// large as the size reported and at least the recommended size.
pub proof fn retry_buffer_is_large_enough(buf_len: u32)
    ensures
        fetch_step_spec(FetchState::Fetching, ERROR_BUFFER_OVERFLOW, buf_len).1 matches FetchAction::Fetch {
            buf_len: len,
        } && len >= buf_len && len >= RECOMMENDED_BUF_LEN,
{
}

/// A system without adapters has an empty adapter list, whichever call
/// reports it: the query ends with no adapter and no error.
pub proof fn no_adapters_is_an_empty_list(state: FetchState, buf_len: u32)
    requires
        state != FetchState::Done,
    ensures
        fetch_step_spec(state, ERROR_NO_DATA, buf_len) == (FetchState::Done, FetchAction::NoAdapters),
{
}

/// A call that succeeds once a buffer was given ends the query with the
/// records; any other error but a missing adapter ends it with that error.
pub proof fn fetch_outcome(state: FetchState, result: u32, buf_len: u32)
    requires
        state == FetchState::Fetching || state == FetchState::Refetching,
    ensures
        result == ERROR_SUCCESS ==> fetch_step_spec(state, result, buf_len) == (
            FetchState::Done,
            FetchAction::Finish,
        ),
        result != ERROR_SUCCESS && result != ERROR_BUFFER_OVERFLOW && result != ERROR_NO_DATA
            ==> fetch_step_spec(
            state,
            result,
            buf_len,
        ) == (FetchState::Done, FetchAction::Fail(WindowsError::UnknownError { error_code: result })),
{
}

} // verus!
