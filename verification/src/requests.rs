//! Control-plane request models: the exact payloads of the kernel requests
//! that create, configure and route a virtual interface.
//!
//! Each request kind is an explicit structure with a narrow constructor, so
//! higher layers never touch raw kernel layouts. The numeric flag values are
//! fixed platform ABI.

use vstd::prelude::*;
use crate::ifname::IfName;
use crate::Mode;

verus! {

/// Creation request flag: exchange raw IP packets.
pub const IFF_TUN: i16 = 0x0001;

/// Creation request flag: exchange raw Ethernet frames.
pub const IFF_TAP: i16 = 0x0002;

/// Creation request flag: do not prepend packet metadata.
pub const IFF_NO_PI: i16 = 0x1000;

/// Flags request flag: the interface is administratively up.
pub const IFF_UP: i16 = 0x0001;

/// The flag word of a creation request: the mode's flag, OR'd with the
/// "no packet metadata" flag when packet info is not wanted. The two flag
/// bits are disjoint, so the OR is a sum.
pub open spec fn creation_flags(mode: Mode, packet_info: bool) -> i16 {
    ((match mode {
        Mode::Tun => IFF_TUN,
        Mode::Tap => IFF_TAP,
    }) + if packet_info {
        0
    } else {
        IFF_NO_PI
    }) as i16
}

/// The IPv4 netmask of a prefix length p in [1, 32]: the all-ones 32-bit
/// value shifted left by (32 - p), i.e. exactly the p highest bits set.
/// p = 32 is the all-ones mask, stated without a full-width shift.
pub open spec fn mask_ones(p: u32) -> u32
    recommends
        1 <= p <= 32,
{
    if p == 32 {
        0xFFFF_FFFFu32
    } else {
        0xFFFF_FFFFu32 << (32 - p)
    }
}

/// Computes the IPv4 netmask of a prefix length; prefix lengths outside
/// [1, 32] are rejected.
pub fn netmask_v4(prefix_len: u32) -> (r: Option<u32>)
    ensures
        r == if 1 <= prefix_len <= 32 {
            Some(mask_ones(prefix_len))
        } else {
            None::<u32>
        },
{
    if prefix_len == 0 || prefix_len > 32 {
        None
    } else if prefix_len == 32 {
        Some(0xFFFF_FFFFu32)
    } else {
        Some(0xFFFF_FFFFu32 << (32 - prefix_len))
    }
}

/// The netmask of prefix length p has exactly the p highest bits set: bit i
/// (counted from the least significant end) is one exactly when i >= 32 - p.
pub proof fn lemma_netmask_bits(p: u32, i: u32)
    requires
        1 <= p <= 32,
        i < 32,
    ensures
        (mask_ones(p) >> i) & 1 == if i >= 32 - p {
            1u32
        } else {
            0u32
        },
{
    if p == 32 {
        assert((0xFFFF_FFFFu32 >> i) & 1 == 1) by (bit_vector)
            requires
                i < 32,
        ;
    } else {
        let sh: u32 = ((32 - p) as u32);
        assert(1 <= sh && sh <= 31);
        if i >= sh {
            assert(((0xFFFF_FFFFu32 << sh) >> i) & 1 == 1) by (bit_vector)
                requires
                    1 <= sh && sh <= 31 && i < 32 && sh <= i,
            ;
        } else {
            assert(((0xFFFF_FFFFu32 << sh) >> i) & 1 == 0) by (bit_vector)
                requires
                    1 <= sh && sh <= 31 && i < sh,
            ;
        }
        assert(mask_ones(p) == 0xFFFF_FFFFu32 << sh);
    }
}

/// The "set administratively up" control request: keyed by interface name,
/// carrying the flag word to store.
#[derive(Debug)]
pub struct UpRequest {
    /// The interface the request addresses.
    pub name: IfName,
    /// The flag word: the "up" flag.
    pub flags: i16,
}

/// Builds the request that brings an interface up.
pub fn up_request(name: &IfName) -> (r: UpRequest)
    requires
        name.wf(),
    ensures
        r.name.wf(),
        r.name@ == name@,
        r.flags == IFF_UP,
{
    UpRequest { name: name.duplicate(), flags: IFF_UP }
}

/// The IPv4 address-assignment request pair: one "set address" and one
/// "set netmask" control request on the same interface.
#[derive(Debug)]
pub struct AddrV4Request {
    /// The interface the requests address.
    pub name: IfName,
    /// The address to assign, as a 32-bit value with the first octet in the
    /// highest bits.
    pub addr: u32,
    /// The netmask derived from the prefix length, same layout.
    pub netmask: u32,
}

/// Builds the IPv4 assignment request; a prefix length outside [1, 32] is
/// rejected.
pub fn assign_v4_request(name: &IfName, addr: u32, prefix_len: u32) -> (r: Option<AddrV4Request>)
    requires
        name.wf(),
    ensures
        match r {
            Some(q) => {
                &&& 1 <= prefix_len <= 32
                &&& q.name.wf()
                &&& q.name@ == name@
                &&& q.addr == addr
                &&& q.netmask == mask_ones(prefix_len)
            },
            None => !(1 <= prefix_len <= 32),
        },
{
    match netmask_v4(prefix_len) {
        Some(mask) => Some(AddrV4Request { name: name.duplicate(), addr, netmask: mask }),
        None => None,
    }
}

/// The IPv4 route-addition request: destination network, genmask, metric,
/// attached to the interface by name.
#[derive(Debug)]
pub struct RouteV4Request {
    /// The interface the route is attached to.
    pub name: IfName,
    /// The destination network: the address masked down to its network part.
    pub dest: u32,
    /// The route's genmask: the netmask of the prefix length.
    pub genmask: u32,
    /// The route metric.
    pub metric: u16,
}

/// Builds the IPv4 route request: the destination is the address AND the
/// netmask; a prefix length outside [1, 32] is rejected.
pub fn route_v4_request(name: &IfName, addr: u32, prefix_len: u32, metric: u16) -> (r: Option<
    RouteV4Request,
>)
    requires
        name.wf(),
    ensures
        match r {
            Some(q) => {
                &&& 1 <= prefix_len <= 32
                &&& q.name.wf()
                &&& q.name@ == name@
                &&& q.dest == addr & mask_ones(prefix_len)
                &&& q.genmask == mask_ones(prefix_len)
                &&& q.metric == metric
            },
            None => !(1 <= prefix_len <= 32),
        },
{
    match netmask_v4(prefix_len) {
        Some(mask) => Some(
            RouteV4Request { name: name.duplicate(), dest: addr & mask, genmask: mask, metric },
        ),
        None => None,
    }
}

/// The IPv6 address-assignment request: a single "set address" control
/// request keyed by interface index, carrying address bytes and prefix
/// length.
#[derive(Debug)]
pub struct AddrV6Request {
    /// The interface index the request addresses.
    pub ifindex: u32,
    /// The address to assign, as its 16 bytes in network order.
    pub addr: Vec<u8>,
    /// The prefix length.
    pub prefix_len: u32,
}

/// Builds the IPv6 assignment request from the resolved interface index and
/// the address bytes.
pub fn assign_v6_request(ifindex: u32, addr: Vec<u8>, prefix_len: u32) -> (r: AddrV6Request)
    requires
        addr@.len() == 16,
    ensures
        r.ifindex == ifindex,
        r.addr@ == addr@,
        r.addr@.len() == 16,
        r.prefix_len == prefix_len,
{
    AddrV6Request { ifindex, addr, prefix_len }
}

} // verus!
