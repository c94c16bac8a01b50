//! The blocked networks as plain ranges of addresses, and the proof that the
//! table of prefixes blocks exactly these.

use vstd::prelude::*;
use crate::archive::address::{
    ipv4_bits, is_ipv4_mapped, IpAddress, Ipv4Address, Ipv6Address, SocketAddress,
    IPV4_MAPPED_FIRST,
};
use crate::archive::error::FetchErrorView;
use crate::archive::ip_net::{ipv4_first, ipv4_last, ipv6_first, ipv6_last};
use crate::archive::safe_dns_resolver::{
    any_ipv4_net_contains, any_ipv6_net_contains, blocked_ipv4_nets, blocked_ipv6_nets,
    embedded_ipv4, ip_safe, ipv4_safe, ipv6_safe, safe_addresses, spec_resolve,
};

verus! {

/// Whether an IPv4 address lies in one of the ranges that are never to be
/// contacted, each written with its first and last address.
pub open spec fn in_blocked_ipv4_range(ip: Ipv4Address) -> bool {
    let b = ip.bits as int;
    // Current network, 0.0.0.0/8.
    ||| ipv4_bits(0, 0, 0, 0) <= b <= ipv4_bits(0, 255, 255, 255)
    // Private, 10.0.0.0/8.
    ||| ipv4_bits(10, 0, 0, 0) <= b <= ipv4_bits(10, 255, 255, 255)
    // Carrier-grade NAT, 100.64.0.0/10.
    ||| ipv4_bits(100, 64, 0, 0) <= b <= ipv4_bits(100, 127, 255, 255)
    // Loopback, 127.0.0.0/8.
    ||| ipv4_bits(127, 0, 0, 0) <= b <= ipv4_bits(127, 255, 255, 255)
    // Link-local, 169.254.0.0/16.
    ||| ipv4_bits(169, 254, 0, 0) <= b <= ipv4_bits(169, 254, 255, 255)
    // Private, 172.16.0.0/12.
    ||| ipv4_bits(172, 16, 0, 0) <= b <= ipv4_bits(172, 31, 255, 255)
    // IETF protocol assignments, 192.0.0.0/24.
    ||| ipv4_bits(192, 0, 0, 0) <= b <= ipv4_bits(192, 0, 0, 255)
    // Documentation, 192.0.2.0/24.
    ||| ipv4_bits(192, 0, 2, 0) <= b <= ipv4_bits(192, 0, 2, 255)
    // Private, 192.168.0.0/16.
    ||| ipv4_bits(192, 168, 0, 0) <= b <= ipv4_bits(192, 168, 255, 255)
    // Benchmarking, 198.18.0.0/15.
    ||| ipv4_bits(198, 18, 0, 0) <= b <= ipv4_bits(198, 19, 255, 255)
    // Documentation, 198.51.100.0/24.
    ||| ipv4_bits(198, 51, 100, 0) <= b <= ipv4_bits(198, 51, 100, 255)
    // Documentation, 203.0.113.0/24.
    ||| ipv4_bits(203, 0, 113, 0) <= b <= ipv4_bits(203, 0, 113, 255)
    // Multicast, reserved space and broadcast, 224.0.0.0 and above.
    ||| ipv4_bits(224, 0, 0, 0) <= b <= ipv4_bits(255, 255, 255, 255)
}

/// Whether an IPv6 address that embeds no IPv4 address lies in one of the
/// ranges that are never to be contacted, each written with its first and
/// last address.
pub open spec fn in_blocked_ipv6_range(ip: Ipv6Address) -> bool {
    let b = ip.bits;
    // Unspecified, loopback and IPv4-compatible, ::/96.
    ||| b <= 0x0000_0000_0000_0000_0000_0000_ffff_ffff
    // IPv4-mapped, ::ffff:0:0/96.
    ||| 0x0000_0000_0000_0000_0000_ffff_0000_0000 <= b <= 0x0000_0000_0000_0000_0000_ffff_ffff_ffff
    // Teredo tunnelling, 2001::/32.
    ||| 0x2001_0000_0000_0000_0000_0000_0000_0000 <= b <= 0x2001_0000_ffff_ffff_ffff_ffff_ffff_ffff
    // Documentation, 2001:db8::/32.
    ||| 0x2001_0db8_0000_0000_0000_0000_0000_0000 <= b <= 0x2001_0db8_ffff_ffff_ffff_ffff_ffff_ffff
    // 6to4, 2002::/16.
    ||| 0x2002_0000_0000_0000_0000_0000_0000_0000 <= b <= 0x2002_ffff_ffff_ffff_ffff_ffff_ffff_ffff
    // Unique local, fc00::/7.
    ||| 0xfc00_0000_0000_0000_0000_0000_0000_0000 <= b <= 0xfdff_ffff_ffff_ffff_ffff_ffff_ffff_ffff
    // Link-local, fe80::/10.
    ||| 0xfe80_0000_0000_0000_0000_0000_0000_0000 <= b <= 0xfebf_ffff_ffff_ffff_ffff_ffff_ffff_ffff
    // Multicast, ff00::/8.
    ||| 0xff00_0000_0000_0000_0000_0000_0000_0000 <= b
}

/// Whether an address lies in a blocked range of its family, an IPv4-mapped
/// IPv6 address counting as the IPv4 address that it embeds.
pub open spec fn in_blocked_range(ip: IpAddress) -> bool {
    match ip {
        IpAddress::V4(v4) => in_blocked_ipv4_range(v4),
        IpAddress::V6(v6) => if is_ipv4_mapped(v6.bits) {
            in_blocked_ipv4_range(embedded_ipv4(v6))
        } else {
            in_blocked_ipv6_range(v6)
        },
    }
}

/// The IPv4-mapped IPv6 address `::ffff:a.b.c.d` of the IPv4 address
/// `a.b.c.d`.
pub open spec fn ipv4_mapped(ip: Ipv4Address) -> Ipv6Address {
    Ipv6Address { bits: (IPV4_MAPPED_FIRST + ip.bits) as u128 }
}

proof fn lemma_ipv4_table_bounds()
    by (bit_vector)
    ensures
        ipv4_first(0x7f00_0000, 8) == 0x7f00_0000 && ipv4_last(0x7f00_0000, 8) == 0x7fff_ffff,
        ipv4_first(0x0a00_0000, 8) == 0x0a00_0000 && ipv4_last(0x0a00_0000, 8) == 0x0aff_ffff,
        ipv4_first(0xac10_0000, 12) == 0xac10_0000 && ipv4_last(0xac10_0000, 12) == 0xac1f_ffff,
        ipv4_first(0xc0a8_0000, 16) == 0xc0a8_0000 && ipv4_last(0xc0a8_0000, 16) == 0xc0a8_ffff,
        ipv4_first(0xa9fe_0000, 16) == 0xa9fe_0000 && ipv4_last(0xa9fe_0000, 16) == 0xa9fe_ffff,
        ipv4_first(0x0000_0000, 8) == 0x0000_0000 && ipv4_last(0x0000_0000, 8) == 0x00ff_ffff,
        ipv4_first(0x6440_0000, 10) == 0x6440_0000 && ipv4_last(0x6440_0000, 10) == 0x647f_ffff,
        ipv4_first(0xc000_0000, 24) == 0xc000_0000 && ipv4_last(0xc000_0000, 24) == 0xc000_00ff,
        ipv4_first(0xc000_0200, 24) == 0xc000_0200 && ipv4_last(0xc000_0200, 24) == 0xc000_02ff,
        ipv4_first(0xc633_6400, 24) == 0xc633_6400 && ipv4_last(0xc633_6400, 24) == 0xc633_64ff,
        ipv4_first(0xcb00_7100, 24) == 0xcb00_7100 && ipv4_last(0xcb00_7100, 24) == 0xcb00_71ff,
        ipv4_first(0xc612_0000, 15) == 0xc612_0000 && ipv4_last(0xc612_0000, 15) == 0xc613_ffff,
        ipv4_first(0xe000_0000, 4) == 0xe000_0000 && ipv4_last(0xe000_0000, 4) == 0xefff_ffff,
        ipv4_first(0xf000_0000, 4) == 0xf000_0000 && ipv4_last(0xf000_0000, 4) == 0xffff_ffff,
        ipv4_first(0xffff_ffff, 32) == 0xffff_ffff && ipv4_last(0xffff_ffff, 32) == 0xffff_ffff,
{
}

/// The table of IPv4 prefixes blocks exactly the listed ranges of IPv4
/// addresses.
pub proof fn lemma_ipv4_table_is_ranges(ip: Ipv4Address)
    ensures
        any_ipv4_net_contains(blocked_ipv4_nets(), ip) <==> in_blocked_ipv4_range(ip),
{
    lemma_ipv4_table_bounds();
    let table = blocked_ipv4_nets();
    if in_blocked_ipv4_range(ip) {
        let b = ip.bits as int;
        let k: int = if ipv4_bits(127, 0, 0, 0) <= b <= ipv4_bits(127, 255, 255, 255) {
            0
        } else if ipv4_bits(10, 0, 0, 0) <= b <= ipv4_bits(10, 255, 255, 255) {
            1
        } else if ipv4_bits(172, 16, 0, 0) <= b <= ipv4_bits(172, 31, 255, 255) {
            2
        } else if ipv4_bits(192, 168, 0, 0) <= b <= ipv4_bits(192, 168, 255, 255) {
            3
        } else if ipv4_bits(169, 254, 0, 0) <= b <= ipv4_bits(169, 254, 255, 255) {
            4
        } else if ipv4_bits(0, 0, 0, 0) <= b <= ipv4_bits(0, 255, 255, 255) {
            5
        } else if ipv4_bits(100, 64, 0, 0) <= b <= ipv4_bits(100, 127, 255, 255) {
            6
        } else if ipv4_bits(192, 0, 0, 0) <= b <= ipv4_bits(192, 0, 0, 255) {
            7
        } else if ipv4_bits(192, 0, 2, 0) <= b <= ipv4_bits(192, 0, 2, 255) {
            8
        } else if ipv4_bits(198, 51, 100, 0) <= b <= ipv4_bits(198, 51, 100, 255) {
            9
        } else if ipv4_bits(203, 0, 113, 0) <= b <= ipv4_bits(203, 0, 113, 255) {
            10
        } else if ipv4_bits(198, 18, 0, 0) <= b <= ipv4_bits(198, 19, 255, 255) {
            11
        } else if b <= ipv4_bits(239, 255, 255, 255) {
            12
        } else {
            13
        };
        assert(table[k].spec_contains(ip));
    }
}

proof fn lemma_ipv6_table_bounds()
    by (bit_vector)
    ensures
        ipv6_first(0x0000_0000_0000_0000_0000_0000_0000_0001, 128)
            == 0x0000_0000_0000_0000_0000_0000_0000_0001
            && ipv6_last(0x0000_0000_0000_0000_0000_0000_0000_0001, 128)
            == 0x0000_0000_0000_0000_0000_0000_0000_0001,
        ipv6_first(0x0000_0000_0000_0000_0000_0000_0000_0000, 128)
            == 0x0000_0000_0000_0000_0000_0000_0000_0000
            && ipv6_last(0x0000_0000_0000_0000_0000_0000_0000_0000, 128)
            == 0x0000_0000_0000_0000_0000_0000_0000_0000,
        ipv6_first(0x0000_0000_0000_0000_0000_ffff_0000_0000, 96)
            == 0x0000_0000_0000_0000_0000_ffff_0000_0000
            && ipv6_last(0x0000_0000_0000_0000_0000_ffff_0000_0000, 96)
            == 0x0000_0000_0000_0000_0000_ffff_ffff_ffff,
        ipv6_first(0x0000_0000_0000_0000_0000_0000_0000_0000, 96)
            == 0x0000_0000_0000_0000_0000_0000_0000_0000
            && ipv6_last(0x0000_0000_0000_0000_0000_0000_0000_0000, 96)
            == 0x0000_0000_0000_0000_0000_0000_ffff_ffff,
        ipv6_first(0xfc00_0000_0000_0000_0000_0000_0000_0000, 7)
            == 0xfc00_0000_0000_0000_0000_0000_0000_0000
            && ipv6_last(0xfc00_0000_0000_0000_0000_0000_0000_0000, 7)
            == 0xfdff_ffff_ffff_ffff_ffff_ffff_ffff_ffff,
        ipv6_first(0xfe80_0000_0000_0000_0000_0000_0000_0000, 10)
            == 0xfe80_0000_0000_0000_0000_0000_0000_0000
            && ipv6_last(0xfe80_0000_0000_0000_0000_0000_0000_0000, 10)
            == 0xfebf_ffff_ffff_ffff_ffff_ffff_ffff_ffff,
        ipv6_first(0xff00_0000_0000_0000_0000_0000_0000_0000, 8)
            == 0xff00_0000_0000_0000_0000_0000_0000_0000
            && ipv6_last(0xff00_0000_0000_0000_0000_0000_0000_0000, 8)
            == 0xffff_ffff_ffff_ffff_ffff_ffff_ffff_ffff,
        ipv6_first(0x2001_0db8_0000_0000_0000_0000_0000_0000, 32)
            == 0x2001_0db8_0000_0000_0000_0000_0000_0000
            && ipv6_last(0x2001_0db8_0000_0000_0000_0000_0000_0000, 32)
            == 0x2001_0db8_ffff_ffff_ffff_ffff_ffff_ffff,
        ipv6_first(0x2001_0000_0000_0000_0000_0000_0000_0000, 32)
            == 0x2001_0000_0000_0000_0000_0000_0000_0000
            && ipv6_last(0x2001_0000_0000_0000_0000_0000_0000_0000, 32)
            == 0x2001_0000_ffff_ffff_ffff_ffff_ffff_ffff,
        ipv6_first(0x2002_0000_0000_0000_0000_0000_0000_0000, 16)
            == 0x2002_0000_0000_0000_0000_0000_0000_0000
            && ipv6_last(0x2002_0000_0000_0000_0000_0000_0000_0000, 16)
            == 0x2002_ffff_ffff_ffff_ffff_ffff_ffff_ffff,
{
}

/// The table of IPv6 prefixes blocks exactly the listed ranges of IPv6
/// addresses.
pub proof fn lemma_ipv6_table_is_ranges(ip: Ipv6Address)
    ensures
        any_ipv6_net_contains(blocked_ipv6_nets(), ip) <==> in_blocked_ipv6_range(ip),
{
    lemma_ipv6_table_bounds();
    let table = blocked_ipv6_nets();
    if in_blocked_ipv6_range(ip) {
        let b = ip.bits;
        let k: int = if b <= 0x0000_0000_0000_0000_0000_0000_ffff_ffff {
            3
        } else if b <= 0x0000_0000_0000_0000_0000_ffff_ffff_ffff {
            2
        } else if b <= 0x2001_0000_ffff_ffff_ffff_ffff_ffff_ffff {
            8
        } else if b <= 0x2001_0db8_ffff_ffff_ffff_ffff_ffff_ffff {
            7
        } else if b <= 0x2002_ffff_ffff_ffff_ffff_ffff_ffff_ffff {
            9
        } else if b <= 0xfdff_ffff_ffff_ffff_ffff_ffff_ffff_ffff {
            4
        } else if b <= 0xfebf_ffff_ffff_ffff_ffff_ffff_ffff_ffff {
            5
        } else {
            6
        };
        assert(table[k].spec_contains(ip));
    }
}

/// Every address of a blocked range is unsafe, and every other address is
/// safe: the verdict on an address is whether it lies outside the blocked
/// ranges.
pub proof fn law_safe_is_outside_blocked_ranges(ip: IpAddress)
    ensures
        ip_safe(ip) <==> !in_blocked_range(ip),
{
    match ip {
        IpAddress::V4(v4) => {
            lemma_ipv4_table_is_ranges(v4);
        },
        IpAddress::V6(v6) => {
            lemma_ipv4_table_is_ranges(embedded_ipv4(v6));
            lemma_ipv6_table_is_ranges(v6);
        },
    }
}

/// An IPv4-mapped IPv6 address gets the verdict of the IPv4 address that it
/// embeds, whatever the IPv6 table says of it.
pub proof fn law_mapped_address_follows_ipv4(ip: Ipv4Address)
    ensures
        is_ipv4_mapped(ipv4_mapped(ip).bits),
        embedded_ipv4(ipv4_mapped(ip)) == ip,
        ipv6_safe(ipv4_mapped(ip)) == ipv4_safe(ip),
        ip_safe(IpAddress::V6(ipv4_mapped(ip))) == ip_safe(IpAddress::V4(ip)),
{
}

/// The verdict depends on the address alone: equal addresses get equal
/// verdicts, however often they are asked about.
pub proof fn law_verdict_is_function_of_address(a: IpAddress, b: IpAddress)
    requires
        a == b,
    ensures
        ip_safe(a) == ip_safe(b),
{
}

/// A name that resolves to addresses of blocked ranges only is refused,
/// though its resolution succeeded.
pub proof fn law_blocked_destination_is_refused(addrs: Seq<SocketAddress>)
    requires
        forall|i: int| 0 <= i < addrs.len() ==> in_blocked_range((#[trigger] addrs[i]).spec_ip()),
    ensures
        spec_resolve(addrs) == Err::<Seq<SocketAddress>, FetchErrorView>(
            FetchErrorView::BlockedDestination,
        ),
{
    let pred = |addr: SocketAddress| ip_safe(addr.spec_ip());
    assert forall|i: int| 0 <= i < addrs.len() implies !pred(#[trigger] addrs[i]) by {
        law_safe_is_outside_blocked_ranges(addrs[i].spec_ip());
    }
    addrs.lemma_all_neg_filter_empty(pred);
}

/// A name with an address outside the blocked ranges resolves: that address
/// is handed on, and with it no address of a blocked range.
pub proof fn law_public_destination_is_accepted(addrs: Seq<SocketAddress>, i: int)
    requires
        0 <= i < addrs.len(),
        !in_blocked_range(addrs[i].spec_ip()),
    ensures
        spec_resolve(addrs) == Ok::<Seq<SocketAddress>, FetchErrorView>(safe_addresses(addrs)),
        safe_addresses(addrs).contains(addrs[i]),
        forall|j: int|
            0 <= j < safe_addresses(addrs).len() ==> !in_blocked_range(
                (#[trigger] safe_addresses(addrs)[j]).spec_ip(),
            ),
{
    let pred = |addr: SocketAddress| ip_safe(addr.spec_ip());
    law_safe_is_outside_blocked_ranges(addrs[i].spec_ip());
    addrs.lemma_filter_contains(pred, i);
    assert forall|j: int| 0 <= j < safe_addresses(addrs).len() implies !in_blocked_range(
        (#[trigger] safe_addresses(addrs)[j]).spec_ip(),
    ) by {
        addrs.lemma_filter_pred(pred, j);
        law_safe_is_outside_blocked_ranges(safe_addresses(addrs)[j].spec_ip());
    }
}

} // verus!
