//! Which addresses an outbound request may reach.
//!
//! A fixed table of network prefixes names the destinations that are never
//! to be contacted: loopback, private and link-local space, the documentation
//! and benchmarking ranges, multicast, reserved space, and the IPv6 ranges
//! that tunnel or embed IPv4 addresses. An address is safe when no prefix of
//! the table for its family holds it; an IPv4-mapped IPv6 address is judged
//! as the IPv4 address that it embeds.

use vstd::prelude::*;
use crate::archive::address::{
    ipv4_bits, is_ipv4_mapped, IpAddress, Ipv4Address, Ipv6Address, SocketAddress,
    IPV4_MAPPED_FIRST,
};
use crate::archive::error::{FetchError, FetchErrorView};
use crate::archive::views::result_view;
use crate::archive::ip_net::{Ipv4Net, Ipv6Net};

verus! {

/// The network `a.b.c.d/prefix_len`.
pub open spec fn net4(a: u8, b: u8, c: u8, d: u8, prefix_len: u8) -> Ipv4Net {
    Ipv4Net { addr: Ipv4Address { bits: ipv4_bits(a, b, c, d) as u32 }, prefix_len }
}

/// The network whose address has the bits `bits`, with `prefix_len` of them
/// naming the network.
pub open spec fn net6(bits: u128, prefix_len: u8) -> Ipv6Net {
    Ipv6Net { addr: Ipv6Address { bits }, prefix_len }
}

/// The IPv4 networks that no request may reach.
pub open spec fn blocked_ipv4_nets() -> Seq<Ipv4Net> {
    seq![
        // Loopback.
        net4(127, 0, 0, 0, 8),
        // Private networks.
        net4(10, 0, 0, 0, 8),
        net4(172, 16, 0, 0, 12),
        net4(192, 168, 0, 0, 16),
        // Link-local, which holds the cloud metadata endpoint 169.254.169.254.
        net4(169, 254, 0, 0, 16),
        // Current network.
        net4(0, 0, 0, 0, 8),
        // Shared address space of carrier-grade NAT.
        net4(100, 64, 0, 0, 10),
        // IETF protocol assignments.
        net4(192, 0, 0, 0, 24),
        // Documentation.
        net4(192, 0, 2, 0, 24),
        net4(198, 51, 100, 0, 24),
        net4(203, 0, 113, 0, 24),
        // Benchmarking.
        net4(198, 18, 0, 0, 15),
        // Multicast.
        net4(224, 0, 0, 0, 4),
        // Reserved for future use.
        net4(240, 0, 0, 0, 4),
        // Broadcast.
        net4(255, 255, 255, 255, 32),
    ]
}

/// The IPv6 networks that no request may reach.
pub open spec fn blocked_ipv6_nets() -> Seq<Ipv6Net> {
    seq![
        // Loopback, ::1.
        net6(0x0000_0000_0000_0000_0000_0000_0000_0001, 128),
        // The unspecified address, ::.
        net6(0x0000_0000_0000_0000_0000_0000_0000_0000, 128),
        // IPv4-mapped addresses, ::ffff:0:0/96.
        net6(0x0000_0000_0000_0000_0000_ffff_0000_0000, 96),
        // IPv4-compatible addresses, ::/96.
        net6(0x0000_0000_0000_0000_0000_0000_0000_0000, 96),
        // Unique local addresses, fc00::/7.
        net6(0xfc00_0000_0000_0000_0000_0000_0000_0000, 7),
        // Link-local, fe80::/10.
        net6(0xfe80_0000_0000_0000_0000_0000_0000_0000, 10),
        // Multicast, ff00::/8.
        net6(0xff00_0000_0000_0000_0000_0000_0000_0000, 8),
        // Documentation, 2001:db8::/32.
        net6(0x2001_0db8_0000_0000_0000_0000_0000_0000, 32),
        // Teredo tunnelling, 2001::/32.
        net6(0x2001_0000_0000_0000_0000_0000_0000_0000, 32),
        // 6to4, 2002::/16.
        net6(0x2002_0000_0000_0000_0000_0000_0000_0000, 16),
    ]
}

/// Whether some network of `nets` holds `ip`.
pub open spec fn any_ipv4_net_contains(nets: Seq<Ipv4Net>, ip: Ipv4Address) -> bool {
    exists|i: int| 0 <= i < nets.len() && (#[trigger] nets[i]).spec_contains(ip)
}

/// Whether some network of `nets` holds `ip`.
pub open spec fn any_ipv6_net_contains(nets: Seq<Ipv6Net>, ip: Ipv6Address) -> bool {
    exists|i: int| 0 <= i < nets.len() && (#[trigger] nets[i]).spec_contains(ip)
}

/// An IPv4 address is safe when no blocked IPv4 network holds it.
pub open spec fn ipv4_safe(ip: Ipv4Address) -> bool {
    !any_ipv4_net_contains(blocked_ipv4_nets(), ip)
}

/// The IPv4 address that an IPv4-mapped IPv6 address embeds.
pub open spec fn embedded_ipv4(ip: Ipv6Address) -> Ipv4Address {
    Ipv4Address { bits: (ip.bits - IPV4_MAPPED_FIRST) as u32 }
}

/// An IPv4-mapped IPv6 address is as safe as the IPv4 address that it embeds;
/// any other IPv6 address is safe when no blocked IPv6 network holds it.
pub open spec fn ipv6_safe(ip: Ipv6Address) -> bool {
    if is_ipv4_mapped(ip.bits) {
        ipv4_safe(embedded_ipv4(ip))
    } else {
        !any_ipv6_net_contains(blocked_ipv6_nets(), ip)
    }
}

/// An address is safe by the rule of its family.
pub open spec fn ip_safe(ip: IpAddress) -> bool {
    match ip {
        IpAddress::V4(v4) => ipv4_safe(v4),
        IpAddress::V6(v6) => ipv6_safe(v6),
    }
}

fn ipv4_net(a: u8, b: u8, c: u8, d: u8, prefix_len: u8) -> (net: Ipv4Net)
    ensures
        net == net4(a, b, c, d, prefix_len),
{
    Ipv4Net { addr: Ipv4Address::new(a, b, c, d), prefix_len }
}

fn ipv6_net(bits: u128, prefix_len: u8) -> (net: Ipv6Net)
    ensures
        net == net6(bits, prefix_len),
{
    Ipv6Net { addr: Ipv6Address { bits }, prefix_len }
}

/// The table of blocked IPv4 networks.
pub fn blocked_ipv4_table() -> (table: Vec<Ipv4Net>)
    ensures
        table@ == blocked_ipv4_nets(),
{
    let table = vec![
        ipv4_net(127, 0, 0, 0, 8),
        ipv4_net(10, 0, 0, 0, 8),
        ipv4_net(172, 16, 0, 0, 12),
        ipv4_net(192, 168, 0, 0, 16),
        ipv4_net(169, 254, 0, 0, 16),
        ipv4_net(0, 0, 0, 0, 8),
        ipv4_net(100, 64, 0, 0, 10),
        ipv4_net(192, 0, 0, 0, 24),
        ipv4_net(192, 0, 2, 0, 24),
        ipv4_net(198, 51, 100, 0, 24),
        ipv4_net(203, 0, 113, 0, 24),
        ipv4_net(198, 18, 0, 0, 15),
        ipv4_net(224, 0, 0, 0, 4),
        ipv4_net(240, 0, 0, 0, 4),
        ipv4_net(255, 255, 255, 255, 32),
    ];
    assert(table@ =~= blocked_ipv4_nets());
    table
}

/// The table of blocked IPv6 networks.
pub fn blocked_ipv6_table() -> (table: Vec<Ipv6Net>)
    ensures
        table@ == blocked_ipv6_nets(),
{
    let table = vec![
        ipv6_net(0x0000_0000_0000_0000_0000_0000_0000_0001, 128),
        ipv6_net(0x0000_0000_0000_0000_0000_0000_0000_0000, 128),
        ipv6_net(0x0000_0000_0000_0000_0000_ffff_0000_0000, 96),
        ipv6_net(0x0000_0000_0000_0000_0000_0000_0000_0000, 96),
        ipv6_net(0xfc00_0000_0000_0000_0000_0000_0000_0000, 7),
        ipv6_net(0xfe80_0000_0000_0000_0000_0000_0000_0000, 10),
        ipv6_net(0xff00_0000_0000_0000_0000_0000_0000_0000, 8),
        ipv6_net(0x2001_0db8_0000_0000_0000_0000_0000_0000, 32),
        ipv6_net(0x2001_0000_0000_0000_0000_0000_0000_0000, 32),
        ipv6_net(0x2002_0000_0000_0000_0000_0000_0000_0000, 16),
    ];
    assert(table@ =~= blocked_ipv6_nets());
    table
}

/// Whether an IPv4 address may be contacted.
pub fn is_ipv4_safe(ip: Ipv4Address) -> (safe: bool)
    ensures
        safe == ipv4_safe(ip),
{
    let table = blocked_ipv4_table();
    let mut i: usize = 0;
    while i < table.len()
        invariant
            i <= table.len(),
            table@ == blocked_ipv4_nets(),
            forall|j: int| 0 <= j < i ==> !(#[trigger] table@[j]).spec_contains(ip),
        decreases table.len() - i,
    {
        if table[i].contains(ip) {
            return false;
        }
        i += 1;
    }
    true
}

/// Whether an IPv6 address may be contacted.
pub fn is_ipv6_safe(ip: Ipv6Address) -> (safe: bool)
    ensures
        safe == ipv6_safe(ip),
{
    if let Some(v4) = ip.to_ipv4_mapped() {
        return is_ipv4_safe(v4);
    }
    let table = blocked_ipv6_table();
    let mut i: usize = 0;
    while i < table.len()
        invariant
            i <= table.len(),
            table@ == blocked_ipv6_nets(),
            !is_ipv4_mapped(ip.bits),
            forall|j: int| 0 <= j < i ==> !(#[trigger] table@[j]).spec_contains(ip),
        decreases table.len() - i,
    {
        if table[i].contains(ip) {
            return false;
        }
        i += 1;
    }
    true
}

/// Whether an address may be contacted.
pub fn is_ip_safe(ip: IpAddress) -> (safe: bool)
    ensures
        safe == ip_safe(ip),
{
    match ip {
        IpAddress::V4(v4) => is_ipv4_safe(v4),
        IpAddress::V6(v6) => is_ipv6_safe(v6),
    }
}

/// The addresses of `addrs` that may be contacted, in the order in which
/// they were given.
pub open spec fn safe_addresses(addrs: Seq<SocketAddress>) -> Seq<SocketAddress> {
    addrs.filter(|addr: SocketAddress| ip_safe(addr.spec_ip()))
}

/// What name resolution, filtered, hands to the HTTP client: the safe
/// addresses, or a refusal where none is left.
pub open spec fn spec_resolve(addrs: Seq<SocketAddress>) -> Result<
    Seq<SocketAddress>,
    FetchErrorView,
> {
    if safe_addresses(addrs).len() == 0 {
        Err(FetchErrorView::BlockedDestination)
    } else {
        Ok(safe_addresses(addrs))
    }
}

/// An address that name resolution gave, with the verdict on it.
#[derive(Clone, Copy, Debug, PartialEq, Eq, Structural)]
pub struct ResolvedAddress {
    pub address: SocketAddress,
    pub permitted: bool,
}

/// A name resolver that hands out no address of a blocked range.
///
/// It stands between the ordinary resolution of a host name and the HTTP
/// client, so that the verdict falls on the very addresses that the client
/// would connect to, whatever the name was.
#[derive(Clone, Copy, Debug)]
pub struct SafeDnsResolver;

impl SafeDnsResolver {
    /// The verdict on one resolved address.
    pub fn classify(&self, address: SocketAddress) -> (resolved: ResolvedAddress)
        ensures
            resolved.address == address,
            resolved.permitted == ip_safe(address.spec_ip()),
    {
        ResolvedAddress { address, permitted: is_ip_safe(address.ip()) }
    }

    /// Filters what the ordinary resolution of a name gave. The safe
    /// addresses are handed on in their order; where none is safe, also
    /// where none was given, the destination is refused.
    pub fn resolve(&self, looked_up: &Vec<SocketAddress>) -> (resolved: Result<
        Vec<SocketAddress>,
        FetchError,
    >)
        ensures
            result_view(resolved) == spec_resolve(looked_up@),
    {
        let mut safe: Vec<SocketAddress> = Vec::new();
        let mut i: usize = 0;
        proof {
            assert(looked_up@.take(0) =~= Seq::<SocketAddress>::empty());
            reveal(Seq::filter);
        }
        while i < looked_up.len()
            invariant
                i <= looked_up.len(),
                safe@ == safe_addresses(looked_up@.take(i as int)),
            decreases looked_up.len() - i,
        {
            let verdict = self.classify(looked_up[i]);
            proof {
                let pred = |addr: SocketAddress| ip_safe(addr.spec_ip());
                assert(looked_up@.take(i + 1) =~= looked_up@.take(i as int).push(
                    looked_up@[i as int],
                ));
                looked_up@.take(i as int).lemma_filter_push(looked_up@[i as int], pred);
            }
            if verdict.permitted {
                safe.push(verdict.address);
            }
            i += 1;
        }
        proof {
            assert(looked_up@.take(i as int) =~= looked_up@);
        }
        if safe.len() == 0 {
            Err(FetchError::BlockedDestination)
        } else {
            Ok(safe)
        }
    }
}

} // verus!
