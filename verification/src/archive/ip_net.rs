//! Network prefixes in CIDR form, and membership of an address in one.

use vstd::prelude::*;
use crate::archive::address::{Ipv4Address, Ipv6Address};

verus! {

/// The mask of an IPv4 prefix: the first `prefix_len` bits set.
pub open spec fn ipv4_netmask(prefix_len: u8) -> u32 {
    if prefix_len == 0 {
        0u32
    } else {
        0xffff_ffffu32 << ((32 - prefix_len) as u32)
    }
}

/// The complement of the IPv4 mask: the last `32 - prefix_len` bits set.
pub open spec fn ipv4_hostmask(prefix_len: u8) -> u32 {
    if prefix_len >= 32 {
        0u32
    } else {
        0xffff_ffffu32 >> (prefix_len as u32)
    }
}

/// The lowest address of the prefix that `addr/prefix_len` names.
pub open spec fn ipv4_first(addr: u32, prefix_len: u8) -> u32 {
    addr & ipv4_netmask(prefix_len)
}

/// The highest address of the prefix that `addr/prefix_len` names.
pub open spec fn ipv4_last(addr: u32, prefix_len: u8) -> u32 {
    addr | ipv4_hostmask(prefix_len)
}

/// Whether `ip` lies in the prefix `addr/prefix_len`.
pub open spec fn ipv4_in_prefix(addr: u32, prefix_len: u8, ip: u32) -> bool {
    ipv4_first(addr, prefix_len) <= ip <= ipv4_last(addr, prefix_len)
}

/// The mask of an IPv6 prefix: the first `prefix_len` bits set.
pub open spec fn ipv6_netmask(prefix_len: u8) -> u128 {
    if prefix_len == 0 {
        0u128
    } else {
        0xffff_ffff_ffff_ffff_ffff_ffff_ffff_ffffu128 << ((128 - prefix_len) as u128)
    }
}

/// The complement of the IPv6 mask: the last `128 - prefix_len` bits set.
pub open spec fn ipv6_hostmask(prefix_len: u8) -> u128 {
    if prefix_len >= 128 {
        0u128
    } else {
        0xffff_ffff_ffff_ffff_ffff_ffff_ffff_ffffu128 >> (prefix_len as u128)
    }
}

/// The lowest address of the prefix that `addr/prefix_len` names.
pub open spec fn ipv6_first(addr: u128, prefix_len: u8) -> u128 {
    addr & ipv6_netmask(prefix_len)
}

/// The highest address of the prefix that `addr/prefix_len` names.
pub open spec fn ipv6_last(addr: u128, prefix_len: u8) -> u128 {
    addr | ipv6_hostmask(prefix_len)
}

/// Whether `ip` lies in the prefix `addr/prefix_len`.
pub open spec fn ipv6_in_prefix(addr: u128, prefix_len: u8, ip: u128) -> bool {
    ipv6_first(addr, prefix_len) <= ip <= ipv6_last(addr, prefix_len)
}

/// An IPv4 network: an address and the number of its leading bits that name
/// the network.
#[derive(Clone, Copy, Debug, PartialEq, Eq, Structural)]
pub struct Ipv4Net {
    pub addr: Ipv4Address,
    pub prefix_len: u8,
}

/// An IPv6 network: an address and the number of its leading bits that name
/// the network.
#[derive(Clone, Copy, Debug, PartialEq, Eq, Structural)]
pub struct Ipv6Net {
    pub addr: Ipv6Address,
    pub prefix_len: u8,
}

impl Ipv4Net {
    /// A prefix length is at most the 32 bits of an address.
    pub open spec fn wf(self) -> bool {
        self.prefix_len <= 32
    }

    /// The addresses of the network.
    pub open spec fn spec_contains(self, ip: Ipv4Address) -> bool {
        self.wf() && ipv4_in_prefix(self.addr.bits, self.prefix_len, ip.bits)
    }

    /// The network `addr/prefix_len`, or nothing where the prefix is longer
    /// than an address.
    pub fn new(addr: Ipv4Address, prefix_len: u8) -> (net: Option<Ipv4Net>)
        ensures
            net == if prefix_len <= 32 {
                Some(Ipv4Net { addr, prefix_len })
            } else {
                None
            },
    {
        if prefix_len <= 32 {
            Some(Ipv4Net { addr, prefix_len })
        } else {
            None
        }
    }

    /// Whether `ip` is an address of this network. A value that is no
    /// network holds none.
    pub fn contains(&self, ip: Ipv4Address) -> (found: bool)
        ensures
            found == self.spec_contains(ip),
    {
        self.prefix_len <= 32 && ipnet_v4_contains(self.addr.bits, self.prefix_len, ip.bits)
    }
}

impl Ipv6Net {
    /// A prefix length is at most the 128 bits of an address.
    pub open spec fn wf(self) -> bool {
        self.prefix_len <= 128
    }

    /// The addresses of the network.
    pub open spec fn spec_contains(self, ip: Ipv6Address) -> bool {
        self.wf() && ipv6_in_prefix(self.addr.bits, self.prefix_len, ip.bits)
    }

    /// The network `addr/prefix_len`, or nothing where the prefix is longer
    /// than an address.
    pub fn new(addr: Ipv6Address, prefix_len: u8) -> (net: Option<Ipv6Net>)
        ensures
            net == if prefix_len <= 128 {
                Some(Ipv6Net { addr, prefix_len })
            } else {
                None
            },
    {
        if prefix_len <= 128 {
            Some(Ipv6Net { addr, prefix_len })
        } else {
            None
        }
    }

    /// Whether `ip` is an address of this network. A value that is no
    /// network holds none.
    pub fn contains(&self, ip: Ipv6Address) -> (found: bool)
        ensures
            found == self.spec_contains(ip),
    {
        self.prefix_len <= 128 && ipnet_v6_contains(self.addr.bits, self.prefix_len, ip.bits)
    }
}

/// `ipnet::Ipv4Net::contains`, on an address. The crate answers whether the
/// address lies between the network address (the bits under the netmask) and
/// the broadcast address (the bits over the hostmask), both included.
#[verifier::external_body]
fn ipnet_v4_contains(addr: u32, prefix_len: u8, ip: u32) -> (found: bool)
    requires
        prefix_len <= 32,
    ensures
        found == ipv4_in_prefix(addr, prefix_len, ip),
{
    let ip: core::net::Ipv4Addr = ip.into();
    ipnet::Ipv4Net::new_assert(addr.into(), prefix_len).contains(&ip)
}

/// `ipnet::Ipv6Net::contains`, on an address. The crate answers whether the
/// address lies between the first address of the network (the bits under the
/// netmask) and its last (the bits over the hostmask), both included.
#[verifier::external_body]
fn ipnet_v6_contains(addr: u128, prefix_len: u8, ip: u128) -> (found: bool)
    requires
        prefix_len <= 128,
    ensures
        found == ipv6_in_prefix(addr, prefix_len, ip),
{
    let ip: core::net::Ipv6Addr = ip.into();
    ipnet::Ipv6Net::new_assert(addr.into(), prefix_len).contains(&ip)
}

/// An IPv4 address lies in a prefix exactly when it has the prefix's bits
/// wherever the netmask is set, that is, in its first `prefix_len` bits.
pub proof fn law_ipv4_prefix_is_leading_bits(addr: u32, prefix_len: u8, ip: u32)
    by (bit_vector)
    requires
        prefix_len <= 32,
    ensures
        ipv4_in_prefix(addr, prefix_len, ip) <==> ip & ipv4_netmask(prefix_len) == addr
            & ipv4_netmask(prefix_len),
{
}

/// An IPv6 address lies in a prefix exactly when it has the prefix's bits
/// wherever the netmask is set, that is, in its first `prefix_len` bits.
pub proof fn law_ipv6_prefix_is_leading_bits(addr: u128, prefix_len: u8, ip: u128)
    by (bit_vector)
    requires
        prefix_len <= 128,
    ensures
        ipv6_in_prefix(addr, prefix_len, ip) <==> ip & ipv6_netmask(prefix_len) == addr
            & ipv6_netmask(prefix_len),
{
}

} // verus!
