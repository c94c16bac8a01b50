//! IP and socket addresses as plain integers.

use vstd::prelude::*;

verus! {

/// The 32 bits of the IPv4 address `a.b.c.d`, first octet highest.
pub open spec fn ipv4_bits(a: u8, b: u8, c: u8, d: u8) -> int {
    a * 0x100_0000 + b * 0x1_0000 + c * 0x100 + d
}

/// The 128 bits of the IPv6 address whose eight 16-bit groups are those of
/// `groups`, first group highest.
pub open spec fn ipv6_bits(groups: Seq<u16>) -> int
    decreases groups.len(),
{
    if groups.len() == 0 {
        0
    } else {
        ipv6_bits(groups.drop_last()) * 0x1_0000 + groups.last()
    }
}

/// The lowest IPv4-mapped IPv6 address, `::ffff:0.0.0.0`.
pub const IPV4_MAPPED_FIRST: u128 = 0xffff_0000_0000;

/// The highest IPv4-mapped IPv6 address, `::ffff:255.255.255.255`.
pub const IPV4_MAPPED_LAST: u128 = 0xffff_ffff_ffff;

/// Whether the 128 bits are those of an IPv4-mapped address `::ffff:a.b.c.d`.
pub open spec fn is_ipv4_mapped(bits: u128) -> bool {
    IPV4_MAPPED_FIRST <= bits <= IPV4_MAPPED_LAST
}

/// An IPv4 address, held as its 32 bits in network order.
#[derive(Clone, Copy, Debug, PartialEq, Eq, Structural)]
pub struct Ipv4Address {
    pub bits: u32,
}

/// An IPv6 address, held as its 128 bits in network order.
#[derive(Clone, Copy, Debug, PartialEq, Eq, Structural)]
pub struct Ipv6Address {
    pub bits: u128,
}

/// An IP address of either family.
#[derive(Clone, Copy, Debug, PartialEq, Eq, Structural)]
pub enum IpAddress {
    V4(Ipv4Address),
    V6(Ipv6Address),
}

/// An IPv4 address with a port.
#[derive(Clone, Copy, Debug, PartialEq, Eq, Structural)]
pub struct SocketAddressV4 {
    pub ip: Ipv4Address,
    pub port: u16,
}

/// An IPv6 address with a port, its flow information and its scope.
#[derive(Clone, Copy, Debug, PartialEq, Eq, Structural)]
pub struct SocketAddressV6 {
    pub ip: Ipv6Address,
    pub port: u16,
    pub flowinfo: u32,
    pub scope_id: u32,
}

/// An IP address with a port, as name resolution hands it out.
#[derive(Clone, Copy, Debug, PartialEq, Eq, Structural)]
pub enum SocketAddress {
    V4(SocketAddressV4),
    V6(SocketAddressV6),
}

impl Ipv4Address {
    /// The address `a.b.c.d`.
    pub fn new(a: u8, b: u8, c: u8, d: u8) -> (ip: Ipv4Address)
        ensures
            ip.bits == ipv4_bits(a, b, c, d),
    {
        let hi: u32 = a as u32 * 0x100_0000 + b as u32 * 0x1_0000;
        let lo: u32 = c as u32 * 0x100 + d as u32;
        Ipv4Address { bits: hi + lo }
    }
}

impl Ipv6Address {
    /// The address whose eight groups, as written between the colons, are
    /// `groups`.
    pub fn new(groups: [u16; 8]) -> (ip: Ipv6Address)
        ensures
            ip.bits == ipv6_bits(groups@),
    {
        let mut bits: u128 = 0;
        let mut i: usize = 0;
        while i < 8
            invariant
                i <= 8,
                bits == ipv6_bits(groups@.take(i as int)),
                ipv6_bits(groups@.take(i as int)) < pow65536(i as nat),
            decreases 8 - i,
        {
            proof {
                let next = groups@.take(i + 1);
                assert(next.drop_last() =~= groups@.take(i as int));
                reveal_with_fuel(pow65536, 9);
            }
            bits = bits * 0x1_0000 + groups[i] as u128;
            i += 1;
        }
        proof {
            assert(groups@.take(8) =~= groups@);
        }
        Ipv6Address { bits }
    }

    /// The IPv4 address that this address embeds, where it is an IPv4-mapped
    /// one (`::ffff:a.b.c.d`), and nothing for any other address.
    pub fn to_ipv4_mapped(&self) -> (embedded: Option<Ipv4Address>)
        ensures
            embedded is Some <==> is_ipv4_mapped(self.bits),
            embedded matches Some(v4) ==> v4.bits == self.bits - IPV4_MAPPED_FIRST,
    {
        if IPV4_MAPPED_FIRST <= self.bits && self.bits <= IPV4_MAPPED_LAST {
            let low: u128 = self.bits - IPV4_MAPPED_FIRST;
            Some(Ipv4Address { bits: low as u32 })
        } else {
            None
        }
    }
}

impl SocketAddress {
    /// The IP address of the socket address.
    pub open spec fn spec_ip(self) -> IpAddress {
        match self {
            SocketAddress::V4(v4) => IpAddress::V4(v4.ip),
            SocketAddress::V6(v6) => IpAddress::V6(v6.ip),
        }
    }

    /// The IP address of the socket address.
    pub fn ip(&self) -> (ip: IpAddress)
        ensures
            ip == self.spec_ip(),
    {
        match self {
            SocketAddress::V4(v4) => IpAddress::V4(v4.ip),
            SocketAddress::V6(v6) => IpAddress::V6(v6.ip),
        }
    }
}

/// `65536` to the power `n`: one more than the highest value of `n` groups.
spec fn pow65536(n: nat) -> int
    decreases n,
{
    if n == 0 {
        1
    } else {
        pow65536((n - 1) as nat) * 0x1_0000
    }
}

} // verus!
