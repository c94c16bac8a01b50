use ties::archive::address::{
    IpAddress, Ipv4Address, Ipv6Address, SocketAddress, SocketAddressV4, SocketAddressV6,
};
use ties::archive::error::FetchError;
use ties::archive::ip_net::{Ipv4Net, Ipv6Net};
use ties::archive::safe_dns_resolver::{
    blocked_ipv4_table, blocked_ipv6_table, is_ip_safe, is_ipv4_safe, is_ipv6_safe,
    ResolvedAddress, SafeDnsResolver,
};

/// The address that `text` writes, read by `ipnet` as a network of one
/// address.
fn ip(text: &str) -> IpAddress {
    let prefix_len = if text.contains(':') { 128 } else { 32 };
    match format!("{text}/{prefix_len}").parse::<ipnet::IpNet>().unwrap() {
        ipnet::IpNet::V4(net) => IpAddress::V4(Ipv4Address { bits: u32::from(net.addr()) }),
        ipnet::IpNet::V6(net) => IpAddress::V6(Ipv6Address { bits: u128::from(net.addr()) }),
    }
}

fn socket(text: &str, port: u16) -> SocketAddress {
    match ip(text) {
        IpAddress::V4(ip) => SocketAddress::V4(SocketAddressV4 { ip, port }),
        IpAddress::V6(ip) => {
            SocketAddress::V6(SocketAddressV6 { ip, port, flowinfo: 0, scope_id: 0 })
        }
    }
}

#[test]
fn test_loopback_blocked() {
    assert!(!is_ip_safe(ip("127.0.0.1")));
    assert!(!is_ip_safe(ip("127.0.0.2")));
    assert!(!is_ip_safe(ip("127.255.255.255")));
    assert!(!is_ip_safe(ip("::1")));
}

#[test]
fn test_private_networks_blocked() {
    // 10.0.0.0/8
    assert!(!is_ip_safe(ip("10.0.0.1")));
    assert!(!is_ip_safe(ip("10.255.255.255")));

    // 172.16.0.0/12
    assert!(!is_ip_safe(ip("172.16.0.1")));
    assert!(!is_ip_safe(ip("172.31.255.255")));
    // 172.32.x.x is NOT private
    assert!(is_ip_safe(ip("172.32.0.1")));

    // 192.168.0.0/16
    assert!(!is_ip_safe(ip("192.168.0.1")));
    assert!(!is_ip_safe(ip("192.168.255.255")));
}

#[test]
fn test_link_local_blocked() {
    // IPv4 link-local (includes cloud metadata endpoints)
    assert!(!is_ip_safe(ip("169.254.0.1")));
    assert!(!is_ip_safe(ip("169.254.169.254")));
    assert!(!is_ip_safe(ip("169.254.255.255")));

    // IPv6 link-local
    assert!(!is_ip_safe(ip("fe80::1")));
}

#[test]
fn test_ipv6_private_blocked() {
    // Unique local addresses (fc00::/7)
    assert!(!is_ip_safe(ip("fc00::1")));
    assert!(!is_ip_safe(ip("fd00::1")));
}

#[test]
fn test_ipv4_mapped_ipv6_blocked() {
    assert!(!is_ip_safe(ip("::ffff:127.0.0.1")));
    assert!(!is_ip_safe(ip("::ffff:10.0.0.1")));
    assert!(!is_ip_safe(ip("::ffff:169.254.169.254")));
}

#[test]
fn test_public_ips_allowed() {
    assert!(is_ip_safe(ip("8.8.8.8")));
    assert!(is_ip_safe(ip("1.1.1.1")));
    assert!(is_ip_safe(ip("93.184.216.34")));
    assert!(is_ip_safe(ip("2606:2800:220:1:248:1893:25c8:1946")));
}

#[test]
fn test_multicast_blocked() {
    assert!(!is_ip_safe(ip("224.0.0.1")));
    assert!(!is_ip_safe(ip("239.255.255.255")));
    assert!(!is_ip_safe(ip("ff02::1")));
}

#[test]
fn test_documentation_ranges_blocked() {
    assert!(!is_ip_safe(ip("192.0.2.1")));
    assert!(!is_ip_safe(ip("198.51.100.1")));
    assert!(!is_ip_safe(ip("203.0.113.1")));
    assert!(!is_ip_safe(ip("2001:db8::1")));
}

#[test]
fn test_special_ranges_blocked() {
    // Current network
    assert!(!is_ip_safe(ip("0.0.0.0")));
    // Broadcast
    assert!(!is_ip_safe(ip("255.255.255.255")));
    // Reserved
    assert!(!is_ip_safe(ip("240.0.0.1")));
    // Carrier-grade NAT
    assert!(!is_ip_safe(ip("100.64.0.1")));
}

#[test]
fn address_from_octets_matches_parsed_text() {
    assert_eq!(IpAddress::V4(Ipv4Address::new(192, 168, 1, 20)), ip("192.168.1.20"));
    assert_eq!(Ipv4Address::new(127, 0, 0, 1).bits, 0x7f00_0001);
    assert_eq!(Ipv4Address::new(0, 0, 0, 0).bits, 0);
    assert_eq!(Ipv4Address::new(255, 255, 255, 255).bits, u32::MAX);
}

#[test]
fn address_from_groups_matches_parsed_text() {
    let built = Ipv6Address::new([0x2606, 0x2800, 0x220, 0x1, 0x248, 0x1893, 0x25c8, 0x1946]);
    assert_eq!(IpAddress::V6(built), ip("2606:2800:220:1:248:1893:25c8:1946"));
    assert_eq!(Ipv6Address::new([0, 0, 0, 0, 0, 0, 0, 1]).bits, 1);
    assert_eq!(Ipv6Address::new([0xffff; 8]).bits, u128::MAX);
    assert_eq!(
        Ipv6Address::new([0xfe80, 0, 0, 0, 0, 0, 0, 1]).bits,
        0xfe80_0000_0000_0000_0000_0000_0000_0001
    );
}

#[test]
fn mapped_address_embeds_its_ipv4_address() {
    let mapped = Ipv6Address::new([0, 0, 0, 0, 0, 0xffff, 0x0808, 0x0808]);
    assert_eq!(mapped.to_ipv4_mapped(), Some(Ipv4Address::new(8, 8, 8, 8)));
    let lowest = Ipv6Address { bits: 0xffff_0000_0000 };
    assert_eq!(lowest.to_ipv4_mapped(), Some(Ipv4Address { bits: 0 }));
    let highest = Ipv6Address { bits: 0xffff_ffff_ffff };
    assert_eq!(highest.to_ipv4_mapped(), Some(Ipv4Address { bits: u32::MAX }));
    // One below and one above the mapped range embed nothing.
    assert_eq!(Ipv6Address { bits: 0xfffe_ffff_ffff }.to_ipv4_mapped(), None);
    assert_eq!(Ipv6Address { bits: 0x1_0000_0000_0000 }.to_ipv4_mapped(), None);
    // An IPv4-compatible address is not a mapped one.
    assert_eq!(Ipv6Address { bits: 0x0808_0808 }.to_ipv4_mapped(), None);
}

#[test]
fn mapped_address_gets_the_verdict_of_its_ipv4_address() {
    // A public IPv4 address stays public when mapped, although the IPv6 table
    // lists the whole mapped range.
    assert!(is_ip_safe(ip("::ffff:8.8.8.8")));
    assert!(is_ip_safe(ip("::ffff:93.184.216.34")));
    assert!(!is_ip_safe(ip("::ffff:192.168.0.1")));
    for text in ["8.8.8.8", "10.1.2.3", "172.31.0.1", "172.32.0.1", "224.0.0.1", "1.1.1.1"] {
        let mapped = format!("::ffff:{text}");
        assert_eq!(is_ip_safe(ip(&mapped)), is_ip_safe(ip(text)));
    }
}

#[test]
fn verdict_is_the_same_when_asked_twice() {
    for text in ["8.8.8.8", "127.0.0.1", "fe80::1", "2606:2800:220:1:248:1893:25c8:1946"] {
        assert_eq!(is_ip_safe(ip(text)), is_ip_safe(ip(text)));
    }
}

#[test]
fn range_edges_are_exact() {
    // The last address before and the first after each IPv4 range are safe
    // where no other range takes them.
    assert!(is_ip_safe(ip("9.255.255.255")));
    assert!(!is_ip_safe(ip("10.0.0.0")));
    assert!(is_ip_safe(ip("11.0.0.0")));
    assert!(is_ip_safe(ip("100.63.255.255")));
    assert!(!is_ip_safe(ip("100.64.0.0")));
    assert!(!is_ip_safe(ip("100.127.255.255")));
    assert!(is_ip_safe(ip("100.128.0.0")));
    assert!(is_ip_safe(ip("126.255.255.255")));
    assert!(is_ip_safe(ip("128.0.0.0")));
    assert!(is_ip_safe(ip("169.253.255.255")));
    assert!(is_ip_safe(ip("169.255.0.0")));
    assert!(is_ip_safe(ip("172.15.255.255")));
    assert!(!is_ip_safe(ip("172.16.0.0")));
    assert!(!is_ip_safe(ip("192.0.0.255")));
    assert!(is_ip_safe(ip("192.0.1.0")));
    assert!(!is_ip_safe(ip("192.0.2.255")));
    assert!(is_ip_safe(ip("192.0.3.0")));
    assert!(is_ip_safe(ip("192.167.255.255")));
    assert!(is_ip_safe(ip("192.169.0.0")));
    assert!(is_ip_safe(ip("198.17.255.255")));
    assert!(!is_ip_safe(ip("198.18.0.0")));
    assert!(!is_ip_safe(ip("198.19.255.255")));
    assert!(is_ip_safe(ip("198.20.0.0")));
    assert!(is_ip_safe(ip("198.51.99.255")));
    assert!(is_ip_safe(ip("198.51.101.0")));
    assert!(is_ip_safe(ip("203.0.112.255")));
    assert!(is_ip_safe(ip("203.0.114.0")));
    assert!(is_ip_safe(ip("223.255.255.255")));
    assert!(!is_ip_safe(ip("224.0.0.0")));
    assert!(!is_ip_safe(ip("0.255.255.255")));
    assert!(is_ip_safe(ip("1.0.0.0")));
}

#[test]
fn ipv6_range_edges_are_exact() {
    assert!(!is_ip_safe(ip("::")));
    assert!(!is_ip_safe(ip("::8.8.8.8")));
    assert!(!is_ip_safe(ip("::ffff:ffff")));
    assert!(is_ip_safe(ip("::1:0:0:0")));
    assert!(!is_ip_safe(ip("2001::1")));
    assert!(!is_ip_safe(ip("2001:0:ffff:ffff:ffff:ffff:ffff:ffff")));
    assert!(is_ip_safe(ip("2001:1::")));
    assert!(is_ip_safe(ip("2001:db7:ffff:ffff:ffff:ffff:ffff:ffff")));
    assert!(!is_ip_safe(ip("2001:db8::")));
    assert!(is_ip_safe(ip("2001:db9::")));
    assert!(is_ip_safe(ip("2001:ffff:ffff:ffff:ffff:ffff:ffff:ffff")));
    assert!(!is_ip_safe(ip("2002::")));
    assert!(!is_ip_safe(ip("2002:ffff:ffff:ffff:ffff:ffff:ffff:ffff")));
    assert!(is_ip_safe(ip("2003::")));
    assert!(is_ip_safe(ip("fbff:ffff:ffff:ffff:ffff:ffff:ffff:ffff")));
    assert!(!is_ip_safe(ip("fdff:ffff:ffff:ffff:ffff:ffff:ffff:ffff")));
    assert!(is_ip_safe(ip("fe00::")));
    assert!(is_ip_safe(ip("fe7f:ffff:ffff:ffff:ffff:ffff:ffff:ffff")));
    assert!(!is_ip_safe(ip("febf:ffff:ffff:ffff:ffff:ffff:ffff:ffff")));
    assert!(is_ip_safe(ip("fec0::")));
    assert!(!is_ip_safe(ip("ff00::")));
    assert!(!is_ip_safe(ip("ffff:ffff:ffff:ffff:ffff:ffff:ffff:ffff")));
}

#[test]
fn family_functions_agree_with_is_ip_safe() {
    assert!(is_ipv4_safe(Ipv4Address::new(8, 8, 8, 8)));
    assert!(!is_ipv4_safe(Ipv4Address::new(169, 254, 169, 254)));
    assert!(is_ipv6_safe(Ipv6Address::new([0x2606, 0x4700, 0, 0, 0, 0, 0, 0x1111])));
    assert!(!is_ipv6_safe(Ipv6Address::new([0xfc00, 0, 0, 0, 0, 0, 0, 1])));
}

#[test]
fn tables_hold_the_blocked_networks() {
    let v4 = blocked_ipv4_table();
    assert_eq!(v4.len(), 15);
    assert_eq!(v4[0], Ipv4Net { addr: Ipv4Address::new(127, 0, 0, 0), prefix_len: 8 });
    assert_eq!(v4[2], Ipv4Net { addr: Ipv4Address::new(172, 16, 0, 0), prefix_len: 12 });
    assert_eq!(v4[14], Ipv4Net { addr: Ipv4Address::new(255, 255, 255, 255), prefix_len: 32 });
    let v6 = blocked_ipv6_table();
    assert_eq!(v6.len(), 10);
    assert_eq!(v6[0], Ipv6Net { addr: Ipv6Address { bits: 1 }, prefix_len: 128 });
    assert_eq!(
        v6[4],
        Ipv6Net { addr: Ipv6Address::new([0xfc00, 0, 0, 0, 0, 0, 0, 0]), prefix_len: 7 }
    );
    assert_eq!(
        v6[9],
        Ipv6Net { addr: Ipv6Address::new([0x2002, 0, 0, 0, 0, 0, 0, 0]), prefix_len: 16 }
    );
}

#[test]
fn network_contains_its_addresses_only() {
    let net = Ipv4Net::new(Ipv4Address::new(192, 168, 0, 0), 24).unwrap();
    assert!(net.contains(Ipv4Address::new(192, 168, 0, 0)));
    assert!(net.contains(Ipv4Address::new(192, 168, 0, 1)));
    assert!(net.contains(Ipv4Address::new(192, 168, 0, 255)));
    assert!(!net.contains(Ipv4Address::new(192, 168, 1, 0)));
    assert!(!net.contains(Ipv4Address::new(192, 167, 255, 255)));
    // The bits of the address beyond the prefix do not count.
    let loose = Ipv4Net::new(Ipv4Address::new(172, 16, 123, 123), 16).unwrap();
    assert!(loose.contains(Ipv4Address::new(172, 16, 0, 0)));
    assert!(loose.contains(Ipv4Address::new(172, 16, 255, 255)));
    assert!(!loose.contains(Ipv4Address::new(172, 17, 0, 0)));
    // A prefix of length zero holds everything, one of full length a single
    // address.
    let all = Ipv4Net::new(Ipv4Address::new(1, 2, 3, 4), 0).unwrap();
    assert!(all.contains(Ipv4Address::new(0, 0, 0, 0)));
    assert!(all.contains(Ipv4Address::new(255, 255, 255, 255)));
    let one = Ipv4Net::new(Ipv4Address::new(1, 2, 3, 4), 32).unwrap();
    assert!(one.contains(Ipv4Address::new(1, 2, 3, 4)));
    assert!(!one.contains(Ipv4Address::new(1, 2, 3, 5)));
    assert!(!one.contains(Ipv4Address::new(1, 2, 3, 3)));
}

#[test]
fn ipv6_network_contains_its_addresses_only() {
    let net = Ipv6Net::new(Ipv6Address::new([0xfd00, 0, 0, 0, 0, 0, 0, 0]), 24).unwrap();
    assert!(net.contains(Ipv6Address::new([0xfd00, 0, 0, 0, 0, 0, 0, 0])));
    assert!(net.contains(Ipv6Address::new([0xfd00, 0x00ff, 0xffff, 0, 0, 0, 0, 1])));
    assert!(!net.contains(Ipv6Address::new([0xfd00, 0x0100, 0, 0, 0, 0, 0, 0])));
    let all = Ipv6Net::new(Ipv6Address { bits: 7 }, 0).unwrap();
    assert!(all.contains(Ipv6Address { bits: 0 }));
    assert!(all.contains(Ipv6Address { bits: u128::MAX }));
    let one = Ipv6Net::new(Ipv6Address { bits: 7 }, 128).unwrap();
    assert!(one.contains(Ipv6Address { bits: 7 }));
    assert!(!one.contains(Ipv6Address { bits: 6 }));
    assert!(!one.contains(Ipv6Address { bits: 8 }));
}

#[test]
fn prefix_longer_than_an_address_is_no_network() {
    assert_eq!(Ipv4Net::new(Ipv4Address::new(10, 0, 0, 0), 33), None);
    assert!(Ipv4Net::new(Ipv4Address::new(10, 0, 0, 0), 32).is_some());
    assert_eq!(Ipv6Net::new(Ipv6Address { bits: 0 }, 129), None);
    assert!(Ipv6Net::new(Ipv6Address { bits: 0 }, 128).is_some());
    let broken = Ipv4Net { addr: Ipv4Address::new(10, 0, 0, 0), prefix_len: 40 };
    assert!(!broken.contains(Ipv4Address::new(10, 0, 0, 0)));
    let broken = Ipv6Net { addr: Ipv6Address { bits: 0 }, prefix_len: 200 };
    assert!(!broken.contains(Ipv6Address { bits: 0 }));
}

#[test]
fn classify_gives_address_and_verdict() {
    let resolver = SafeDnsResolver;
    assert_eq!(
        resolver.classify(socket("8.8.8.8", 443)),
        ResolvedAddress { address: socket("8.8.8.8", 443), permitted: true }
    );
    assert_eq!(
        resolver.classify(socket("10.0.0.1", 80)),
        ResolvedAddress { address: socket("10.0.0.1", 80), permitted: false }
    );
}

#[test]
fn resolve_keeps_safe_addresses_in_order() {
    let resolver = SafeDnsResolver;
    let looked_up = vec![
        socket("93.184.216.34", 0),
        socket("10.0.0.1", 0),
        socket("2606:2800:220:1:248:1893:25c8:1946", 0),
        socket("::1", 0),
        socket("8.8.8.8", 0),
    ];
    assert_eq!(
        resolver.resolve(&looked_up),
        Ok(vec![
            socket("93.184.216.34", 0),
            socket("2606:2800:220:1:248:1893:25c8:1946", 0),
            socket("8.8.8.8", 0),
        ])
    );
}

#[test]
fn resolve_refuses_a_name_with_blocked_addresses_only() {
    let resolver = SafeDnsResolver;
    let looked_up = vec![socket("127.0.0.1", 0), socket("::1", 0), socket("169.254.169.254", 0)];
    assert_eq!(resolver.resolve(&looked_up), Err(FetchError::BlockedDestination));
}

#[test]
fn resolve_hands_flow_information_and_scope_on() {
    let resolver = SafeDnsResolver;
    let public = Ipv6Address::new([0x2606, 0x4700, 0, 0, 0, 0, 0, 0x1111]);
    let marked =
        SocketAddress::V6(SocketAddressV6 { ip: public, port: 443, flowinfo: 7, scope_id: 3 });
    assert_eq!(marked.ip(), IpAddress::V6(public));
    assert_eq!(socket("8.8.4.4", 53).ip(), ip("8.8.4.4"));
    assert_eq!(resolver.resolve(&vec![socket("10.0.0.1", 443), marked]), Ok(vec![marked]));
}

#[test]
fn resolve_refuses_a_name_without_addresses() {
    let resolver = SafeDnsResolver;
    assert_eq!(resolver.resolve(&Vec::new()), Err(FetchError::BlockedDestination));
}
