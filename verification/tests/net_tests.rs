use portmap::errors::Failure;
use portmap::net::{
    find_internal_ip, ipv4_network_address, matches_gateway, GatewayAddress, InterfaceAddress,
    Ipv4Address,
};

fn ip(o0: u8, o1: u8, o2: u8, o3: u8) -> Ipv4Address {
    Ipv4Address::new(o0, o1, o2, o3)
}

#[test]
fn network_address_is_bitwise_and() {
    assert_eq!(
        ipv4_network_address(ip(192, 168, 1, 42), ip(255, 255, 255, 0)),
        ip(192, 168, 1, 0)
    );
    assert_eq!(ipv4_network_address(ip(10, 1, 2, 3), ip(255, 0, 0, 0)), ip(10, 0, 0, 0));
    assert_eq!(
        ipv4_network_address(ip(172, 16, 254, 7), ip(255, 255, 0, 0)),
        ip(172, 16, 0, 0)
    );
}

#[test]
fn network_address_is_idempotent() {
    let addr = ip(192, 168, 1, 42);
    let mask = ip(255, 255, 255, 0);
    let once = ipv4_network_address(addr, mask);
    let twice = ipv4_network_address(once, mask);
    assert_eq!(once, twice);
}

#[test]
fn interface_on_gateway_network_matches() {
    let gateway = ip(192, 168, 1, 1);
    let on_net = InterfaceAddress { addr: ip(192, 168, 1, 42), netmask: ip(255, 255, 255, 0) };
    let off_net = InterfaceAddress { addr: ip(10, 0, 0, 5), netmask: ip(255, 255, 255, 0) };
    assert!(matches_gateway(&on_net, gateway));
    assert!(!matches_gateway(&off_net, gateway));
}

#[test]
fn find_internal_ip_returns_first_match() {
    let gateway = GatewayAddress::V4(ip(192, 168, 1, 1));
    let interfaces = vec![
        InterfaceAddress { addr: ip(10, 0, 0, 5), netmask: ip(255, 255, 255, 0) },
        InterfaceAddress { addr: ip(192, 168, 1, 42), netmask: ip(255, 255, 255, 0) },
        InterfaceAddress { addr: ip(192, 168, 1, 77), netmask: ip(255, 255, 255, 0) },
    ];
    assert_eq!(find_internal_ip(&gateway, &interfaces), Ok(ip(192, 168, 1, 42)));
}

#[test]
fn find_internal_ip_skips_loopback_and_unspecified() {
    let gateway = GatewayAddress::V4(ip(192, 168, 1, 1));
    let interfaces = vec![
        InterfaceAddress { addr: ip(127, 0, 0, 1), netmask: ip(0, 0, 0, 0) },
        InterfaceAddress { addr: ip(0, 0, 0, 0), netmask: ip(0, 0, 0, 0) },
        InterfaceAddress { addr: ip(192, 168, 1, 42), netmask: ip(255, 255, 255, 0) },
    ];
    assert_eq!(find_internal_ip(&gateway, &interfaces), Ok(ip(192, 168, 1, 42)));
}

#[test]
fn find_internal_ip_without_match_fails() {
    let gateway = GatewayAddress::V4(ip(192, 168, 1, 1));
    let interfaces = vec![
        InterfaceAddress { addr: ip(10, 0, 0, 5), netmask: ip(255, 255, 255, 0) },
    ];
    let r = find_internal_ip(&gateway, &interfaces);
    assert_eq!(r, Err(Failure::NoMatchingInterface));
    assert_eq!(
        r.unwrap_err().describe(),
        "Could not find a valid interface associated with the default gateway."
    );
}

#[test]
fn find_internal_ip_refuses_non_ipv4_gateway() {
    let interfaces = vec![
        InterfaceAddress { addr: ip(192, 168, 1, 42), netmask: ip(255, 255, 255, 0) },
    ];
    let r = find_internal_ip(&GatewayAddress::Other, &interfaces);
    assert_eq!(r, Err(Failure::NotIpv4Gateway));
    assert_eq!(r.unwrap_err().describe(), "Gateway is not an IPv4 address.");
}
