//! IPv4 addresses as plain octets, network addresses under a netmask, and
//! the choice of the interface address that faces the default gateway.

use vstd::prelude::*;
use crate::errors::Failure;

verus! {

/// An IPv4 address held as its four octets.
#[derive(Clone, Copy, PartialEq, Eq, Structural, Debug)]
pub struct Ipv4Address {
    pub o0: u8,
    pub o1: u8,
    pub o2: u8,
    pub o3: u8,
}

impl Ipv4Address {
    pub fn new(o0: u8, o1: u8, o2: u8, o3: u8) -> (r: Ipv4Address)
        ensures
            r == (Ipv4Address { o0, o1, o2, o3 }),
    {
        Ipv4Address { o0, o1, o2, o3 }
    }

    /// The all-zero address, which never names an interface.
    pub open spec fn spec_is_unspecified(self) -> bool {
        self.o0 == 0 && self.o1 == 0 && self.o2 == 0 && self.o3 == 0
    }

    pub fn is_unspecified(&self) -> (r: bool)
        ensures
            r == self.spec_is_unspecified(),
    {
        self.o0 == 0 && self.o1 == 0 && self.o2 == 0 && self.o3 == 0
    }

    /// A loopback address: anything in 127.0.0.0/8.
    pub open spec fn spec_is_loopback(self) -> bool {
        self.o0 == 127
    }

    pub fn is_loopback(&self) -> (r: bool)
        ensures
            r == self.spec_is_loopback(),
    {
        self.o0 == 127
    }
}

/// The network address of `ip` under `mask`: the bitwise AND, octet by octet.
pub open spec fn spec_network_address(ip: Ipv4Address, mask: Ipv4Address) -> Ipv4Address {
    Ipv4Address {
        o0: ip.o0 & mask.o0,
        o1: ip.o1 & mask.o1,
        o2: ip.o2 & mask.o2,
        o3: ip.o3 & mask.o3,
    }
}

pub fn ipv4_network_address(ip: Ipv4Address, netmask: Ipv4Address) -> (r: Ipv4Address)
    ensures
        r == spec_network_address(ip, netmask),
{
    Ipv4Address {
        o0: ip.o0 & netmask.o0,
        o1: ip.o1 & netmask.o1,
        o2: ip.o2 & netmask.o2,
        o3: ip.o3 & netmask.o3,
    }
}

/// Masking one octet twice is the same as masking it once.
proof fn lemma_octet_mask_idempotent(a: u8, m: u8)
    by (bit_vector)
    ensures
        (a & m) & m == a & m,
{
}

/// Masking is idempotent: taking the network address of a network address
/// under the same mask changes nothing.
pub proof fn lemma_network_address_idempotent(ip: Ipv4Address, mask: Ipv4Address)
    ensures
        spec_network_address(spec_network_address(ip, mask), mask) == spec_network_address(
            ip,
            mask,
        ),
{
    lemma_octet_mask_idempotent(ip.o0, mask.o0);
    lemma_octet_mask_idempotent(ip.o1, mask.o1);
    lemma_octet_mask_idempotent(ip.o2, mask.o2);
    lemma_octet_mask_idempotent(ip.o3, mask.o3);
}

/// One IPv4 address of a network interface together with its netmask.
#[derive(Clone, Copy, PartialEq, Eq, Structural, Debug)]
pub struct InterfaceAddress {
    pub addr: Ipv4Address,
    pub netmask: Ipv4Address,
}

/// Whether this interface address faces the gateway: it is neither loopback
/// nor unspecified, and its network address equals the gateway's network
/// address under the interface's own netmask.
pub open spec fn spec_matches_gateway(ia: InterfaceAddress, gateway: Ipv4Address) -> bool {
    &&& !ia.addr.spec_is_loopback()
    &&& !ia.addr.spec_is_unspecified()
    &&& spec_network_address(ia.addr, ia.netmask) == spec_network_address(gateway, ia.netmask)
}

pub fn matches_gateway(ia: &InterfaceAddress, gateway: Ipv4Address) -> (r: bool)
    ensures
        r == spec_matches_gateway(*ia, gateway),
{
    let not_excluded = !ia.addr.is_loopback() && !ia.addr.is_unspecified();
    let iface_network = ipv4_network_address(ia.addr, ia.netmask);
    let gateway_network = ipv4_network_address(gateway, ia.netmask);
    not_excluded && iface_network == gateway_network
}

/// A default gateway's address, which may not be IPv4.
#[derive(Clone, Copy, PartialEq, Eq, Structural, Debug)]
pub enum GatewayAddress {
    V4(Ipv4Address),
    Other,
}

/// The address of the first interface entry that faces the gateway, in the
/// order the interfaces were enumerated.
pub open spec fn spec_first_match(ifaces: Seq<InterfaceAddress>, gateway: Ipv4Address) -> Option<
    Ipv4Address,
>
    decreases ifaces.len(),
{
    if ifaces.len() == 0 {
        None
    } else if spec_matches_gateway(ifaces[0], gateway) {
        Some(ifaces[0].addr)
    } else {
        spec_first_match(ifaces.skip(1), gateway)
    }
}

proof fn lemma_first_match_step(ifaces: Seq<InterfaceAddress>, gateway: Ipv4Address, i: int)
    requires
        0 <= i < ifaces.len(),
        !spec_matches_gateway(ifaces[i], gateway),
    ensures
        spec_first_match(ifaces.skip(i), gateway) == spec_first_match(ifaces.skip(i + 1), gateway),
{
    assert(ifaces.skip(i)[0] == ifaces[i]);
    assert(ifaces.skip(i).skip(1) =~= ifaces.skip(i + 1));
}

/// The scan comes up empty exactly when no enumerated interface address
/// matches the gateway.
pub proof fn lemma_first_match_none_means_no_match(
    ifaces: Seq<InterfaceAddress>,
    gateway: Ipv4Address,
)
    ensures
        (spec_first_match(ifaces, gateway) is None) <==> (forall|i: int|
            0 <= i < ifaces.len() ==> !spec_matches_gateway(#[trigger] ifaces[i], gateway)),
    decreases ifaces.len(),
{
    if ifaces.len() > 0 {
        lemma_first_match_none_means_no_match(ifaces.skip(1), gateway);
        assert(forall|i: int|
            0 <= i < ifaces.skip(1).len() ==> #[trigger] ifaces.skip(1)[i] == ifaces[i + 1]);
        if spec_first_match(ifaces, gateway) is None {
            assert forall|i: int|
                0 <= i < ifaces.len() implies !spec_matches_gateway(
                #[trigger] ifaces[i],
                gateway,
            ) by {
                if i > 0 {
                    assert(ifaces.skip(1)[i - 1] == ifaces[i]);
                }
            }
        }
    }
}

/// The internal IP the tools report: scan the enumerated interface addresses
/// in order and return the first that faces the gateway.  A non-IPv4 gateway
/// is refused outright; a scan that finds nothing reports that no interface
/// is associated with the gateway.
pub fn find_internal_ip(gateway: &GatewayAddress, interfaces: &Vec<InterfaceAddress>) -> (r:
    Result<Ipv4Address, Failure>)
    ensures
        match *gateway {
            GatewayAddress::V4(gw) => match r {
                Ok(ip) => spec_first_match(interfaces@, gw) == Some(ip),
                Err(e) => e == Failure::NoMatchingInterface && spec_first_match(interfaces@, gw)
                    is None,
            },
            GatewayAddress::Other => r == Err::<Ipv4Address, Failure>(Failure::NotIpv4Gateway),
        },
{
    let gw: Ipv4Address = match gateway {
        GatewayAddress::V4(ip) => *ip,
        GatewayAddress::Other => {
            return Err(Failure::NotIpv4Gateway);
        },
    };
    let n = interfaces.len();
    let mut i: usize = 0;
    proof {
        assert(interfaces@.skip(0) =~= interfaces@);
    }
    while i < n
        invariant
            *gateway == GatewayAddress::V4(gw),
            0 <= i <= n,
            n == interfaces@.len(),
            spec_first_match(interfaces@, gw) == spec_first_match(interfaces@.skip(i as int), gw),
        decreases n - i,
    {
        let ia = interfaces[i];
        if matches_gateway(&ia, gw) {
            proof {
                assert(interfaces@.skip(i as int).len() > 0);
                assert(interfaces@.skip(i as int)[0] == interfaces@[i as int]);
                assert(spec_first_match(interfaces@.skip(i as int), gw) == Some(ia.addr));
            }
            return Ok(ia.addr);
        }
        proof {
            lemma_first_match_step(interfaces@, gw, i as int);
        }
        i += 1;
    }
    proof {
        assert(interfaces@.skip(n as int) =~= Seq::<InterfaceAddress>::empty());
    }
    Err(Failure::NoMatchingInterface)
}

} // verus!
