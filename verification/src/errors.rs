//! The ways a run can fail, and the message each failure prints.

use vstd::prelude::*;

verus! {

/// Everything that can go wrong while configuring a mapping: a network
/// request that never completes, a malformed gateway response, console input
/// that does not parse, a protocol selection outside the menu, and the two
/// configuration faults of the gateway lookup.
#[derive(Clone, Copy, PartialEq, Eq, Structural, Debug)]
pub enum Failure {
    Network,
    Protocol,
    Parse,
    InvalidProtocolChoice,
    NotIpv4Gateway,
    NoMatchingInterface,
}

impl Failure {
    /// The message printed for this failure.
    pub open spec fn spec_describe(self) -> Seq<char> {
        match self {
            Failure::Network => "Network request failed"@,
            Failure::Protocol => "Malformed response from gateway"@,
            Failure::Parse => "Failed to parse input"@,
            Failure::InvalidProtocolChoice => "Invalid protocol choice"@,
            Failure::NotIpv4Gateway => "Gateway is not an IPv4 address."@,
            Failure::NoMatchingInterface => (
                "Could not find a valid interface associated with the default gateway."@
            ),
        }
    }

    pub fn describe(&self) -> (r: String)
        ensures
            r@ == self.spec_describe(),
    {
        match self {
            Failure::Network => String::from_str("Network request failed"),
            Failure::Protocol => String::from_str("Malformed response from gateway"),
            Failure::Parse => String::from_str("Failed to parse input"),
            Failure::InvalidProtocolChoice => String::from_str("Invalid protocol choice"),
            Failure::NotIpv4Gateway => String::from_str("Gateway is not an IPv4 address."),
            Failure::NoMatchingInterface => String::from_str(
                "Could not find a valid interface associated with the default gateway.",
            ),
        }
    }
}

} // verus!
