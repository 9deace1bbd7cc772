//! Planning port-mapping requests: the request a user's prompts describe,
//! the per-protocol request sequence, and the step-by-step session that a
//! runner drives while issuing those requests one at a time.

use vstd::prelude::*;
use crate::errors::Failure;
use crate::prompt::{
    ProtocolChoice, spec_port_from_line, spec_lifetime_from_line, spec_protocol_from_line,
    port_from_line, lifetime_from_line, protocol_from_line,
};

verus! {

/// The internal port prompt's default.
pub const DEFAULT_INTERNAL_PORT: u16 = 8080;

/// The external port prompt's default.
pub const DEFAULT_EXTERNAL_PORT: u16 = 8080;

/// The lifetime prompt's default, in seconds.
pub const DEFAULT_LIFETIME_SECONDS: u32 = 3600;

/// A single transport protocol, as one mapping request names it.
#[derive(Clone, Copy, PartialEq, Eq, Structural, Debug)]
pub enum TransportProtocol {
    Tcp,
    Udp,
}

/// One port mapping request, built fresh from the prompts.
#[derive(Clone, Copy, PartialEq, Eq, Structural, Debug)]
pub struct PortMappingRequest {
    pub internal_port: u16,
    pub external_port: u16,
    pub protocol: ProtocolChoice,
    pub lifetime_seconds: u32,
}

/// The request a full pass over the prompts describes: internal port,
/// external port, protocol, lifetime, in that order, each falling back to
/// its default on blank input; the first line that fails to resolve decides
/// the failure.
pub open spec fn spec_request_from_lines(
    internal_line: Seq<char>,
    external_line: Seq<char>,
    protocol_line: Seq<char>,
    lifetime_line: Seq<char>,
) -> Result<PortMappingRequest, Failure> {
    match spec_port_from_line(internal_line, DEFAULT_INTERNAL_PORT) {
        Ok(internal_port) => match spec_port_from_line(external_line, DEFAULT_EXTERNAL_PORT) {
            Ok(external_port) => match spec_protocol_from_line(protocol_line) {
                Ok(protocol) => match spec_lifetime_from_line(
                    lifetime_line,
                    DEFAULT_LIFETIME_SECONDS,
                ) {
                    Ok(lifetime_seconds) => Ok(
                        PortMappingRequest {
                            internal_port,
                            external_port,
                            protocol,
                            lifetime_seconds,
                        },
                    ),
                    Err(e) => Err(e),
                },
                Err(e) => Err(e),
            },
            Err(e) => Err(e),
        },
        Err(e) => Err(e),
    }
}

impl PortMappingRequest {
    /// Build the request the four prompted lines describe.
    pub fn from_prompt_lines(
        internal_line: &str,
        external_line: &str,
        protocol_line: &str,
        lifetime_line: &str,
    ) -> (r: Result<PortMappingRequest, Failure>)
        ensures
            r == spec_request_from_lines(
                internal_line@,
                external_line@,
                protocol_line@,
                lifetime_line@,
            ),
    {
        let internal_port = match port_from_line(internal_line, DEFAULT_INTERNAL_PORT) {
            Ok(p) => p,
            Err(e) => {
                return Err(e);
            },
        };
        let external_port = match port_from_line(external_line, DEFAULT_EXTERNAL_PORT) {
            Ok(p) => p,
            Err(e) => {
                return Err(e);
            },
        };
        let protocol = match protocol_from_line(protocol_line) {
            Ok(p) => p,
            Err(e) => {
                return Err(e);
            },
        };
        let lifetime_seconds = match lifetime_from_line(lifetime_line, DEFAULT_LIFETIME_SECONDS) {
            Ok(l) => l,
            Err(e) => {
                return Err(e);
            },
        };
        Ok(PortMappingRequest { internal_port, external_port, protocol, lifetime_seconds })
    }
}

/// The request sequence a protocol choice stands for: TCP alone, UDP alone,
/// or TCP followed by UDP.
pub open spec fn spec_request_plan(choice: ProtocolChoice) -> Seq<TransportProtocol> {
    match choice {
        ProtocolChoice::Tcp => seq![TransportProtocol::Tcp],
        ProtocolChoice::Udp => seq![TransportProtocol::Udp],
        ProtocolChoice::Both => seq![TransportProtocol::Tcp, TransportProtocol::Udp],
    }
}

/// The requests a protocol choice plans, in the order they are issued.
pub fn request_plan(choice: ProtocolChoice) -> (r: Vec<TransportProtocol>)
    ensures
        r@ == spec_request_plan(choice),
{
    match choice {
        ProtocolChoice::Tcp => {
            let v = vec![TransportProtocol::Tcp];
            proof {
                assert(v@ =~= spec_request_plan(ProtocolChoice::Tcp));
            }
            v
        },
        ProtocolChoice::Udp => {
            let v = vec![TransportProtocol::Udp];
            proof {
                assert(v@ =~= spec_request_plan(ProtocolChoice::Udp));
            }
            v
        },
        ProtocolChoice::Both => {
            let v = vec![TransportProtocol::Tcp, TransportProtocol::Udp];
            proof {
                assert(v@ =~= spec_request_plan(ProtocolChoice::Both));
            }
            v
        },
    }
}

/// One pass of issuing the planned requests in order.  The runner asks for
/// the pending request, issues it, and records whether it succeeded; a
/// failure makes every later request pending no longer, so the pass stops
/// with it.
pub struct AddSession {
    pub plan: Vec<TransportProtocol>,
    pub issued: usize,
    pub failed: bool,
}

/// The session after one outcome is recorded.
pub open spec fn spec_record(s: AddSession, ok: bool) -> AddSession {
    AddSession { plan: s.plan, issued: (s.issued + 1) as usize, failed: !ok }
}

impl AddSession {
    pub open spec fn wf(self) -> bool {
        self.issued <= self.plan@.len()
    }

    /// The request the session still owes, if any: the next planned request,
    /// unless the plan is exhausted or an earlier request failed.
    pub open spec fn spec_pending(self) -> Option<TransportProtocol> {
        if !self.failed && self.issued < self.plan@.len() {
            Some(self.plan@[self.issued as int])
        } else {
            None
        }
    }

    /// Start a pass over the requests the choice plans.
    pub fn start(choice: ProtocolChoice) -> (s: AddSession)
        ensures
            s.wf(),
            s.plan@ == spec_request_plan(choice),
            s.issued == 0,
            !s.failed,
    {
        AddSession { plan: request_plan(choice), issued: 0, failed: false }
    }

    /// The request to issue next, if the pass is still running.
    pub fn pending_request(&self) -> (r: Option<TransportProtocol>)
        ensures
            r == self.spec_pending(),
    {
        if !self.failed && self.issued < self.plan.len() {
            Some(self.plan[self.issued])
        } else {
            None
        }
    }

    /// Record whether the pending request succeeded.
    pub fn record_outcome(&mut self, ok: bool)
        requires
            old(self).wf(),
            old(self).spec_pending() is Some,
        ensures
            final(self).wf(),
            *final(self) == spec_record(*old(self), ok),
    {
        let n = self.plan.len();
        assert(self.issued < n);
        self.issued = self.issued + 1;
        self.failed = !ok;
    }
}

/// Choosing both protocols plans exactly two requests, TCP then UDP, and the
/// pass short-circuits: the TCP request is pending first, a recorded TCP
/// failure leaves no UDP request pending, a recorded TCP success makes UDP
/// pending, and after two recorded outcomes nothing is ever pending.
pub proof fn lemma_both_short_circuits(s: AddSession, tcp_ok: bool, udp_ok: bool)
    requires
        s.plan@ == spec_request_plan(ProtocolChoice::Both),
        s.issued == 0,
        !s.failed,
    ensures
        s.plan@.len() == 2,
        s.plan@[0] == TransportProtocol::Tcp,
        s.plan@[1] == TransportProtocol::Udp,
        s.spec_pending() == Some(TransportProtocol::Tcp),
        !tcp_ok ==> spec_record(s, tcp_ok).spec_pending() is None,
        tcp_ok ==> spec_record(s, tcp_ok).spec_pending() == Some(TransportProtocol::Udp),
        spec_record(spec_record(s, tcp_ok), udp_ok).spec_pending() is None,
{
}

/// A single-protocol choice plans exactly the one request named.
pub proof fn lemma_single_protocol_plan()
    ensures
        spec_request_plan(ProtocolChoice::Tcp) == seq![TransportProtocol::Tcp],
        spec_request_plan(ProtocolChoice::Udp) == seq![TransportProtocol::Udp],
        spec_request_plan(ProtocolChoice::Tcp).len() == 1,
        spec_request_plan(ProtocolChoice::Udp).len() == 1,
{
}

} // verus!
