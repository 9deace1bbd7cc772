use portmap::errors::Failure;
use portmap::mapping::{
    request_plan, AddSession, PortMappingRequest, TransportProtocol, DEFAULT_EXTERNAL_PORT,
    DEFAULT_INTERNAL_PORT, DEFAULT_LIFETIME_SECONDS,
};
use portmap::prompt::ProtocolChoice;

#[test]
fn plans_name_their_requests_in_order() {
    assert_eq!(request_plan(ProtocolChoice::Tcp), vec![TransportProtocol::Tcp]);
    assert_eq!(request_plan(ProtocolChoice::Udp), vec![TransportProtocol::Udp]);
    assert_eq!(
        request_plan(ProtocolChoice::Both),
        vec![TransportProtocol::Tcp, TransportProtocol::Udp]
    );
}

#[test]
fn both_issues_tcp_then_udp() {
    let mut session = AddSession::start(ProtocolChoice::Both);
    assert_eq!(session.pending_request(), Some(TransportProtocol::Tcp));
    session.record_outcome(true);
    assert_eq!(session.pending_request(), Some(TransportProtocol::Udp));
    session.record_outcome(true);
    assert_eq!(session.pending_request(), None);
}

#[test]
fn tcp_failure_prevents_the_udp_request() {
    let mut session = AddSession::start(ProtocolChoice::Both);
    assert_eq!(session.pending_request(), Some(TransportProtocol::Tcp));
    session.record_outcome(false);
    assert_eq!(session.pending_request(), None);
}

#[test]
fn single_protocol_issues_one_request() {
    let mut session = AddSession::start(ProtocolChoice::Udp);
    assert_eq!(session.pending_request(), Some(TransportProtocol::Udp));
    session.record_outcome(true);
    assert_eq!(session.pending_request(), None);
}

#[test]
fn blank_prompts_build_the_default_request() {
    let r = PortMappingRequest::from_prompt_lines("\n", "\n", "3\n", "\n");
    assert_eq!(
        r,
        Ok(PortMappingRequest {
            internal_port: DEFAULT_INTERNAL_PORT,
            external_port: DEFAULT_EXTERNAL_PORT,
            protocol: ProtocolChoice::Both,
            lifetime_seconds: DEFAULT_LIFETIME_SECONDS,
        })
    );
}

#[test]
fn typed_prompts_build_the_typed_request() {
    let r = PortMappingRequest::from_prompt_lines("8081\n", "9090\n", "2\n", "600\n");
    assert_eq!(
        r,
        Ok(PortMappingRequest {
            internal_port: 8081,
            external_port: 9090,
            protocol: ProtocolChoice::Udp,
            lifetime_seconds: 600,
        })
    );
}

#[test]
fn the_first_failing_prompt_decides_the_error() {
    assert_eq!(
        PortMappingRequest::from_prompt_lines("abc\n", "9\n", "9\n", "x\n"),
        Err(Failure::Parse)
    );
    assert_eq!(
        PortMappingRequest::from_prompt_lines("1\n", "2\n", "9\n", "x\n"),
        Err(Failure::InvalidProtocolChoice)
    );
    assert_eq!(
        PortMappingRequest::from_prompt_lines("1\n", "2\n", "3\n", "x\n"),
        Err(Failure::Parse)
    );
}
