//! Resolving one prompted console line: blank input takes the prompt's
//! default, anything else must parse.

use vstd::prelude::*;
use crate::errors::Failure;
use crate::text::{
    spec_trim, spec_is_numeral, spec_numeral_digits, spec_dec_value, trim_line, parse_u16,
    parse_u32,
};

verus! {

/// The protocol selection a user can make: TCP, UDP, or both.
#[derive(Clone, Copy, PartialEq, Eq, Structural, Debug)]
pub enum ProtocolChoice {
    Tcp,
    Udp,
    Both,
}

/// What a prompted port line resolves to: the default on blank input, the
/// parsed number on a well-formed numeral, a parse failure otherwise.
pub open spec fn spec_port_from_line(line: Seq<char>, default: u16) -> Result<u16, Failure> {
    let t = spec_trim(line);
    if t.len() == 0 {
        Ok(default)
    } else if spec_is_numeral(t, u16::MAX as int) {
        Ok(spec_dec_value(spec_numeral_digits(t)) as u16)
    } else {
        Err(Failure::Parse)
    }
}

/// Resolve a prompted port number.
pub fn port_from_line(line: &str, default: u16) -> (r: Result<u16, Failure>)
    ensures
        r == spec_port_from_line(line@, default),
{
    let t = trim_line(line);
    if t.as_str().unicode_len() == 0 {
        Ok(default)
    } else {
        parse_u16(t.as_str())
    }
}

/// What a prompted lifetime line resolves to, over the full `u32` range.
pub open spec fn spec_lifetime_from_line(line: Seq<char>, default: u32) -> Result<u32, Failure> {
    let t = spec_trim(line);
    if t.len() == 0 {
        Ok(default)
    } else if spec_is_numeral(t, u32::MAX as int) {
        Ok(spec_dec_value(spec_numeral_digits(t)) as u32)
    } else {
        Err(Failure::Parse)
    }
}

/// Resolve a prompted mapping lifetime in seconds.
pub fn lifetime_from_line(line: &str, default: u32) -> (r: Result<u32, Failure>)
    ensures
        r == spec_lifetime_from_line(line@, default),
{
    let t = trim_line(line);
    if t.as_str().unicode_len() == 0 {
        Ok(default)
    } else {
        parse_u32(t.as_str())
    }
}

/// The protocol menu: "1" chooses TCP, "2" UDP, "3" both; anything else,
/// blank lines included, is an invalid choice.
pub open spec fn spec_protocol_from_line(line: Seq<char>) -> Result<ProtocolChoice, Failure> {
    let t = spec_trim(line);
    if t == "1"@ {
        Ok(ProtocolChoice::Tcp)
    } else if t == "2"@ {
        Ok(ProtocolChoice::Udp)
    } else if t == "3"@ {
        Ok(ProtocolChoice::Both)
    } else {
        Err(Failure::InvalidProtocolChoice)
    }
}

/// Resolve the prompted protocol selection.
pub fn protocol_from_line(line: &str) -> (r: Result<ProtocolChoice, Failure>)
    ensures
        r == spec_protocol_from_line(line@),
{
    let t = trim_line(line);
    if t == String::from_str("1") {
        Ok(ProtocolChoice::Tcp)
    } else if t == String::from_str("2") {
        Ok(ProtocolChoice::Udp)
    } else if t == String::from_str("3") {
        Ok(ProtocolChoice::Both)
    } else {
        Err(Failure::InvalidProtocolChoice)
    }
}

} // verus!
