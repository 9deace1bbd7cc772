use portmap::errors::Failure;
use portmap::prompt::{lifetime_from_line, port_from_line, protocol_from_line, ProtocolChoice};
use portmap::text::{dec_string_u32, parse_u16, parse_u32, trim_line};

#[test]
fn blank_port_input_takes_default() {
    assert_eq!(port_from_line("", 8080), Ok(8080));
    assert_eq!(port_from_line("\n", 8080), Ok(8080));
    assert_eq!(port_from_line("   \t\n", 8080), Ok(8080));
}

#[test]
fn numeric_port_input_is_parsed() {
    assert_eq!(port_from_line("9090\n", 8080), Ok(9090));
    assert_eq!(port_from_line("  9090  ", 8080), Ok(9090));
    assert_eq!(port_from_line("+123\n", 8080), Ok(123));
    assert_eq!(port_from_line("0\n", 8080), Ok(0));
    assert_eq!(port_from_line("65535\n", 8080), Ok(65535));
}

#[test]
fn malformed_port_input_fails_to_parse() {
    let r = port_from_line("abc\n", 8080);
    assert_eq!(r, Err(Failure::Parse));
    assert_eq!(r.unwrap_err().describe(), "Failed to parse input");
    assert_eq!(port_from_line("70000\n", 8080), Err(Failure::Parse));
    assert_eq!(port_from_line("12a\n", 8080), Err(Failure::Parse));
    assert_eq!(port_from_line("-1\n", 8080), Err(Failure::Parse));
    assert_eq!(port_from_line("+\n", 8080), Err(Failure::Parse));
}

#[test]
fn lifetime_input_covers_u32_range() {
    assert_eq!(lifetime_from_line("", 3600), Ok(3600));
    assert_eq!(lifetime_from_line("600\n", 3600), Ok(600));
    assert_eq!(lifetime_from_line("4294967295\n", 3600), Ok(4294967295));
    assert_eq!(lifetime_from_line("4294967296\n", 3600), Err(Failure::Parse));
    assert_eq!(lifetime_from_line("soon\n", 3600), Err(Failure::Parse));
}

#[test]
fn protocol_choice_menu() {
    assert_eq!(protocol_from_line("1\n"), Ok(ProtocolChoice::Tcp));
    assert_eq!(protocol_from_line("2\n"), Ok(ProtocolChoice::Udp));
    assert_eq!(protocol_from_line("3\n"), Ok(ProtocolChoice::Both));
    assert_eq!(protocol_from_line(" 2 \n"), Ok(ProtocolChoice::Udp));
}

#[test]
fn protocol_choice_rejects_everything_else() {
    let r = protocol_from_line("4\n");
    assert_eq!(r, Err(Failure::InvalidProtocolChoice));
    assert_eq!(r.unwrap_err().describe(), "Invalid protocol choice");
    assert_eq!(protocol_from_line(""), Err(Failure::InvalidProtocolChoice));
    assert_eq!(protocol_from_line("tcp\n"), Err(Failure::InvalidProtocolChoice));
    assert_eq!(protocol_from_line("12\n"), Err(Failure::InvalidProtocolChoice));
}

#[test]
fn trim_line_strips_both_ends() {
    assert_eq!(trim_line("  a b\t\n"), "a b");
    assert_eq!(trim_line("\r\n"), "");
    assert_eq!(trim_line("x"), "x");
    assert_eq!(trim_line(""), "");
}

#[test]
fn trim_line_agrees_with_str_trim_on_white_space() {
    let samples = ["\u{a0}x\u{3000}", " \u{2003}9090\u{85}\n", "\u{2028}\u{202f}", "a\u{1680}b"];
    for s in samples {
        assert_eq!(trim_line(s), s.trim());
    }
}

#[test]
fn decimal_strings_are_exact() {
    assert_eq!(dec_string_u32(0), "0");
    assert_eq!(dec_string_u32(7), "7");
    assert_eq!(dec_string_u32(8080), "8080");
    assert_eq!(dec_string_u32(4294967295), "4294967295");
}

#[test]
fn parsing_reads_back_what_formatting_wrote() {
    let s = dec_string_u32(123456789);
    assert_eq!(parse_u32(&s), Ok(123456789));
    let p = dec_string_u32(65535);
    assert_eq!(parse_u16(&p), Ok(65535));
}

#[test]
fn parse_rejects_empty_and_overflow() {
    assert_eq!(parse_u32(""), Err(Failure::Parse));
    assert_eq!(parse_u32("99999999999999999999"), Err(Failure::Parse));
    assert_eq!(parse_u16("65536"), Err(Failure::Parse));
}
