use wormhole::server_config::{parse_port, resolve_host, resolve_port, DEFAULT_HOST, DEFAULT_PORT};

#[test]
fn parses_plain_decimal_ports() {
    assert_eq!(parse_port("8080"), Some(8080));
    assert_eq!(parse_port("0"), Some(0));
    assert_eq!(parse_port("65535"), Some(65535));
    assert_eq!(parse_port("00080"), Some(80));
}

#[test]
fn accepts_a_leading_plus_sign() {
    assert_eq!(parse_port("+80"), Some(80));
    assert_eq!(parse_port("+"), None);
    assert_eq!(parse_port("++80"), None);
}

#[test]
fn rejects_out_of_range_and_malformed_ports() {
    assert_eq!(parse_port("65536"), None);
    assert_eq!(parse_port("999999999999999999999999"), None);
    assert_eq!(parse_port(""), None);
    assert_eq!(parse_port("80a"), None);
    assert_eq!(parse_port("-1"), None);
    assert_eq!(parse_port("8 0"), None);
}

#[test]
fn resolves_host_from_environment_or_default() {
    assert_eq!(resolve_host(None), DEFAULT_HOST);
    assert_eq!(resolve_host(Some("0.0.0.0".to_owned())), "0.0.0.0");
}

#[test]
fn resolves_port_from_environment_or_default() {
    assert_eq!(resolve_port(None), Some(DEFAULT_PORT));
    assert_eq!(resolve_port(Some("9000")), Some(9000));
    assert_eq!(resolve_port(Some("not-a-port")), None);
}
