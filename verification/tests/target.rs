use legba::session::Error;
use legba::utils::parse_target;

#[test]
fn parses_bare_host_with_default_port() {
    let target = "10.0.0.1".to_string();
    let (host, port) = parse_target(Some(&target), 5900).unwrap();
    assert_eq!(host, "10.0.0.1");
    assert_eq!(port, 5900);
}

#[test]
fn parses_host_with_explicit_port() {
    let target = "example.com:3389".to_string();
    let (host, port) = parse_target(Some(&target), 5900).unwrap();
    assert_eq!(host, "example.com");
    assert_eq!(port, 3389);
}

#[test]
fn parses_largest_port() {
    let target = "h:65535".to_string();
    let (host, port) = parse_target(Some(&target), 1).unwrap();
    assert_eq!(host, "h");
    assert_eq!(port, 65535);
}

#[test]
fn parses_port_zero_and_leading_zeros() {
    let target = "h:0".to_string();
    assert_eq!(parse_target(Some(&target), 7).unwrap(), ("h".to_string(), 0));
    let target = "h:0080".to_string();
    assert_eq!(parse_target(Some(&target), 7).unwrap(), ("h".to_string(), 80));
}

#[test]
fn rejects_missing_target() {
    assert!(matches!(parse_target(None, 5900), Err(Error::Configuration(_))));
}

#[test]
fn rejects_empty_target() {
    let target = String::new();
    assert!(matches!(
        parse_target(Some(&target), 5900),
        Err(Error::Configuration(_))
    ));
}

#[test]
fn rejects_empty_host() {
    let target = ":5900".to_string();
    assert!(matches!(
        parse_target(Some(&target), 5900),
        Err(Error::Configuration(_))
    ));
}

#[test]
fn rejects_empty_port_token() {
    let target = "host:".to_string();
    assert!(matches!(
        parse_target(Some(&target), 5900),
        Err(Error::Configuration(_))
    ));
}

#[test]
fn rejects_non_numeric_port_token() {
    let target = "host:abc".to_string();
    assert!(matches!(
        parse_target(Some(&target), 5900),
        Err(Error::Configuration(_))
    ));
    let target = "host:59x0".to_string();
    assert!(matches!(
        parse_target(Some(&target), 5900),
        Err(Error::Configuration(_))
    ));
}

#[test]
fn rejects_port_out_of_range() {
    let target = "host:65536".to_string();
    assert!(matches!(
        parse_target(Some(&target), 5900),
        Err(Error::Configuration(_))
    ));
    let target = "host:99999999999999999999".to_string();
    assert!(matches!(
        parse_target(Some(&target), 5900),
        Err(Error::Configuration(_))
    ));
}

#[test]
fn rejects_second_colon_in_port_token() {
    let target = "host:59:00".to_string();
    assert!(matches!(
        parse_target(Some(&target), 5900),
        Err(Error::Configuration(_))
    ));
}
