use isonet::addr::{parse_ipv4, Ipv4Address};
use isonet::errors::{NetworkError, NetworkErrorKind};

#[test]
fn well_formed_addresses_parse() {
    assert_eq!(parse_ipv4("172.18.0.1").unwrap(), Ipv4Address::new(172, 18, 0, 1));
    assert_eq!(parse_ipv4("0.0.0.0").unwrap(), Ipv4Address::new(0, 0, 0, 0));
    assert_eq!(parse_ipv4("255.255.255.255").unwrap(), Ipv4Address::new(255, 255, 255, 255));
    assert_eq!(parse_ipv4("10.0.200.3").unwrap(), Ipv4Address::new(10, 0, 200, 3));
}

#[test]
fn malformed_addresses_are_rejected() {
    let bad = [
        "",
        ".",
        "...",
        "1.2.3",
        "1.2.3.4.5",
        "256.0.0.1",
        "1.2.3.999",
        "01.2.3.4",
        "1.2.3.04",
        "a.b.c.d",
        "1.2.3.4 ",
        " 1.2.3.4",
        "1..3.4",
        "1.2.3.",
        ".1.2.3",
        "1.2.3.-4",
        "1.2.3.4.",
        "172.18.0.1/16",
    ];
    for s in bad {
        let e = parse_ipv4(s).unwrap_err();
        assert_eq!(e.kind(), NetworkErrorKind::AddressParse, "input: {:?}", s);
        match &e {
            NetworkError::AddressParseError { input } => assert_eq!(input, s),
            _ => panic!("wrong error variant for {:?}", s),
        }
        assert_eq!(e.describe(), format!("Address parse error: {}", s));
    }
}

#[test]
fn octet_bounds_are_inclusive() {
    assert!(parse_ipv4("255.0.0.0").is_ok());
    assert!(parse_ipv4("256.0.0.0").is_err());
    assert!(parse_ipv4("0.255.255.0").is_ok());
}
