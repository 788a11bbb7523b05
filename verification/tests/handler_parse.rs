use isonet::handlers::{parse_handler, HandlerError, HandlerKind, HTTPServer, TcpServer, UdpServer};

#[test]
fn known_handler_names() {
    assert_eq!(parse_handler(&String::from("tcp-echo")).unwrap(), HandlerKind::TcpEcho);
    assert_eq!(parse_handler(&String::from("udp-echo")).unwrap(), HandlerKind::UdpEcho);
    assert_eq!(parse_handler(&String::from("http")).unwrap(), HandlerKind::Http);
}

#[test]
fn unknown_handler_is_rejected_with_its_name() {
    let e = parse_handler(&String::from("quic-echo")).unwrap_err();
    match &e {
        HandlerError::UnknownHandler { name } => assert_eq!(name, "quic-echo"),
        _ => panic!("expected the unknown-handler error"),
    }
    assert_eq!(e.describe(), "unknown handler: quic-echo");
}

#[test]
fn near_miss_names_are_rejected() {
    assert!(parse_handler(&String::from("tcp-echo ")).is_err());
    assert!(parse_handler(&String::from("TCP-ECHO")).is_err());
    assert!(parse_handler(&String::from("")).is_err());
}

#[test]
fn handler_failure_is_prefixed_with_its_name() {
    let e = HandlerError::HandlerFailed {
        kind: HandlerKind::UdpEcho,
        detail: String::from("bind failed"),
    };
    assert_eq!(e.describe(), "udp-echo error: bind failed");
    let labels = [
        (HandlerKind::TcpEcho, "tcp-echo"),
        (HandlerKind::UdpEcho, "udp-echo"),
        (HandlerKind::Http, "http"),
    ];
    for (kind, label) in labels {
        assert_eq!(kind.label(), label);
    }
}

#[test]
fn servers_keep_their_bind_address() {
    assert_eq!(TcpServer::new(String::from("0.0.0.0:7000")).address, "0.0.0.0:7000");
    assert_eq!(UdpServer::new(String::from("0.0.0.0:7001")).address, "0.0.0.0:7001");
    assert_eq!(HTTPServer::new(String::from("0.0.0.0:7002")).address, "0.0.0.0:7002");
}
