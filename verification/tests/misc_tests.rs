use tapsrs::listener::extract_bind_address;
use tapsrs::message::EcnMarking;
use tapsrs::text::decimal_text;
use tapsrs::{
    ConnectionGroup, ConnectionGroupId, EndpointIdentifier, IpAddress, Listener, LocalEndpoint, Message,
    MessageContext, Protocol, RemoteEndpoint, SocketAddress, TapsError, TransportProperties,
};

#[test]
fn error_texts() {
    assert_eq!(TapsError::EstablishmentFailed("no route".into()).to_string(), "Connection establishment failed: no route");
    assert_eq!(TapsError::SendFailed("x".into()).to_string(), "Send failed: x");
    assert_eq!(TapsError::MessageExpired.to_string(), "Message expired before sending");
    assert_eq!(TapsError::Timeout.to_string(), "Operation timed out");
    assert_eq!(TapsError::NotSupported("y".into()).to_string(), "Operation not supported: y");
    let io = TapsError::from(std::io::Error::new(std::io::ErrorKind::Other, "disk full"));
    assert_eq!(io.to_string(), "I/O error: disk full");
}

#[test]
fn decimal_text_of_numbers() {
    assert_eq!(decimal_text(0), "0");
    assert_eq!(decimal_text(7), "7");
    assert_eq!(decimal_text(1460), "1460");
    assert_eq!(decimal_text(usize::MAX), usize::MAX.to_string());
}

#[test]
fn group_id_is_a_version_4_uuid() {
    let id = ConnectionGroupId::new();
    let text = id.to_string();
    assert_eq!(text.len(), 36);
    let bytes = text.as_bytes();
    for i in [8, 13, 18, 23] {
        assert_eq!(bytes[i], b'-');
    }
    assert_eq!(bytes[14], b'4');
    assert!(matches!(bytes[19], b'8' | b'9' | b'a' | b'b'));
    assert!(text.chars().all(|c| c == '-' || c.is_ascii_hexdigit() && !c.is_ascii_uppercase()));
    assert_ne!(ConnectionGroupId::new().to_string(), text);
}

#[test]
fn group_counts_connections() {
    let mut g = ConnectionGroup::new(TransportProperties::new(), vec![], vec![]);
    assert!(!g.has_connections());
    g.add_connection();
    g.add_connection();
    assert_eq!(g.connection_count(), 2);
    g.remove_connection();
    assert_eq!(g.connection_count(), 1);
    assert!(g.has_connections());
}

#[test]
fn listener_limit_counts_down() {
    let mut l = Listener::new();
    assert!(l.is_active());
    l.set_new_connection_limit(2);
    assert!(l.admit_connection());
    assert!(l.admit_connection());
    assert!(!l.admit_connection());
    assert!(l.stop());
    assert!(!l.is_active());
    assert!(!l.stop());
}

#[test]
fn listener_unlimited_stays_unlimited() {
    let mut l = Listener::new();
    for _ in 0..5 {
        assert!(l.admit_connection());
    }
    assert!(l.local_addr().is_none());
    let addr = SocketAddress { ip: IpAddress::V4(0x7f00_0001), port: 8080 };
    l.set_local_addr(addr);
    assert_eq!(l.local_addr(), Some(addr));
}

#[test]
fn bind_address_from_endpoint() {
    let e = LocalEndpoint::builder().ip_address(IpAddress::V4(0x0a00_0001)).port(9000).build();
    assert_eq!(extract_bind_address(&e), SocketAddress { ip: IpAddress::V4(0x0a00_0001), port: 9000 });
    let only_port = LocalEndpoint::new().with_port(80);
    assert_eq!(extract_bind_address(&only_port), SocketAddress { ip: IpAddress::V4(0), port: 80 });
    let sock = SocketAddress { ip: IpAddress::V6(1), port: 443 };
    let e2 = LocalEndpoint { identifiers: vec![EndpointIdentifier::Port(1), EndpointIdentifier::SocketAddress(sock)] };
    assert_eq!(extract_bind_address(&e2), sock);
    let later = SocketAddress { ip: IpAddress::V4(2), port: 2 };
    let e3 = LocalEndpoint {
        identifiers: vec![
            EndpointIdentifier::IpAddress(IpAddress::V4(5)),
            EndpointIdentifier::SocketAddress(sock),
            EndpointIdentifier::SocketAddress(later),
        ],
    };
    assert_eq!(extract_bind_address(&e3), sock);
    let e4 = LocalEndpoint {
        identifiers: vec![
            EndpointIdentifier::IpAddress(IpAddress::V4(5)),
            EndpointIdentifier::Port(10),
            EndpointIdentifier::IpAddress(IpAddress::V4(6)),
            EndpointIdentifier::Port(11),
        ],
    };
    assert_eq!(extract_bind_address(&e4), SocketAddress { ip: IpAddress::V4(6), port: 11 });
    assert_eq!(extract_bind_address(&LocalEndpoint { identifiers: vec![] }), SocketAddress { ip: IpAddress::V4(0), port: 0 });
}

#[test]
fn endpoint_builders_collect_identifiers() {
    let r = RemoteEndpoint::builder().hostname("example.com").port(443).protocol(Protocol::QUIC).build();
    assert_eq!(r.identifiers.len(), 2);
    assert_eq!(r.identifiers[0], EndpointIdentifier::HostName("example.com".to_string()));
    assert_eq!(r.identifiers[1], EndpointIdentifier::Port(443));
    assert_eq!(r.protocol, Some(Protocol::QUIC));
    let l = LocalEndpoint::new().with_interface("en0").with_port(5000);
    assert_eq!(l.identifiers, vec![EndpointIdentifier::Interface("en0".to_string()), EndpointIdentifier::Port(5000)]);
}

#[test]
fn message_basics() {
    let m = Message::from_string("abc");
    assert_eq!(m.len(), 3);
    assert!(!m.is_empty());
    assert!(m.is_end_of_message());
    assert!(Message::new(vec![]).is_empty());
    assert!(!Message::partial(b"part".to_vec()).is_end_of_message());
    let mut n = Message::from_bytes(b"xy");
    n.data_mut().push(b'z');
    assert_eq!(n.data(), b"xyz");
    n.properties_mut().priority = Some(4);
    assert_eq!(n.properties().priority, Some(4));
    assert_eq!(Message::from_string("w").with_final(true).properties().final_message, true);
}

#[test]
fn message_context_builders() {
    let c = MessageContext::new().with_ecn(EcnMarking::Ce).as_early_data();
    assert!(c.early_data);
    assert!(matches!(c.ecn, Some(EcnMarking::Ce)));
    assert!(c.local_endpoint.is_none());
    let c2 = c.with_remote_endpoint(RemoteEndpoint::new().with_port(1));
    assert!(c2.remote_endpoint.is_some());
}

#[test]
fn listen_address_needs_a_local_endpoint() {
    match tapsrs::listener::listen_address(&vec![]) {
        Err(TapsError::InvalidParameters(m)) => assert_eq!(m, "No local endpoint specified for listen"),
        _ => panic!("expected an error"),
    }
    let e = LocalEndpoint::new().with_port(7000);
    assert_eq!(
        tapsrs::listener::listen_address(&vec![e]).unwrap(),
        SocketAddress { ip: IpAddress::V4(0), port: 7000 }
    );
}

#[test]
fn accepted_connections_are_established() {
    use_accept();
}

fn use_accept() {
    let peer = SocketAddress { ip: IpAddress::V4(0x0a00_0002), port: 50000 };
    let local = SocketAddress { ip: IpAddress::V4(0x0a00_0001), port: 8080 };
    let c = tapsrs::listener::accepted_connection(peer, local, TransportProperties::new());
    assert_eq!(c.state(), tapsrs::ConnectionState::Established);
    assert!(c.has_stream());
    assert_eq!(c.remote_endpoint().unwrap().identifiers, vec![EndpointIdentifier::SocketAddress(peer)]);
    assert_eq!(c.local_endpoint().unwrap().identifiers, vec![EndpointIdentifier::SocketAddress(local)]);
    match tapsrs::listener::accept_outcome(Some(tapsrs::listener::ListenerEvent::ConnectionReceived(c))) {
        Some(Ok(d)) => assert_eq!(d.state(), tapsrs::ConnectionState::Established),
        _ => panic!("expected the connection"),
    }
    assert!(tapsrs::listener::accept_outcome(Some(tapsrs::listener::ListenerEvent::Error("x".to_string()))).is_none());
    match tapsrs::listener::accept_outcome(Some(tapsrs::listener::ListenerEvent::Stopped)) {
        Some(Err(TapsError::InvalidState(m))) => assert_eq!(m, "Listener stopped"),
        _ => panic!("expected an error"),
    }
    match tapsrs::listener::accept_outcome(None) {
        Some(Err(TapsError::InvalidState(m))) => assert_eq!(m, "Listener closed"),
        _ => panic!("expected an error"),
    }
}
