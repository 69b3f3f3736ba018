use tapsrs::connection::{ReceiveStep, SendStep};
use tapsrs::{
    Connection, ConnectionProperty, ConnectionState, Message, Preconnection, RemoteEndpoint,
    TapsError, TimeoutValue, TransportProperties,
};
use std::time::Duration;

fn remote() -> RemoteEndpoint {
    RemoteEndpoint::builder().hostname("example.com").port(443).build()
}

fn established() -> Connection {
    let mut c = Connection::new_with_data(
        ConnectionState::Establishing,
        None,
        Some(remote()),
        TransportProperties::new(),
    );
    let queued = c.on_established(None);
    assert!(queued.is_empty());
    c
}

#[test]
fn new_connection_starts_fresh() {
    let c = Connection::new_with_data(ConnectionState::Establishing, None, None, TransportProperties::new());
    assert_eq!(c.state(), ConnectionState::Establishing);
    assert!(!c.has_stream());
    assert!(c.connection_group_id().is_none());
    assert!(!c.is_grouped());
}

#[test]
fn send_numbers_messages_consecutively() {
    let mut c = established();
    let first = match c.send(Message::from_string("a"), false) {
        SendStep::Transmit(m) => m,
        _ => panic!("expected a transmission"),
    };
    let second = match c.send(Message::from_string("b"), false) {
        SendStep::Transmit(m) => m,
        _ => panic!("expected a transmission"),
    };
    assert_eq!(first.id(), Some(1));
    assert_eq!(second.id(), Some(2));
}

#[test]
fn send_keeps_an_existing_id() {
    let mut c = established();
    match c.send(Message::from_string("a").with_id(77), false) {
        SendStep::Transmit(m) => assert_eq!(m.id(), Some(77)),
        _ => panic!("expected a transmission"),
    }
}

#[test]
fn send_while_establishing_queues_until_established() {
    let mut c = Connection::new_with_data(ConnectionState::Establishing, None, Some(remote()), TransportProperties::new());
    assert!(matches!(c.send(Message::from_string("early"), false), SendStep::Held));
    let queued = c.on_established(None);
    assert_eq!(queued.len(), 1);
    assert_eq!(queued[0].data(), b"early");
    assert_eq!(queued[0].id(), Some(1));
    assert_eq!(c.state(), ConnectionState::Established);
    assert!(c.has_stream());
}

#[test]
fn send_expired_message_reports_expiry() {
    let mut c = established();
    match c.send(Message::from_string("late"), true) {
        SendStep::Expired(id) => assert_eq!(id, Some(1)),
        _ => panic!("expected expiry"),
    }
}

#[test]
fn send_on_closed_connection_is_refused() {
    let mut c = established();
    assert!(c.abort());
    match c.send(Message::from_string("x"), false) {
        SendStep::Refused(TapsError::InvalidState(m)) => assert_eq!(m, "Cannot send on a closed connection"),
        _ => panic!("expected a refusal"),
    }
}

#[test]
fn batching_holds_messages_in_order() {
    let mut c = established();
    assert!(c.start_batch().is_ok());
    assert!(matches!(c.send(Message::from_string("one"), false), SendStep::Held));
    assert!(matches!(c.send(Message::from_string("two"), false), SendStep::Held));
    let batch = c.end_batch();
    assert_eq!(batch.len(), 2);
    assert_eq!(batch[0].data(), b"one");
    assert_eq!(batch[1].data(), b"two");
    assert!(matches!(c.send(Message::from_string("three"), false), SendStep::Transmit(_)));
}

#[test]
fn transmission_frames_with_length_prefix() {
    let mut c = established();
    c.use_length_prefix_framer().unwrap();
    let bytes = c.transmission(&Message::from_string("hi")).unwrap();
    assert_eq!(bytes, vec![0, 0, 0, 2, b'h', b'i']);
}

#[test]
fn transmission_without_stream_fails() {
    let mut c = Connection::new_with_data(ConnectionState::Establishing, None, None, TransportProperties::new());
    match c.transmission(&Message::from_string("x")) {
        Err(TapsError::InvalidState(m)) => assert_eq!(m, "No active stream"),
        _ => panic!("expected an error"),
    }
}

#[test]
fn final_message_stops_sending() {
    let mut c = established();
    let _ = c.transmission(&Message::from_string("bye").final_message()).unwrap();
    match c.get_property("canSend", None) {
        Some(ConnectionProperty::CanSend(b)) => assert!(!b),
        _ => panic!("canSend missing"),
    }
}

#[test]
fn receive_with_framer_delivers_whole_messages() {
    let mut sender = established();
    sender.use_length_prefix_framer().unwrap();
    let wire = sender.transmission(&Message::from_string("hello")).unwrap();

    let mut receiver = established();
    receiver.use_length_prefix_framer().unwrap();
    receiver.add_received(&wire[..3]);
    assert!(matches!(receiver.receive_step(None), ReceiveStep::NeedData));
    receiver.add_received(&wire[3..]);
    match receiver.receive_step(None) {
        ReceiveStep::Deliver(m, ctx) => {
            assert_eq!(m.data(), b"hello");
            assert!(ctx.remote_endpoint.is_some());
        },
        _ => panic!("expected a message"),
    }
    assert!(matches!(receiver.receive_step(None), ReceiveStep::NeedData));
}

#[test]
fn receive_refuses_oversized_message() {
    let mut c = established();
    c.use_length_prefix_framer().unwrap();
    c.add_received(&[0, 0, 0, 5, 1, 2, 3, 4, 5]);
    match c.receive_step(Some(3)) {
        ReceiveStep::Failed(TapsError::MessageTooLarge(m)) => assert_eq!(m, "Message size 5 exceeds max length 3"),
        _ => panic!("expected MessageTooLarge"),
    }
    assert!(matches!(c.receive_step(None), ReceiveStep::NeedData));
}

#[test]
fn receive_without_framer_takes_everything() {
    let mut c = established();
    c.add_received(b"abc");
    c.add_received(b"def");
    match c.receive_step(None) {
        ReceiveStep::Deliver(m, _) => assert_eq!(m.data(), b"abcdef"),
        _ => panic!("expected a message"),
    }
}

#[test]
fn receive_on_closed_connection_fails() {
    let mut c = established();
    c.peer_closed();
    match c.receive_step(None) {
        ReceiveStep::Failed(TapsError::InvalidState(m)) => assert_eq!(m, "Cannot receive on a closed connection"),
        _ => panic!("expected failure"),
    }
}

#[test]
fn close_goes_through_closing_to_closed() {
    let mut c = established();
    c.start_batch().unwrap();
    let _ = c.send(Message::from_string("pending"), false);
    let batched = c.begin_close().unwrap();
    assert_eq!(batched.len(), 1);
    assert_eq!(c.state(), ConnectionState::Closing);
    assert!(c.begin_close().is_none());
    c.finish_close();
    assert_eq!(c.state(), ConnectionState::Closed);
    assert!(!c.has_stream());
}

#[test]
fn abort_twice_does_nothing_the_second_time() {
    let mut c = established();
    assert!(c.abort());
    assert_eq!(c.state(), ConnectionState::Closed);
    assert!(!c.abort());
    assert_eq!(c.state(), ConnectionState::Closed);
}

#[test]
fn clone_needs_an_established_connection() {
    let c = Connection::new_with_data(ConnectionState::Establishing, None, None, TransportProperties::new());
    match c.check_clone() {
        Err(TapsError::InvalidState(m)) => assert_eq!(m, "Can only clone established connections"),
        _ => panic!("expected an error"),
    }
    assert!(established().check_clone().is_ok());
}

#[test]
fn read_only_property_cannot_be_set() {
    let mut c = established();
    match c.set_property("canSend", ConnectionProperty::CanSend(false)) {
        Err(TapsError::InvalidParameters(m)) => assert_eq!(m, "Property 'canSend' is read-only"),
        _ => panic!("expected an error"),
    }
}

#[test]
fn conn_timeout_makes_user_timeout_unchangeable() {
    let mut c = established();
    c.set_property("connTimeout", ConnectionProperty::ConnTimeout(TimeoutValue::Duration(Duration::from_secs(5))))
        .unwrap();
    match c.get_property("tcp.userTimeoutChangeable", None) {
        Some(ConnectionProperty::TcpUserTimeoutChangeable(b)) => assert!(!b),
        _ => panic!("missing"),
    }
}

#[test]
fn reported_properties_follow_the_state() {
    let c = established();
    match c.get_property("connState", Some(1400)) {
        Some(ConnectionProperty::ConnState(s)) => assert_eq!(s, ConnectionState::Established),
        _ => panic!("missing"),
    }
    match c.get_property("singularTransmissionMsgMaxLen", Some(1400)) {
        Some(ConnectionProperty::SingularTransmissionMsgMaxLen(v)) => assert_eq!(v, Some(1400)),
        _ => panic!("missing"),
    }
    match c.get_property("singularTransmissionMsgMaxLen", None) {
        Some(ConnectionProperty::SingularTransmissionMsgMaxLen(v)) => assert_eq!(v, Some(1460)),
        _ => panic!("missing"),
    }
    match c.get_property("sendMsgMaxLen", None) {
        Some(ConnectionProperty::SendMsgMaxLen(v)) => assert_eq!(v, None),
        _ => panic!("missing"),
    }
    let establishing = Connection::new_with_data(ConnectionState::Establishing, None, None, TransportProperties::new());
    assert!(establishing.get_property("sendMsgMaxLen", None).is_none());
    match establishing.get_property("connPriority", None) {
        Some(ConnectionProperty::ConnPriority(p)) => assert_eq!(p, 100),
        _ => panic!("missing"),
    }
}

#[test]
fn add_remote_on_closed_connection_fails() {
    let mut c = established();
    c.abort();
    match c.add_remote(remote()) {
        Err(TapsError::InvalidState(m)) => assert_eq!(m, "Cannot add endpoints to a closed connection"),
        _ => panic!("expected an error"),
    }
}

#[test]
fn add_remote_while_establishing_replaces_the_endpoint() {
    let mut c = Connection::new_with_data(ConnectionState::Establishing, None, None, TransportProperties::new());
    match c.add_remote(remote()) {
        Ok(changed) => assert!(changed),
        Err(_) => panic!("expected success"),
    }
    assert!(c.remote_endpoint().is_some());
    match c.add_remote(remote()) {
        Ok(changed) => assert!(!changed),
        Err(_) => panic!("expected success"),
    }
    let mut open = established();
    match open.add_remote(RemoteEndpoint::builder().hostname("other.example").port(80).build()) {
        Ok(changed) => assert!(!changed),
        Err(_) => panic!("expected success"),
    }
}

#[test]
fn clone_steps_share_one_group_and_count_members() {
    let mut original = established();
    let mut group = match original.group_for_clone() {
        Ok(Some(g)) => g,
        _ => panic!("expected a new group"),
    };
    assert_eq!(group.connection_count(), 1);
    assert_eq!(original.connection_group_id(), Some(group.id));
    assert!(matches!(original.group_for_clone(), Ok(None)));
    let mut first = Connection::new_with_data(ConnectionState::Establishing, None, Some(remote()), TransportProperties::new());
    let mut second = Connection::new_with_data(ConnectionState::Establishing, None, Some(remote()), TransportProperties::new());
    first.join_clone(&mut group);
    second.join_clone(&mut group);
    assert_eq!(group.connection_count(), 3);
    assert_eq!(first.connection_group_id(), Some(group.id));
    assert_eq!(second.connection_group_id(), Some(group.id));
    let mut closed = established();
    closed.abort();
    match closed.group_for_clone() {
        Err(TapsError::InvalidState(m)) => assert_eq!(m, "Can only clone established connections"),
        _ => panic!("expected an error"),
    }
}

#[test]
fn group_sharing_excludes_priority() {
    assert!(!tapsrs::connection::shares_with_group("connPriority"));
    assert!(tapsrs::connection::shares_with_group("connTimeout"));
}

#[test]
fn preconnection_initiate_needs_a_remote() {
    let p = Preconnection::new(vec![], vec![], TransportProperties::new(), tapsrs::SecurityParameters::new());
    match p.initiate() {
        Err(TapsError::InvalidParameters(m)) => assert_eq!(m, "No remote endpoints specified for initiate"),
        _ => panic!("expected an error"),
    }
    match p.listen() {
        Err(TapsError::InvalidParameters(m)) => assert_eq!(m, "No local endpoints specified for listen"),
        _ => panic!("expected an error"),
    }
}

#[test]
fn preconnection_initiate_with_send_queues_the_message() {
    let p = Preconnection::with_remote_endpoint(remote());
    let mut c = p.initiate_with_send(Message::from_string("first")).unwrap();
    assert_eq!(c.state(), ConnectionState::Establishing);
    let queued = c.on_established(None);
    assert_eq!(queued.len(), 1);
    assert_eq!(queued[0].id(), Some(1));
    assert_eq!(queued[0].data(), b"first");
}

#[test]
fn aborted_connection_reports_it_cannot_transfer() {
    let mut c = established();
    c.start_batch().unwrap();
    let _ = c.send(Message::from_string("queued"), false);
    assert!(c.abort());
    match c.get_property("canSend", None) {
        Some(ConnectionProperty::CanSend(b)) => assert!(!b),
        _ => panic!("missing"),
    }
    match c.get_property("canReceive", None) {
        Some(ConnectionProperty::CanReceive(b)) => assert!(!b),
        _ => panic!("missing"),
    }
    assert!(c.end_batch().is_empty());
    assert!(c.begin_close().is_none());
    assert_eq!(c.state(), ConnectionState::Closed);
}

#[test]
fn connect_target_prefers_socket_then_ip_then_host() {
    let by_ip = RemoteEndpoint::builder().hostname("h").port(80).ip_address(tapsrs::IpAddress::V4(1)).build();
    match tapsrs::preconnection::connect_target(&by_ip) {
        tapsrs::preconnection::ConnectTarget::Address(a) => {
            assert_eq!(a, tapsrs::SocketAddress { ip: tapsrs::IpAddress::V4(1), port: 80 })
        },
        _ => panic!("expected an address"),
    }
    let sock = tapsrs::SocketAddress { ip: tapsrs::IpAddress::V4(2), port: 9 };
    match tapsrs::preconnection::connect_target(&RemoteEndpoint::builder().port(1).socket_address(sock).build()) {
        tapsrs::preconnection::ConnectTarget::Address(a) => assert_eq!(a, sock),
        _ => panic!("expected the socket address"),
    }
    let by_host = RemoteEndpoint::builder().hostname("example.com").port(443).port(80).build();
    match tapsrs::preconnection::connect_target(&by_host) {
        tapsrs::preconnection::ConnectTarget::Host(h, p) => {
            assert_eq!(h, "example.com");
            assert_eq!(p, 443);
        },
        _ => panic!("expected the host"),
    }
    let no_port = RemoteEndpoint::builder().hostname("example.com").build();
    assert!(matches!(
        tapsrs::preconnection::connect_target(&no_port),
        tapsrs::preconnection::ConnectTarget::Unreachable
    ));
}
