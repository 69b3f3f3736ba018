use tapsrs::ffi::path_monitor::{change_event_type, TransportServicesChangeEventType, TransportServicesInterfaceStatus};
use tapsrs::ffi::security_parameters::{protocols_from_codes, security_protocol};
use tapsrs::ffi::transport_properties::property_constants::TRANSPORT_SERVICES_PROPERTY_KEEP_ALIVE;
use tapsrs::ffi::transport_properties::{preference_property, set_preference_by_code};
use tapsrs::ffi::types::{
    c_buffer_contents, event_report_of, TransportServicesConnectionEventType, TransportServicesConnectionState,
    TransportServicesError, TransportServicesPreference,
};
use tapsrs::path_monitor::{ChangeEvent, Status};
use tapsrs::{ConnectionEvent, ConnectionState, Preference, SecurityProtocol, TapsError, TransportProperties, TransportProperty};

#[test]
fn preference_codes_and_round_trip() {
    let all = [Preference::Require, Preference::Prefer, Preference::NoPreference, Preference::Avoid, Preference::Prohibit];
    for (i, p) in all.iter().enumerate() {
        let f = TransportServicesPreference::from(*p);
        assert_eq!(f.code(), i as i32);
        assert_eq!(Preference::from(f), *p);
    }
}

#[test]
fn error_codes() {
    assert_eq!(TransportServicesError::from(TapsError::InvalidParameters("x".into())).code(), -1);
    assert_eq!(TransportServicesError::from(TapsError::EstablishmentFailed("x".into())).code(), -2);
    assert_eq!(TransportServicesError::from(TapsError::ConnectionFailed("x".into())).code(), -3);
    assert_eq!(TransportServicesError::from(TapsError::SendFailed("x".into())).code(), -4);
    assert_eq!(TransportServicesError::from(TapsError::ReceiveFailed("x".into())).code(), -5);
    assert_eq!(TransportServicesError::from(TapsError::NotSupported("x".into())).code(), -6);
    assert_eq!(TransportServicesError::from(TapsError::Timeout).code(), -7);
    assert_eq!(TransportServicesError::from(TapsError::InvalidState("x".into())).code(), -8);
    assert_eq!(TransportServicesError::from(TapsError::SecurityError("x".into())).code(), -9);
    let io = std::io::Error::new(std::io::ErrorKind::Other, "disk");
    assert_eq!(TransportServicesError::from(TapsError::Io(io)), TransportServicesError::IoError);
    assert_eq!(TransportServicesError::IoError.code(), -10);
    assert_eq!(TransportServicesError::from(TapsError::MessageExpired), TransportServicesError::Unknown);
    assert_eq!(TransportServicesError::Unknown.code(), -99);
    assert_eq!(TransportServicesError::Success.code(), 0);
}

#[test]
fn state_and_status_codes() {
    assert_eq!(TransportServicesConnectionState::from(ConnectionState::Establishing).code(), 0);
    assert_eq!(TransportServicesConnectionState::from(ConnectionState::Established).code(), 1);
    assert_eq!(TransportServicesConnectionState::from(ConnectionState::Closing).code(), 2);
    assert_eq!(TransportServicesConnectionState::from(ConnectionState::Closed).code(), 3);
    assert_eq!(TransportServicesInterfaceStatus::from(Status::Up).code(), 0);
    assert_eq!(TransportServicesInterfaceStatus::from(Status::Down).code(), 1);
    assert_eq!(TransportServicesInterfaceStatus::from(Status::Unknown).code(), 2);
}

#[test]
fn change_event_kinds() {
    let e = ChangeEvent::PathChanged { description: "moved".to_string() };
    assert_eq!(change_event_type(&e), TransportServicesChangeEventType::PathChanged);
    assert_eq!(TransportServicesChangeEventType::PathChanged.code(), 3);
    assert_eq!(TransportServicesChangeEventType::Added.code(), 0);
}

#[test]
fn preference_property_codes() {
    assert_eq!(preference_property(0), Some(TransportProperty::Reliability));
    assert_eq!(preference_property(TRANSPORT_SERVICES_PROPERTY_KEEP_ALIVE), Some(TransportProperty::KeepAlive));
    assert_eq!(preference_property(12), Some(TransportProperty::ActiveReadBeforeSend));
    assert_eq!(preference_property(13), None);
    let mut t = TransportProperties::new();
    assert_eq!(set_preference_by_code(&mut t, 0, TransportServicesPreference::Avoid), 0);
    assert_eq!(t.selection_properties.reliability, Preference::Avoid);
    assert_eq!(set_preference_by_code(&mut t, 99, TransportServicesPreference::Prohibit), -1);
    assert_eq!(t.selection_properties.reliability, Preference::Avoid);
}

#[test]
fn security_protocol_codes() {
    assert_eq!(security_protocol(0), Some(SecurityProtocol::TLS12));
    assert_eq!(security_protocol(3), Some(SecurityProtocol::DTLS13));
    assert_eq!(security_protocol(4), None);
    assert_eq!(
        protocols_from_codes(&[1, 9, 0, -2, 2]),
        vec![SecurityProtocol::TLS13, SecurityProtocol::TLS12, SecurityProtocol::DTLS12]
    );
}

#[test]
fn event_reports() {
    let (k, text) = event_report_of(&ConnectionEvent::Ready);
    assert_eq!(k, TransportServicesConnectionEventType::Ready);
    assert_eq!(text, "Connection established");
    let (k, text) = event_report_of(&ConnectionEvent::ReceiveError { error: "bad".to_string() });
    assert_eq!(k, TransportServicesConnectionEventType::Received);
    assert_eq!(text, "bad");
    let (k, text) = event_report_of(&ConnectionEvent::Sent { message_id: Some(3) });
    assert_eq!(k, TransportServicesConnectionEventType::Sent);
    assert_eq!(text, "Message sent");
}

#[test]
fn c_buffer_truncates_and_terminates() {
    assert_eq!(c_buffer_contents(b"hello", 10), b"hello\0".to_vec());
    assert_eq!(c_buffer_contents(b"hello", 3), b"he\0".to_vec());
    assert_eq!(c_buffer_contents(b"hello", 1), b"\0".to_vec());
}

#[test]
fn messages_from_c_fields() {
    assert!(tapsrs::ffi::message::message_from_ffi(vec![], 10, 1, true, true).is_none());
    let m = tapsrs::ffi::message::message_from_ffi(b"data".to_vec(), 1500, -3, true, false).unwrap();
    assert_eq!(m.data(), b"data");
    assert_eq!(m.properties().lifetime, Some(std::time::Duration::from_millis(1500)));
    assert_eq!(m.properties().priority, Some(-3));
    assert!(m.properties().safely_replayable);
    assert!(!m.properties().final_message);
    let plain = tapsrs::ffi::message::message_from_ffi(b"x".to_vec(), 0, 0, false, true).unwrap();
    assert_eq!(plain.properties().lifetime, None);
    assert_eq!(plain.properties().priority, None);
    assert!(plain.properties().final_message);
}
