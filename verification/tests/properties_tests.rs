use tapsrs::connection_properties::is_read_only_key;
use tapsrs::{
    CapacityProfile, ChecksumCoverage, CommunicationDirection, ConnectionProperties, ConnectionProperty,
    ConnectionState, MultipathConfig, MultipathPolicy, Preference, PropertyValue, SchedulerType,
    IdentityChallengeCallback, SecurityParameter, SecurityParameterValue, SecurityParameters, SecurityProtocol, TapsError,
    TimeoutValue, TransportProperties, TransportProperty, TrustVerificationCallback,
};
use std::time::Duration;

#[test]
fn connection_properties_defaults() {
    let p = ConnectionProperties::new();
    assert!(matches!(p.get("connPriority"), Some(ConnectionProperty::ConnPriority(100))));
    assert!(matches!(p.get("recvChecksumLen"), Some(ConnectionProperty::RecvChecksumLen(ChecksumCoverage::FullCoverage))));
    assert!(matches!(p.get("connTimeout"), Some(ConnectionProperty::ConnTimeout(TimeoutValue::Disabled))));
    assert!(matches!(p.get("connScheduler"), Some(ConnectionProperty::ConnScheduler(SchedulerType::WeightedFairQueueing))));
    assert!(matches!(p.get("connCapacityProfile"), Some(ConnectionProperty::ConnCapacityProfile(CapacityProfile::Default))));
    assert!(matches!(p.get("multipathPolicy"), Some(ConnectionProperty::MultipathPolicy(MultipathPolicy::Handover))));
    assert!(p.get("connState").is_none());
    assert!(p.has("connPriority"));
    assert!(!p.has("nothing"));
}

#[test]
fn connection_properties_set_then_get() {
    let mut p = ConnectionProperties::new();
    p.set("connPriority", ConnectionProperty::ConnPriority(7)).unwrap();
    assert!(matches!(p.get("connPriority"), Some(ConnectionProperty::ConnPriority(7))));
    p.set("custom", ConnectionProperty::IsolateSession(true)).unwrap();
    assert!(matches!(p.get("custom"), Some(ConnectionProperty::IsolateSession(true))));
    let count = p.all().len();
    p.set("custom", ConnectionProperty::IsolateSession(false)).unwrap();
    assert_eq!(p.all().len(), count);
}

#[test]
fn connection_properties_refuse_read_only() {
    let mut p = ConnectionProperties::new();
    for key in ["connState", "canSend", "canReceive", "singularTransmissionMsgMaxLen", "sendMsgMaxLen", "recvMsgMaxLen"] {
        assert!(is_read_only_key(key));
        match p.set(key, ConnectionProperty::CanSend(true)) {
            Err(TapsError::InvalidParameters(m)) => assert_eq!(m, format!("Property '{}' is read-only", key)),
            _ => panic!("expected refusal"),
        }
        assert!(!p.has(key));
    }
    assert!(!is_read_only_key("connPriority"));
}

#[test]
fn connection_properties_update_readonly() {
    let mut p = ConnectionProperties::new();
    p.update_readonly(ConnectionState::Established, true, false);
    assert!(matches!(p.get("connState"), Some(ConnectionProperty::ConnState(ConnectionState::Established))));
    assert!(matches!(p.get("canSend"), Some(ConnectionProperty::CanSend(true))));
    assert!(matches!(p.get("canReceive"), Some(ConnectionProperty::CanReceive(false))));
}

#[test]
fn connection_properties_clone_keeps_entries() {
    let mut p = ConnectionProperties::new();
    p.set("connPriority", ConnectionProperty::ConnPriority(3)).unwrap();
    let q = p.clone();
    assert!(matches!(q.get("connPriority"), Some(ConnectionProperty::ConnPriority(3))));
    assert_eq!(q.all().len(), p.all().len());
}

#[test]
fn transport_properties_defaults() {
    let t = TransportProperties::new();
    let s = &t.selection_properties;
    assert_eq!(s.reliability, Preference::Require);
    assert_eq!(s.preserve_order, Preference::Require);
    assert_eq!(s.congestion_control, Preference::Require);
    assert_eq!(s.preserve_msg_boundaries, Preference::NoPreference);
    assert_eq!(s.multipath, MultipathConfig::Disabled);
    assert_eq!(s.direction, CommunicationDirection::Bidirectional);
}

#[test]
fn transport_properties_set_preference_and_values() {
    let mut t = TransportProperties::new();
    t.set(TransportProperty::Reliability, PropertyValue::Preference(Preference::Avoid));
    assert_eq!(t.selection_properties.reliability, Preference::Avoid);
    t.set(TransportProperty::Reliability, PropertyValue::Preference(Preference::Prefer));
    assert_eq!(t.selection_properties.reliability, Preference::Prefer);
    t.set(TransportProperty::Interface, PropertyValue::StringPreference("en0".to_string(), Preference::Prefer));
    assert_eq!(t.selection_properties.interface, vec![("en0".to_string(), Preference::Prefer)]);
    t.set(TransportProperty::ConnectionTimeout, PropertyValue::Duration(Duration::from_secs(3)));
    assert_eq!(t.connection_properties.connection_timeout, Some(Duration::from_secs(3)));
    t.set(TransportProperty::Multipath, PropertyValue::Bool(true));
    assert_eq!(t.selection_properties.multipath, MultipathConfig::Disabled);
}

#[test]
fn transport_properties_builder_matches_set() {
    let built = TransportProperties::builder()
        .reliability(Preference::Prohibit)
        .multipath(MultipathConfig::Active)
        .direction(CommunicationDirection::UnidirectionalSend)
        .connection_priority(9)
        .pvd("pvd1", Preference::Avoid)
        .build();
    assert_eq!(built.selection_properties.reliability, Preference::Prohibit);
    assert_eq!(built.selection_properties.multipath, MultipathConfig::Active);
    assert_eq!(built.selection_properties.direction, CommunicationDirection::UnidirectionalSend);
    assert_eq!(built.connection_properties.connection_priority, Some(9));
    assert_eq!(built.selection_properties.pvd, vec![("pvd1".to_string(), Preference::Avoid)]);
}

#[test]
fn builder_chain_equals_set_calls_in_order() {
    let built = TransportProperties::builder()
        .reliability(Preference::Require)
        .interface("eth0", Preference::Prefer)
        .reliability(Preference::Avoid)
        .interface("wlan0", Preference::Avoid)
        .connection_priority(3)
        .connection_priority(7)
        .build();
    let mut set = TransportProperties::new();
    set.set(TransportProperty::Reliability, PropertyValue::Preference(Preference::Require));
    set.set(TransportProperty::Interface, PropertyValue::StringPreference("eth0".to_string(), Preference::Prefer));
    set.set(TransportProperty::Reliability, PropertyValue::Preference(Preference::Avoid));
    set.set(TransportProperty::Interface, PropertyValue::StringPreference("wlan0".to_string(), Preference::Avoid));
    set.set(TransportProperty::ConnectionPriority, PropertyValue::Integer(3));
    set.set(TransportProperty::ConnectionPriority, PropertyValue::Integer(7));
    assert_eq!(built.selection_properties.reliability, Preference::Avoid);
    assert_eq!(set.selection_properties.reliability, Preference::Avoid);
    let expected = vec![("eth0".to_string(), Preference::Prefer), ("wlan0".to_string(), Preference::Avoid)];
    assert_eq!(built.selection_properties.interface, expected);
    assert_eq!(set.selection_properties.interface, expected);
    assert_eq!(built.connection_properties.connection_priority, Some(7));
    assert_eq!(set.connection_properties.connection_priority, Some(7));
    assert_eq!(built.selection_properties.preserve_order, set.selection_properties.preserve_order);
}

#[test]
fn set_with_a_value_of_the_wrong_kind_changes_nothing() {
    let mut t = TransportProperties::new();
    t.set(TransportProperty::Reliability, PropertyValue::Integer(5));
    t.set(TransportProperty::ConnectionPriority, PropertyValue::Preference(Preference::Require));
    let fresh = TransportProperties::new();
    assert_eq!(t.selection_properties.reliability, fresh.selection_properties.reliability);
    assert_eq!(t.connection_properties.connection_priority, None);
}

#[test]
fn security_parameters_defaults() {
    let s = SecurityParameters::new();
    assert!(!s.disabled);
    assert!(!s.opportunistic);
    assert_eq!(s.allowed_protocols, vec![SecurityProtocol::TLS13, SecurityProtocol::TLS12]);
    assert!(SecurityParameters::new_disabled().disabled);
    assert!(SecurityParameters::new_opportunistic().opportunistic);
}

#[test]
fn security_parameters_set() {
    let mut s = SecurityParameters::new();
    s.set(SecurityParameter::Alpn, SecurityParameterValue::Strings(vec!["h2".to_string()]));
    assert_eq!(s.alpn, vec!["h2".to_string()]);
    s.set(SecurityParameter::MaxCachedSessions, SecurityParameterValue::Size(10));
    assert_eq!(s.max_cached_sessions, Some(10));
    s.set(SecurityParameter::Alpn, SecurityParameterValue::Size(3));
    assert_eq!(s.alpn, vec!["h2".to_string()]);
}

#[test]
fn security_parameters_callbacks() {
    let mut s = SecurityParameters::new();
    s.set_trust_verification_callback(|_chain: &tapsrs::CertificateChain| true);
    s.set_identity_challenge_callback(|challenge: &[u8]| challenge.to_vec());
    assert!(s.trust_verification_callback.is_some());
    assert!(s.identity_challenge_callback.is_some());
    let chain = tapsrs::CertificateChain { certificates: vec![] };
    assert!(s.trust_verification_callback.as_ref().unwrap().verify(&chain));
    assert_eq!(s.identity_challenge_callback.as_ref().unwrap().respond(b"abc"), b"abc".to_vec());
    s.set_trust_verification_callback(|chain: &tapsrs::CertificateChain| !chain.certificates.is_empty());
    s.set_identity_challenge_callback(|challenge: &[u8]| challenge.iter().rev().cloned().collect());
    assert!(!s.trust_verification_callback.as_ref().unwrap().verify(&chain));
    assert_eq!(s.identity_challenge_callback.as_ref().unwrap().respond(b"abc"), b"cba".to_vec());
}
