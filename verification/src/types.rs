//! Core data types of Transport Services: preferences, endpoints, transport properties,
//! security parameters, connection states and events.

use vstd::prelude::*;
use std::time::Duration;
use crate::message::MessageContext;

verus! {

/// `Duration::clone`: `Duration` is `Copy`, and its `Clone` gives back the same value.
pub assume_specification[ <std::time::Duration as Clone>::clone ](d: &std::time::Duration) -> (r: std::time::Duration)
    ensures
        r == *d,
;

/// Preference levels for Selection Properties.
#[derive(Debug, Clone, Copy, PartialEq, Eq, Structural)]
pub enum Preference {
    /// Select only protocols/paths providing the property; otherwise fail.
    Require,
    /// Prefer protocols/paths providing the property; otherwise proceed.
    Prefer,
    /// No preference.
    NoPreference,
    /// Prefer protocols/paths not providing the property; otherwise proceed.
    Avoid,
    /// Select only protocols/paths not providing the property; otherwise fail.
    Prohibit,
}

/// An IPv4 or IPv6 address, held as its numeric value (the address bytes read big-endian).
#[derive(Debug, Clone, Copy, PartialEq, Eq, Structural, Hash)]
pub enum IpAddress {
    V4(u32),
    V6(u128),
}

/// An IP address together with a port.
#[derive(Debug, Clone, Copy, PartialEq, Eq, Structural, Hash)]
pub struct SocketAddress {
    pub ip: IpAddress,
    pub port: u16,
}

impl IpAddress {
    /// The unspecified IPv4 address `0.0.0.0`.
    pub fn unspecified_v4() -> (r: IpAddress)
        ensures
            r == IpAddress::V4(0),
    {
        IpAddress::V4(0)
    }
}

/// STUN server credentials.
#[derive(Debug, Eq)]
pub struct StunCredentials {
    pub username: String,
    pub password: String,
}

impl Clone for StunCredentials {
    fn clone(&self) -> (r: Self)
        ensures
            r == *self,
    {
        StunCredentials { username: self.username.clone(), password: self.password.clone() }
    }
}

impl PartialEq for StunCredentials {
    fn eq(&self, other: &Self) -> (r: bool) {
        self.username == other.username && self.password == other.password
    }
}

impl vstd::std_specs::cmp::PartialEqSpecImpl for StunCredentials {
    open spec fn obeys_eq_spec() -> bool {
        true
    }

    open spec fn eq_spec(&self, other: &StunCredentials) -> bool {
        self.username@ == other.username@ && self.password@ == other.password@
    }
}

/// An endpoint identifier: one of the forms in which an endpoint can be named.
#[derive(Debug, Eq)]
pub enum EndpointIdentifier {
    /// Host name (FQDN).
    HostName(String),
    /// IPv4 or IPv6 address.
    IpAddress(IpAddress),
    /// Port number.
    Port(u16),
    /// Service name (e.g. "https").
    Service(String),
    /// Interface identifier (e.g. "en0").
    Interface(String),
    /// Socket address (IP and port).
    SocketAddress(SocketAddress),
    /// STUN server configuration.
    StunServer { address: String, port: u16, credentials: Option<StunCredentials> },
    /// Multicast group address (for sending).
    MulticastGroupIP(IpAddress),
    /// Any-source multicast group (for receiving).
    AnySourceMulticastGroupIP(IpAddress),
    /// Single-source multicast group (for receiving).
    SingleSourceMulticastGroupIP { group: IpAddress, source: IpAddress },
    /// Hop limit for multicast packets.
    HopLimit(u8),
}

/// Two optional credentials denote the same thing.
pub open spec fn same_credentials(a: Option<StunCredentials>, b: Option<StunCredentials>) -> bool {
    match (a, b) {
        (None, None) => true,
        (Some(x), Some(y)) => x.username@ == y.username@ && x.password@ == y.password@,
        _ => false,
    }
}

/// Two endpoint identifiers denote the same thing: same form, and equal contents
/// (strings compared by their characters).
pub open spec fn same_identifier(a: EndpointIdentifier, b: EndpointIdentifier) -> bool {
    match (a, b) {
        (EndpointIdentifier::HostName(x), EndpointIdentifier::HostName(y)) => x@ == y@,
        (EndpointIdentifier::IpAddress(x), EndpointIdentifier::IpAddress(y)) => x == y,
        (EndpointIdentifier::Port(x), EndpointIdentifier::Port(y)) => x == y,
        (EndpointIdentifier::Service(x), EndpointIdentifier::Service(y)) => x@ == y@,
        (EndpointIdentifier::Interface(x), EndpointIdentifier::Interface(y)) => x@ == y@,
        (EndpointIdentifier::SocketAddress(x), EndpointIdentifier::SocketAddress(y)) => x == y,
        (
            EndpointIdentifier::StunServer { address: a1, port: p1, credentials: c1 },
            EndpointIdentifier::StunServer { address: a2, port: p2, credentials: c2 },
        ) => a1@ == a2@ && p1 == p2 && same_credentials(c1, c2),
        (EndpointIdentifier::MulticastGroupIP(x), EndpointIdentifier::MulticastGroupIP(y)) => x == y,
        (
            EndpointIdentifier::AnySourceMulticastGroupIP(x),
            EndpointIdentifier::AnySourceMulticastGroupIP(y),
        ) => x == y,
        (
            EndpointIdentifier::SingleSourceMulticastGroupIP { group: g1, source: s1 },
            EndpointIdentifier::SingleSourceMulticastGroupIP { group: g2, source: s2 },
        ) => g1 == g2 && s1 == s2,
        (EndpointIdentifier::HopLimit(x), EndpointIdentifier::HopLimit(y)) => x == y,
        _ => false,
    }
}

impl Clone for EndpointIdentifier {
    fn clone(&self) -> (r: Self)
        ensures
            r == *self,
    {
        match self {
            EndpointIdentifier::HostName(s) => EndpointIdentifier::HostName(s.clone()),
            EndpointIdentifier::IpAddress(a) => EndpointIdentifier::IpAddress(*a),
            EndpointIdentifier::Port(p) => EndpointIdentifier::Port(*p),
            EndpointIdentifier::Service(s) => EndpointIdentifier::Service(s.clone()),
            EndpointIdentifier::Interface(s) => EndpointIdentifier::Interface(s.clone()),
            EndpointIdentifier::SocketAddress(a) => EndpointIdentifier::SocketAddress(*a),
            EndpointIdentifier::StunServer { address, port, credentials } => {
                let c = match credentials {
                    Some(c) => Some(c.clone()),
                    None => None,
                };
                EndpointIdentifier::StunServer { address: address.clone(), port: *port, credentials: c }
            },
            EndpointIdentifier::MulticastGroupIP(a) => EndpointIdentifier::MulticastGroupIP(*a),
            EndpointIdentifier::AnySourceMulticastGroupIP(a) => EndpointIdentifier::AnySourceMulticastGroupIP(*a),
            EndpointIdentifier::SingleSourceMulticastGroupIP { group, source } =>
                EndpointIdentifier::SingleSourceMulticastGroupIP { group: *group, source: *source },
            EndpointIdentifier::HopLimit(h) => EndpointIdentifier::HopLimit(*h),
        }
    }
}

fn same_optional_credentials(a: &Option<StunCredentials>, b: &Option<StunCredentials>) -> (r: bool)
    ensures
        r == same_credentials(*a, *b),
{
    match (a, b) {
        (None, None) => true,
        (Some(x), Some(y)) => x.username == y.username && x.password == y.password,
        _ => false,
    }
}

impl PartialEq for EndpointIdentifier {
    fn eq(&self, other: &Self) -> (r: bool) {
        match (self, other) {
            (EndpointIdentifier::HostName(x), EndpointIdentifier::HostName(y)) => *x == *y,
            (EndpointIdentifier::IpAddress(x), EndpointIdentifier::IpAddress(y)) => *x == *y,
            (EndpointIdentifier::Port(x), EndpointIdentifier::Port(y)) => *x == *y,
            (EndpointIdentifier::Service(x), EndpointIdentifier::Service(y)) => *x == *y,
            (EndpointIdentifier::Interface(x), EndpointIdentifier::Interface(y)) => *x == *y,
            (EndpointIdentifier::SocketAddress(x), EndpointIdentifier::SocketAddress(y)) => *x == *y,
            (
                EndpointIdentifier::StunServer { address: a1, port: p1, credentials: c1 },
                EndpointIdentifier::StunServer { address: a2, port: p2, credentials: c2 },
            ) => *a1 == *a2 && *p1 == *p2 && same_optional_credentials(c1, c2),
            (EndpointIdentifier::MulticastGroupIP(x), EndpointIdentifier::MulticastGroupIP(y)) => *x == *y,
            (
                EndpointIdentifier::AnySourceMulticastGroupIP(x),
                EndpointIdentifier::AnySourceMulticastGroupIP(y),
            ) => *x == *y,
            (
                EndpointIdentifier::SingleSourceMulticastGroupIP { group: g1, source: s1 },
                EndpointIdentifier::SingleSourceMulticastGroupIP { group: g2, source: s2 },
            ) => *g1 == *g2 && *s1 == *s2,
            (EndpointIdentifier::HopLimit(x), EndpointIdentifier::HopLimit(y)) => *x == *y,
            _ => false,
        }
    }
}

impl vstd::std_specs::cmp::PartialEqSpecImpl for EndpointIdentifier {
    open spec fn obeys_eq_spec() -> bool {
        true
    }

    open spec fn eq_spec(&self, other: &EndpointIdentifier) -> bool {
        same_identifier(*self, *other)
    }
}

} // verus!

verus! {

/// `new` is `old` with exactly one more identifier at its end.
pub open spec fn extends_by_one(old: Seq<EndpointIdentifier>, new: Seq<EndpointIdentifier>) -> bool {
    &&& new.len() > 0
    &&& new == old.push(new.last())
}

/// Local endpoint specification: the identifiers under which the local side is named.
#[derive(Debug)]
pub struct LocalEndpoint {
    pub identifiers: Vec<EndpointIdentifier>,
}

impl Clone for LocalEndpoint {
    fn clone(&self) -> (r: Self)
        ensures
            r.identifiers@ == self.identifiers@,
    {
        let ids = self.identifiers.clone();
        assert(ids@ =~= self.identifiers@);
        LocalEndpoint { identifiers: ids }
    }
}

impl Default for LocalEndpoint {
    fn default() -> (r: Self)
        ensures
            r.identifiers@.len() == 0,
    {
        LocalEndpoint { identifiers: Vec::new() }
    }
}

impl LocalEndpoint {
    /// A local endpoint with no identifiers.
    pub fn new() -> (r: Self)
        ensures
            r.identifiers@.len() == 0,
    {
        LocalEndpoint { identifiers: Vec::new() }
    }

    /// A builder for a local endpoint.
    pub fn builder() -> (r: LocalEndpointBuilder)
        ensures
            r.spec_endpoint().identifiers@.len() == 0,
    {
        LocalEndpointBuilder::new()
    }

    /// Adds an interface identifier.
    pub fn with_interface(self, interface: &str) -> (r: Self)
        ensures
            extends_by_one(self.identifiers@, r.identifiers@),
            r.identifiers@.last() matches EndpointIdentifier::Interface(s) && s@ == interface@,
    {
        let mut s = self;
        s.identifiers.push(EndpointIdentifier::Interface(interface.to_string()));
        s
    }

    /// Adds a port number.
    pub fn with_port(self, port: u16) -> (r: Self)
        ensures
            r.identifiers@ == self.identifiers@.push(EndpointIdentifier::Port(port)),
    {
        let mut s = self;
        s.identifiers.push(EndpointIdentifier::Port(port));
        s
    }

    /// Adds an IP address.
    pub fn with_ip_address(self, addr: IpAddress) -> (r: Self)
        ensures
            r.identifiers@ == self.identifiers@.push(EndpointIdentifier::IpAddress(addr)),
    {
        let mut s = self;
        s.identifiers.push(EndpointIdentifier::IpAddress(addr));
        s
    }

    /// Adds a STUN server for NAT traversal.
    pub fn with_stun_server(self, address: &str, port: u16, credentials: Option<StunCredentials>) -> (r: Self)
        ensures
            extends_by_one(self.identifiers@, r.identifiers@),
            r.identifiers@.last() matches EndpointIdentifier::StunServer { address: a, port: p, credentials: c }
                && a@ == address@ && p == port && c == credentials,
    {
        let mut s = self;
        s.identifiers.push(EndpointIdentifier::StunServer { address: address.to_string(), port, credentials });
        s
    }

    /// Joins an any-source multicast group (for receiving).
    pub fn with_any_source_multicast_group_ip(self, group: IpAddress) -> (r: Self)
        ensures
            r.identifiers@ == self.identifiers@.push(EndpointIdentifier::AnySourceMulticastGroupIP(group)),
    {
        let mut s = self;
        s.identifiers.push(EndpointIdentifier::AnySourceMulticastGroupIP(group));
        s
    }

    /// Joins a single-source multicast group (for receiving).
    pub fn with_single_source_multicast_group_ip(self, group: IpAddress, source: IpAddress) -> (r: Self)
        ensures
            r.identifiers@ == self.identifiers@.push(
                EndpointIdentifier::SingleSourceMulticastGroupIP { group, source },
            ),
    {
        let mut s = self;
        s.identifiers.push(EndpointIdentifier::SingleSourceMulticastGroupIP { group, source });
        s
    }
}

/// Builder for a local endpoint.
pub struct LocalEndpointBuilder {
    endpoint: LocalEndpoint,
}

impl LocalEndpointBuilder {
    /// The endpoint built so far.
    pub closed spec fn spec_endpoint(&self) -> LocalEndpoint {
        self.endpoint
    }

    /// A builder with no identifiers.
    pub fn new() -> (r: Self)
        ensures
            r.spec_endpoint().identifiers@.len() == 0,
    {
        LocalEndpointBuilder { endpoint: LocalEndpoint::new() }
    }

    /// Adds an interface identifier.
    pub fn interface(self, interface: &str) -> (r: Self)
        ensures
            extends_by_one(self.spec_endpoint().identifiers@, r.spec_endpoint().identifiers@),
            r.spec_endpoint().identifiers@.last() matches EndpointIdentifier::Interface(s) && s@ == interface@,
    {
        LocalEndpointBuilder { endpoint: self.endpoint.with_interface(interface) }
    }

    /// Adds a port number.
    pub fn port(self, port: u16) -> (r: Self)
        ensures
            r.spec_endpoint().identifiers@ == self.spec_endpoint().identifiers@.push(EndpointIdentifier::Port(port)),
    {
        LocalEndpointBuilder { endpoint: self.endpoint.with_port(port) }
    }

    /// Adds an IP address.
    pub fn ip_address(self, addr: IpAddress) -> (r: Self)
        ensures
            r.spec_endpoint().identifiers@ == self.spec_endpoint().identifiers@.push(EndpointIdentifier::IpAddress(addr)),
    {
        LocalEndpointBuilder { endpoint: self.endpoint.with_ip_address(addr) }
    }

    /// Adds a STUN server.
    pub fn stun_server(self, address: &str, port: u16, credentials: Option<StunCredentials>) -> (r: Self)
        ensures
            extends_by_one(self.spec_endpoint().identifiers@, r.spec_endpoint().identifiers@),
            r.spec_endpoint().identifiers@.last() matches EndpointIdentifier::StunServer { address: a, port: p, credentials: c }
                && a@ == address@ && p == port && c == credentials,
    {
        LocalEndpointBuilder { endpoint: self.endpoint.with_stun_server(address, port, credentials) }
    }

    /// Joins an any-source multicast group.
    pub fn any_source_multicast_group_ip(self, group: IpAddress) -> (r: Self)
        ensures
            r.spec_endpoint().identifiers@ == self.spec_endpoint().identifiers@.push(
                EndpointIdentifier::AnySourceMulticastGroupIP(group),
            ),
    {
        LocalEndpointBuilder { endpoint: self.endpoint.with_any_source_multicast_group_ip(group) }
    }

    /// Joins a single-source multicast group.
    pub fn single_source_multicast_group_ip(self, group: IpAddress, source: IpAddress) -> (r: Self)
        ensures
            r.spec_endpoint().identifiers@ == self.spec_endpoint().identifiers@.push(
                EndpointIdentifier::SingleSourceMulticastGroupIP { group, source },
            ),
    {
        LocalEndpointBuilder { endpoint: self.endpoint.with_single_source_multicast_group_ip(group, source) }
    }

    /// The endpoint built.
    pub fn build(self) -> (r: LocalEndpoint)
        ensures
            r == self.spec_endpoint(),
    {
        self.endpoint
    }
}

impl Default for LocalEndpointBuilder {
    fn default() -> (r: Self)
        ensures
            r.spec_endpoint().identifiers@.len() == 0,
    {
        LocalEndpointBuilder::new()
    }
}

/// Transport protocols.
#[derive(Debug, Clone, Copy, PartialEq, Eq, Structural)]
pub enum Protocol {
    TCP,
    UDP,
    QUIC,
    SCTP,
    TLS,
    DTLS,
}

/// Remote endpoint specification: identifiers of the peer, and optionally the protocol
/// the identifiers are specific to.
#[derive(Debug)]
pub struct RemoteEndpoint {
    pub identifiers: Vec<EndpointIdentifier>,
    pub protocol: Option<Protocol>,
}

impl Clone for RemoteEndpoint {
    fn clone(&self) -> (r: Self)
        ensures
            r.identifiers@ == self.identifiers@,
            r.protocol == self.protocol,
    {
        let ids = self.identifiers.clone();
        assert(ids@ =~= self.identifiers@);
        RemoteEndpoint { identifiers: ids, protocol: self.protocol }
    }
}

impl Default for RemoteEndpoint {
    fn default() -> (r: Self)
        ensures
            r.identifiers@.len() == 0,
            r.protocol is None,
    {
        RemoteEndpoint { identifiers: Vec::new(), protocol: None }
    }
}

impl RemoteEndpoint {
    /// A remote endpoint with no identifiers and no protocol.
    pub fn new() -> (r: Self)
        ensures
            r.identifiers@.len() == 0,
            r.protocol is None,
    {
        RemoteEndpoint { identifiers: Vec::new(), protocol: None }
    }

    /// A builder for a remote endpoint.
    pub fn builder() -> (r: RemoteEndpointBuilder)
        ensures
            r.spec_endpoint().identifiers@.len() == 0,
            r.spec_endpoint().protocol is None,
    {
        RemoteEndpointBuilder::new()
    }

    /// Adds a host name.
    pub fn with_hostname(self, hostname: &str) -> (r: Self)
        ensures
            extends_by_one(self.identifiers@, r.identifiers@),
            r.identifiers@.last() matches EndpointIdentifier::HostName(s) && s@ == hostname@,
            r.protocol == self.protocol,
    {
        let mut s = self;
        s.identifiers.push(EndpointIdentifier::HostName(hostname.to_string()));
        s
    }

    /// Adds a port number.
    pub fn with_port(self, port: u16) -> (r: Self)
        ensures
            r.identifiers@ == self.identifiers@.push(EndpointIdentifier::Port(port)),
            r.protocol == self.protocol,
    {
        let mut s = self;
        s.identifiers.push(EndpointIdentifier::Port(port));
        s
    }

    /// Adds a service name.
    pub fn with_service(self, service: &str) -> (r: Self)
        ensures
            extends_by_one(self.identifiers@, r.identifiers@),
            r.identifiers@.last() matches EndpointIdentifier::Service(s) && s@ == service@,
            r.protocol == self.protocol,
    {
        let mut s = self;
        s.identifiers.push(EndpointIdentifier::Service(service.to_string()));
        s
    }

    /// Adds an IP address.
    pub fn with_ip_address(self, addr: IpAddress) -> (r: Self)
        ensures
            r.identifiers@ == self.identifiers@.push(EndpointIdentifier::IpAddress(addr)),
            r.protocol == self.protocol,
    {
        let mut s = self;
        s.identifiers.push(EndpointIdentifier::IpAddress(addr));
        s
    }

    /// Adds an interface (to qualify link-local addresses).
    pub fn with_interface(self, interface: &str) -> (r: Self)
        ensures
            extends_by_one(self.identifiers@, r.identifiers@),
            r.identifiers@.last() matches EndpointIdentifier::Interface(s) && s@ == interface@,
            r.protocol == self.protocol,
    {
        let mut s = self;
        s.identifiers.push(EndpointIdentifier::Interface(interface.to_string()));
        s
    }

    /// Sets the protocol the identifiers are specific to.
    pub fn with_protocol(self, protocol: Protocol) -> (r: Self)
        ensures
            r.identifiers == self.identifiers,
            r.protocol == Some(protocol),
    {
        let mut s = self;
        s.protocol = Some(protocol);
        s
    }

    /// Adds a multicast group address (for sending).
    pub fn with_multicast_group_ip(self, group: IpAddress) -> (r: Self)
        ensures
            r.identifiers@ == self.identifiers@.push(EndpointIdentifier::MulticastGroupIP(group)),
            r.protocol == self.protocol,
    {
        let mut s = self;
        s.identifiers.push(EndpointIdentifier::MulticastGroupIP(group));
        s
    }

    /// Sets the hop limit for multicast packets.
    pub fn with_hop_limit(self, hop_limit: u8) -> (r: Self)
        ensures
            r.identifiers@ == self.identifiers@.push(EndpointIdentifier::HopLimit(hop_limit)),
            r.protocol == self.protocol,
    {
        let mut s = self;
        s.identifiers.push(EndpointIdentifier::HopLimit(hop_limit));
        s
    }
}

/// Builder for a remote endpoint.
pub struct RemoteEndpointBuilder {
    endpoint: RemoteEndpoint,
}

impl RemoteEndpointBuilder {
    /// The endpoint built so far.
    pub closed spec fn spec_endpoint(&self) -> RemoteEndpoint {
        self.endpoint
    }

    /// A builder with no identifiers and no protocol.
    pub fn new() -> (r: Self)
        ensures
            r.spec_endpoint().identifiers@.len() == 0,
            r.spec_endpoint().protocol is None,
    {
        RemoteEndpointBuilder { endpoint: RemoteEndpoint::new() }
    }

    /// Adds a host name.
    pub fn hostname(self, hostname: &str) -> (r: Self)
        ensures
            extends_by_one(self.spec_endpoint().identifiers@, r.spec_endpoint().identifiers@),
            r.spec_endpoint().identifiers@.last() matches EndpointIdentifier::HostName(s) && s@ == hostname@,
            r.spec_endpoint().protocol == self.spec_endpoint().protocol,
    {
        RemoteEndpointBuilder { endpoint: self.endpoint.with_hostname(hostname) }
    }

    /// Adds a port number.
    pub fn port(self, port: u16) -> (r: Self)
        ensures
            r.spec_endpoint().identifiers@ == self.spec_endpoint().identifiers@.push(EndpointIdentifier::Port(port)),
            r.spec_endpoint().protocol == self.spec_endpoint().protocol,
    {
        RemoteEndpointBuilder { endpoint: self.endpoint.with_port(port) }
    }

    /// Adds a service name.
    pub fn service(self, service: &str) -> (r: Self)
        ensures
            extends_by_one(self.spec_endpoint().identifiers@, r.spec_endpoint().identifiers@),
            r.spec_endpoint().identifiers@.last() matches EndpointIdentifier::Service(s) && s@ == service@,
            r.spec_endpoint().protocol == self.spec_endpoint().protocol,
    {
        RemoteEndpointBuilder { endpoint: self.endpoint.with_service(service) }
    }

    /// Adds an IP address.
    pub fn ip_address(self, addr: IpAddress) -> (r: Self)
        ensures
            r.spec_endpoint().identifiers@ == self.spec_endpoint().identifiers@.push(EndpointIdentifier::IpAddress(addr)),
            r.spec_endpoint().protocol == self.spec_endpoint().protocol,
    {
        RemoteEndpointBuilder { endpoint: self.endpoint.with_ip_address(addr) }
    }

    /// Adds a socket address.
    pub fn socket_address(self, addr: SocketAddress) -> (r: Self)
        ensures
            r.spec_endpoint().identifiers@ == self.spec_endpoint().identifiers@.push(EndpointIdentifier::SocketAddress(addr)),
            r.spec_endpoint().protocol == self.spec_endpoint().protocol,
    {
        let mut b = self;
        b.endpoint.identifiers.push(EndpointIdentifier::SocketAddress(addr));
        b
    }

    /// Adds an interface.
    pub fn interface(self, interface: &str) -> (r: Self)
        ensures
            extends_by_one(self.spec_endpoint().identifiers@, r.spec_endpoint().identifiers@),
            r.spec_endpoint().identifiers@.last() matches EndpointIdentifier::Interface(s) && s@ == interface@,
            r.spec_endpoint().protocol == self.spec_endpoint().protocol,
    {
        RemoteEndpointBuilder { endpoint: self.endpoint.with_interface(interface) }
    }

    /// Sets the protocol.
    pub fn protocol(self, protocol: Protocol) -> (r: Self)
        ensures
            r.spec_endpoint().identifiers == self.spec_endpoint().identifiers,
            r.spec_endpoint().protocol == Some(protocol),
    {
        RemoteEndpointBuilder { endpoint: self.endpoint.with_protocol(protocol) }
    }

    /// Adds a multicast group address.
    pub fn multicast_group_ip(self, group: IpAddress) -> (r: Self)
        ensures
            r.spec_endpoint().identifiers@ == self.spec_endpoint().identifiers@.push(EndpointIdentifier::MulticastGroupIP(group)),
            r.spec_endpoint().protocol == self.spec_endpoint().protocol,
    {
        RemoteEndpointBuilder { endpoint: self.endpoint.with_multicast_group_ip(group) }
    }

    /// Sets the hop limit for multicast packets.
    pub fn hop_limit(self, hop_limit: u8) -> (r: Self)
        ensures
            r.spec_endpoint().identifiers@ == self.spec_endpoint().identifiers@.push(EndpointIdentifier::HopLimit(hop_limit)),
            r.spec_endpoint().protocol == self.spec_endpoint().protocol,
    {
        RemoteEndpointBuilder { endpoint: self.endpoint.with_hop_limit(hop_limit) }
    }

    /// The endpoint built.
    pub fn build(self) -> (r: RemoteEndpoint)
        ensures
            r == self.spec_endpoint(),
    {
        self.endpoint
    }
}

impl Default for RemoteEndpointBuilder {
    fn default() -> (r: Self)
        ensures
            r.spec_endpoint().identifiers@.len() == 0,
            r.spec_endpoint().protocol is None,
    {
        RemoteEndpointBuilder::new()
    }
}

} // verus!

verus! {

/// Multipath configuration.
#[derive(Debug, Clone, Copy, PartialEq, Eq, Structural)]
pub enum MultipathConfig {
    Disabled,
    Active,
    Passive,
}

impl Default for MultipathConfig {
    fn default() -> (r: Self)
        ensures
            r == MultipathConfig::Disabled,
    {
        MultipathConfig::Disabled
    }
}

/// Direction of communication.
#[derive(Debug, Clone, Copy, PartialEq, Eq, Structural)]
pub enum CommunicationDirection {
    Bidirectional,
    UnidirectionalSend,
    UnidirectionalReceive,
}

impl Default for CommunicationDirection {
    fn default() -> (r: Self)
        ensures
            r == CommunicationDirection::Bidirectional,
    {
        CommunicationDirection::Bidirectional
    }
}

/// All transport properties that `TransportProperties::set` knows.
#[derive(Debug, Clone, Copy, PartialEq, Eq, Structural)]
pub enum TransportProperty {
    Reliability,
    PreserveMsgBoundaries,
    PerMsgReliability,
    PreserveOrder,
    ZeroRttMsg,
    Multistreaming,
    FullChecksumSend,
    FullChecksumRecv,
    CongestionControl,
    KeepAlive,
    Interface,
    Pvd,
    UseTemporaryLocalAddress,
    Multipath,
    AdvertisesAltaddr,
    Direction,
    SoftErrorNotify,
    ActiveReadBeforeSend,
    ConnectionTimeout,
    KeepAliveTimeout,
    ConnectionPriority,
    MaximumMessageSizeOnSend,
    MaximumMessageSizeOnReceive,
}

/// Values that can be assigned to transport properties.
#[derive(Debug, Clone)]
pub enum PropertyValue {
    Preference(Preference),
    Bool(bool),
    Integer(i32),
    Size(usize),
    Duration(Duration),
    StringPreference(String, Preference),
    Multipath(MultipathConfig),
    Direction(CommunicationDirection),
}

/// Selection properties, used before a connection is established.
#[derive(Debug)]
pub struct SelectionProperties {
    pub reliability: Preference,
    pub preserve_msg_boundaries: Preference,
    pub per_msg_reliability: Preference,
    pub preserve_order: Preference,
    pub zero_rtt_msg: Preference,
    pub multistreaming: Preference,
    pub full_checksum_send: Preference,
    pub full_checksum_recv: Preference,
    pub congestion_control: Preference,
    pub keep_alive: Preference,
    pub interface: Vec<(String, Preference)>,
    pub pvd: Vec<(String, Preference)>,
    pub use_temporary_local_address: Preference,
    pub multipath: MultipathConfig,
    pub advertises_altaddr: bool,
    pub direction: CommunicationDirection,
    pub soft_error_notify: Preference,
    pub active_read_before_send: Preference,
}

/// A list of (name, preference) pairs, the names taken by their characters.
pub open spec fn named_preferences(v: Seq<(String, Preference)>) -> Seq<(Seq<char>, Preference)> {
    v.map_values(|p: (String, Preference)| (p.0@, p.1))
}

/// The mathematical value of the selection properties.
pub struct SelectionPropertiesView {
    pub reliability: Preference,
    pub preserve_msg_boundaries: Preference,
    pub per_msg_reliability: Preference,
    pub preserve_order: Preference,
    pub zero_rtt_msg: Preference,
    pub multistreaming: Preference,
    pub full_checksum_send: Preference,
    pub full_checksum_recv: Preference,
    pub congestion_control: Preference,
    pub keep_alive: Preference,
    pub interface: Seq<(Seq<char>, Preference)>,
    pub pvd: Seq<(Seq<char>, Preference)>,
    pub use_temporary_local_address: Preference,
    pub multipath: MultipathConfig,
    pub advertises_altaddr: bool,
    pub direction: CommunicationDirection,
    pub soft_error_notify: Preference,
    pub active_read_before_send: Preference,
}

impl View for SelectionProperties {
    type V = SelectionPropertiesView;

    open spec fn view(&self) -> SelectionPropertiesView {
        SelectionPropertiesView {
            reliability: self.reliability,
            preserve_msg_boundaries: self.preserve_msg_boundaries,
            per_msg_reliability: self.per_msg_reliability,
            preserve_order: self.preserve_order,
            zero_rtt_msg: self.zero_rtt_msg,
            multistreaming: self.multistreaming,
            full_checksum_send: self.full_checksum_send,
            full_checksum_recv: self.full_checksum_recv,
            congestion_control: self.congestion_control,
            keep_alive: self.keep_alive,
            interface: named_preferences(self.interface@),
            pvd: named_preferences(self.pvd@),
            use_temporary_local_address: self.use_temporary_local_address,
            multipath: self.multipath,
            advertises_altaddr: self.advertises_altaddr,
            direction: self.direction,
            soft_error_notify: self.soft_error_notify,
            active_read_before_send: self.active_read_before_send,
        }
    }
}

/// The default selection properties (RFC 9622 Section 6.2 defaults).
pub open spec fn default_selection() -> SelectionPropertiesView {
    SelectionPropertiesView {
        reliability: Preference::Require,
        preserve_msg_boundaries: Preference::NoPreference,
        per_msg_reliability: Preference::NoPreference,
        preserve_order: Preference::Require,
        zero_rtt_msg: Preference::NoPreference,
        multistreaming: Preference::Prefer,
        full_checksum_send: Preference::Require,
        full_checksum_recv: Preference::Require,
        congestion_control: Preference::Require,
        keep_alive: Preference::NoPreference,
        interface: Seq::empty(),
        pvd: Seq::empty(),
        use_temporary_local_address: Preference::Prefer,
        multipath: MultipathConfig::Disabled,
        advertises_altaddr: false,
        direction: CommunicationDirection::Bidirectional,
        soft_error_notify: Preference::NoPreference,
        active_read_before_send: Preference::NoPreference,
    }
}

impl Default for SelectionProperties {
    fn default() -> (r: Self)
        ensures
            r@ == default_selection(),
    {
        let r = SelectionProperties {
            reliability: Preference::Require,
            preserve_msg_boundaries: Preference::NoPreference,
            per_msg_reliability: Preference::NoPreference,
            preserve_order: Preference::Require,
            zero_rtt_msg: Preference::NoPreference,
            multistreaming: Preference::Prefer,
            full_checksum_send: Preference::Require,
            full_checksum_recv: Preference::Require,
            congestion_control: Preference::Require,
            keep_alive: Preference::NoPreference,
            interface: Vec::new(),
            pvd: Vec::new(),
            use_temporary_local_address: Preference::Prefer,
            multipath: MultipathConfig::Disabled,
            advertises_altaddr: false,
            direction: CommunicationDirection::Bidirectional,
            soft_error_notify: Preference::NoPreference,
            active_read_before_send: Preference::NoPreference,
        };
        assert(r@.interface =~= Seq::<(Seq<char>, Preference)>::empty());
        assert(r@.pvd =~= Seq::<(Seq<char>, Preference)>::empty());
        r
    }
}

proof fn lemma_named_preferences_push(s: Seq<(String, Preference)>, x: (String, Preference))
    ensures
        named_preferences(s.push(x)) == named_preferences(s).push((x.0@, x.1)),
{
    assert(named_preferences(s.push(x)) =~= named_preferences(s).push((x.0@, x.1)));
}

fn clone_named_preferences(v: &Vec<(String, Preference)>) -> (r: Vec<(String, Preference)>)
    ensures
        named_preferences(r@) == named_preferences(v@),
{
    let mut r: Vec<(String, Preference)> = Vec::new();
    let mut i: usize = 0;
    while i < v.len()
        invariant
            i <= v.len(),
            named_preferences(r@) == named_preferences(v@.take(i as int)),
        decreases v.len() - i,
    {
        let (name, pref) = &v[i];
        let ghost old_r = r@;
        r.push((name.clone(), *pref));
        assert(v@.take(i + 1) =~= v@.take(i as int).push(v@[i as int]));
        proof {
            lemma_named_preferences_push(old_r, r@.last());
            lemma_named_preferences_push(v@.take(i as int), v@[i as int]);
            assert(r@ =~= old_r.push(r@.last()));
        }
        i += 1;
    }
    assert(v@.take(v.len() as int) =~= v@);
    r
}

impl Clone for SelectionProperties {
    fn clone(&self) -> (r: Self)
        ensures
            r@ == self@,
    {
        SelectionProperties {
            reliability: self.reliability,
            preserve_msg_boundaries: self.preserve_msg_boundaries,
            per_msg_reliability: self.per_msg_reliability,
            preserve_order: self.preserve_order,
            zero_rtt_msg: self.zero_rtt_msg,
            multistreaming: self.multistreaming,
            full_checksum_send: self.full_checksum_send,
            full_checksum_recv: self.full_checksum_recv,
            congestion_control: self.congestion_control,
            keep_alive: self.keep_alive,
            interface: clone_named_preferences(&self.interface),
            pvd: clone_named_preferences(&self.pvd),
            use_temporary_local_address: self.use_temporary_local_address,
            multipath: self.multipath,
            advertises_altaddr: self.advertises_altaddr,
            direction: self.direction,
            soft_error_notify: self.soft_error_notify,
            active_read_before_send: self.active_read_before_send,
        }
    }
}

/// Connection properties that can be given before establishment.
#[derive(Debug, Clone, Copy)]
pub struct ConnectionProperties {
    pub connection_timeout: Option<Duration>,
    pub keep_alive_timeout: Option<Duration>,
    pub connection_priority: Option<i32>,
    pub maximum_message_size_on_send: Option<usize>,
    pub maximum_message_size_on_receive: Option<usize>,
}

/// No connection property given.
pub open spec fn default_connection_properties() -> ConnectionProperties {
    ConnectionProperties {
        connection_timeout: None,
        keep_alive_timeout: None,
        connection_priority: None,
        maximum_message_size_on_send: None,
        maximum_message_size_on_receive: None,
    }
}

impl Default for ConnectionProperties {
    fn default() -> (r: Self)
        ensures
            r == default_connection_properties(),
    {
        ConnectionProperties {
            connection_timeout: None,
            keep_alive_timeout: None,
            connection_priority: None,
            maximum_message_size_on_send: None,
            maximum_message_size_on_receive: None,
        }
    }
}

/// Message capacity profile, overriding the connection's default for one message.
#[derive(Debug, Clone, Copy, PartialEq, Eq, Structural)]
pub enum MessageCapacityProfile {
    /// Low latency at the expense of efficiency.
    LowLatencyInteractive,
    /// Low latency for application-limited transfers.
    LowLatencyNonInteractive,
    /// High throughput and efficiency.
    ConstantRate,
    /// Large transfers.
    Scavenger,
}

/// Per-message properties (RFC 9622 Section 9.1.3).
#[derive(Debug, Clone, Copy)]
pub struct MessageProperties {
    /// Lifetime before the message expires.
    pub lifetime: Option<Duration>,
    /// Priority (higher values mean higher priority).
    pub priority: Option<i32>,
    /// Whether ordering is preserved for this message.
    pub ordered: Option<bool>,
    /// Whether the message is safely replayable (idempotent).
    pub safely_replayable: bool,
    /// Whether this is the final message on the connection.
    pub final_message: bool,
    /// Checksum coverage length in bytes.
    pub checksum_length: Option<usize>,
    /// Whether reliable delivery is required.
    pub reliable: Option<bool>,
    /// Capacity profile override.
    pub capacity_profile: Option<MessageCapacityProfile>,
    /// Disable network-layer fragmentation.
    pub no_fragmentation: bool,
    /// Disable transport-layer segmentation.
    pub no_segmentation: bool,
    /// Older name of `safely_replayable`, kept for compatibility.
    pub idempotent: bool,
    /// Older name of `checksum_length`, kept for compatibility.
    pub corruption_protection_length: Option<usize>,
    /// Older form of `capacity_profile`, kept for compatibility.
    pub message_capacity: Option<usize>,
}

/// No message property given.
pub open spec fn default_message_properties() -> MessageProperties {
    MessageProperties {
        lifetime: None,
        priority: None,
        ordered: None,
        safely_replayable: false,
        final_message: false,
        checksum_length: None,
        reliable: None,
        capacity_profile: None,
        no_fragmentation: false,
        no_segmentation: false,
        idempotent: false,
        corruption_protection_length: None,
        message_capacity: None,
    }
}

impl Default for MessageProperties {
    fn default() -> (r: Self)
        ensures
            r == default_message_properties(),
    {
        MessageProperties {
            lifetime: None,
            priority: None,
            ordered: None,
            safely_replayable: false,
            final_message: false,
            checksum_length: None,
            reliable: None,
            capacity_profile: None,
            no_fragmentation: false,
            no_segmentation: false,
            idempotent: false,
            corruption_protection_length: None,
            message_capacity: None,
        }
    }
}

} // verus!

verus! {

/// Transport properties for configuring connections.
#[derive(Debug)]
pub struct TransportProperties {
    pub selection_properties: SelectionProperties,
    pub connection_properties: ConnectionProperties,
    pub message_properties: MessageProperties,
}

/// The mathematical value of a set of transport properties.
pub struct TransportPropertiesView {
    pub selection: SelectionPropertiesView,
    pub connection: ConnectionProperties,
    pub message: MessageProperties,
}

impl View for TransportProperties {
    type V = TransportPropertiesView;

    open spec fn view(&self) -> TransportPropertiesView {
        TransportPropertiesView {
            selection: self.selection_properties@,
            connection: self.connection_properties,
            message: self.message_properties,
        }
    }
}

/// The default transport properties.
pub open spec fn default_transport_properties() -> TransportPropertiesView {
    TransportPropertiesView {
        selection: default_selection(),
        connection: default_connection_properties(),
        message: default_message_properties(),
    }
}

/// The selection properties `s` with one preference-valued property replaced.
pub open spec fn with_preference(s: SelectionPropertiesView, p: TransportProperty, x: Preference) -> SelectionPropertiesView {
    match p {
        TransportProperty::Reliability => SelectionPropertiesView { reliability: x, ..s },
        TransportProperty::PreserveMsgBoundaries => SelectionPropertiesView { preserve_msg_boundaries: x, ..s },
        TransportProperty::PerMsgReliability => SelectionPropertiesView { per_msg_reliability: x, ..s },
        TransportProperty::PreserveOrder => SelectionPropertiesView { preserve_order: x, ..s },
        TransportProperty::ZeroRttMsg => SelectionPropertiesView { zero_rtt_msg: x, ..s },
        TransportProperty::Multistreaming => SelectionPropertiesView { multistreaming: x, ..s },
        TransportProperty::FullChecksumSend => SelectionPropertiesView { full_checksum_send: x, ..s },
        TransportProperty::FullChecksumRecv => SelectionPropertiesView { full_checksum_recv: x, ..s },
        TransportProperty::CongestionControl => SelectionPropertiesView { congestion_control: x, ..s },
        TransportProperty::KeepAlive => SelectionPropertiesView { keep_alive: x, ..s },
        TransportProperty::UseTemporaryLocalAddress => SelectionPropertiesView { use_temporary_local_address: x, ..s },
        TransportProperty::SoftErrorNotify => SelectionPropertiesView { soft_error_notify: x, ..s },
        TransportProperty::ActiveReadBeforeSend => SelectionPropertiesView { active_read_before_send: x, ..s },
        _ => s,
    }
}

/// Whether a property takes a plain preference as its value.
pub open spec fn is_preference_property(p: TransportProperty) -> bool {
    match p {
        TransportProperty::Interface | TransportProperty::Pvd | TransportProperty::Multipath
        | TransportProperty::AdvertisesAltaddr | TransportProperty::Direction
        | TransportProperty::ConnectionTimeout | TransportProperty::KeepAliveTimeout
        | TransportProperty::ConnectionPriority | TransportProperty::MaximumMessageSizeOnSend
        | TransportProperty::MaximumMessageSizeOnReceive => false,
        _ => true,
    }
}

/// `t` with one more interface preference at the end of its list.
pub open spec fn with_interface_preference(t: TransportPropertiesView, name: Seq<char>, x: Preference) -> TransportPropertiesView {
    TransportPropertiesView {
        selection: SelectionPropertiesView { interface: t.selection.interface.push((name, x)), ..t.selection },
        ..t
    }
}

/// `t` with one more provisioning-domain preference at the end of its list.
pub open spec fn with_pvd_preference(t: TransportPropertiesView, name: Seq<char>, x: Preference) -> TransportPropertiesView {
    TransportPropertiesView {
        selection: SelectionPropertiesView { pvd: t.selection.pvd.push((name, x)), ..t.selection },
        ..t
    }
}

/// The transport properties `t` after setting property `p` to `v`: the property is updated
/// when `v` has the kind of value the property takes (interface and PVD preferences are
/// appended to their lists); a value of another kind leaves `t` unchanged.
pub open spec fn with_property(t: TransportPropertiesView, p: TransportProperty, v: PropertyValue) -> TransportPropertiesView {
    match v {
        PropertyValue::Preference(x) => if is_preference_property(p) {
            TransportPropertiesView { selection: with_preference(t.selection, p, x), ..t }
        } else {
            t
        },
        PropertyValue::StringPreference(name, x) => match p {
            TransportProperty::Interface => with_interface_preference(t, name@, x),
            TransportProperty::Pvd => with_pvd_preference(t, name@, x),
            _ => t,
        },
        PropertyValue::Multipath(c) => match p {
            TransportProperty::Multipath => TransportPropertiesView {
                selection: SelectionPropertiesView { multipath: c, ..t.selection },
                ..t
            },
            _ => t,
        },
        PropertyValue::Bool(b) => match p {
            TransportProperty::AdvertisesAltaddr => TransportPropertiesView {
                selection: SelectionPropertiesView { advertises_altaddr: b, ..t.selection },
                ..t
            },
            _ => t,
        },
        PropertyValue::Direction(d) => match p {
            TransportProperty::Direction => TransportPropertiesView {
                selection: SelectionPropertiesView { direction: d, ..t.selection },
                ..t
            },
            _ => t,
        },
        PropertyValue::Duration(d) => match p {
            TransportProperty::ConnectionTimeout => TransportPropertiesView {
                connection: ConnectionProperties { connection_timeout: Some(d), ..t.connection },
                ..t
            },
            TransportProperty::KeepAliveTimeout => TransportPropertiesView {
                connection: ConnectionProperties { keep_alive_timeout: Some(d), ..t.connection },
                ..t
            },
            _ => t,
        },
        PropertyValue::Integer(n) => match p {
            TransportProperty::ConnectionPriority => TransportPropertiesView {
                connection: ConnectionProperties { connection_priority: Some(n), ..t.connection },
                ..t
            },
            _ => t,
        },
        PropertyValue::Size(n) => match p {
            TransportProperty::MaximumMessageSizeOnSend => TransportPropertiesView {
                connection: ConnectionProperties { maximum_message_size_on_send: Some(n), ..t.connection },
                ..t
            },
            TransportProperty::MaximumMessageSizeOnReceive => TransportPropertiesView {
                connection: ConnectionProperties { maximum_message_size_on_receive: Some(n), ..t.connection },
                ..t
            },
            _ => t,
        },
    }
}

/// The value of a preference-valued property in the selection properties `s`; `None` for
/// a property that does not take a plain preference.
pub open spec fn preference_in(s: SelectionPropertiesView, p: TransportProperty) -> Option<Preference> {
    match p {
        TransportProperty::Reliability => Some(s.reliability),
        TransportProperty::PreserveMsgBoundaries => Some(s.preserve_msg_boundaries),
        TransportProperty::PerMsgReliability => Some(s.per_msg_reliability),
        TransportProperty::PreserveOrder => Some(s.preserve_order),
        TransportProperty::ZeroRttMsg => Some(s.zero_rtt_msg),
        TransportProperty::Multistreaming => Some(s.multistreaming),
        TransportProperty::FullChecksumSend => Some(s.full_checksum_send),
        TransportProperty::FullChecksumRecv => Some(s.full_checksum_recv),
        TransportProperty::CongestionControl => Some(s.congestion_control),
        TransportProperty::KeepAlive => Some(s.keep_alive),
        TransportProperty::UseTemporaryLocalAddress => Some(s.use_temporary_local_address),
        TransportProperty::SoftErrorNotify => Some(s.soft_error_notify),
        TransportProperty::ActiveReadBeforeSend => Some(s.active_read_before_send),
        _ => None,
    }
}

/// Law (what a read gives back of a write): after a preference property is set, it holds
/// the preference set, and every other preference property holds what it held before.
pub proof fn lemma_preference_set_then_read(t: TransportPropertiesView, p: TransportProperty, q: TransportProperty, x: Preference)
    requires
        is_preference_property(p),
    ensures
        preference_in(with_property(t, p, PropertyValue::Preference(x)).selection, p) == Some(x),
        q != p ==> preference_in(with_property(t, p, PropertyValue::Preference(x)).selection, q) == preference_in(t.selection, q),
        with_property(t, p, PropertyValue::Preference(x)).connection == t.connection,
        with_property(t, p, PropertyValue::Preference(x)).message == t.message,
{
}

/// Law (setting a selection preference): setting any of the thirteen selection
/// properties that take a preference (reliability, message boundaries, per-message
/// reliability, order, 0-RTT, multistreaming, full checksums on send and on receive,
/// congestion control, keep-alive, temporary local address, soft-error notification,
/// active read before send) to a preference stores that preference in that field and
/// changes nothing else.
pub proof fn lemma_preference_fields(t: TransportPropertiesView, x: Preference)
    ensures
        with_property(t, TransportProperty::Reliability, PropertyValue::Preference(x)) == (TransportPropertiesView {
            selection: SelectionPropertiesView { reliability: x, ..t.selection },
            ..t
        }),
        with_property(t, TransportProperty::PreserveMsgBoundaries, PropertyValue::Preference(x)) == (TransportPropertiesView {
            selection: SelectionPropertiesView { preserve_msg_boundaries: x, ..t.selection },
            ..t
        }),
        with_property(t, TransportProperty::PerMsgReliability, PropertyValue::Preference(x)) == (TransportPropertiesView {
            selection: SelectionPropertiesView { per_msg_reliability: x, ..t.selection },
            ..t
        }),
        with_property(t, TransportProperty::PreserveOrder, PropertyValue::Preference(x)) == (TransportPropertiesView {
            selection: SelectionPropertiesView { preserve_order: x, ..t.selection },
            ..t
        }),
        with_property(t, TransportProperty::ZeroRttMsg, PropertyValue::Preference(x)) == (TransportPropertiesView {
            selection: SelectionPropertiesView { zero_rtt_msg: x, ..t.selection },
            ..t
        }),
        with_property(t, TransportProperty::Multistreaming, PropertyValue::Preference(x)) == (TransportPropertiesView {
            selection: SelectionPropertiesView { multistreaming: x, ..t.selection },
            ..t
        }),
        with_property(t, TransportProperty::FullChecksumSend, PropertyValue::Preference(x)) == (TransportPropertiesView {
            selection: SelectionPropertiesView { full_checksum_send: x, ..t.selection },
            ..t
        }),
        with_property(t, TransportProperty::FullChecksumRecv, PropertyValue::Preference(x)) == (TransportPropertiesView {
            selection: SelectionPropertiesView { full_checksum_recv: x, ..t.selection },
            ..t
        }),
        with_property(t, TransportProperty::CongestionControl, PropertyValue::Preference(x)) == (TransportPropertiesView {
            selection: SelectionPropertiesView { congestion_control: x, ..t.selection },
            ..t
        }),
        with_property(t, TransportProperty::KeepAlive, PropertyValue::Preference(x)) == (TransportPropertiesView {
            selection: SelectionPropertiesView { keep_alive: x, ..t.selection },
            ..t
        }),
        with_property(t, TransportProperty::UseTemporaryLocalAddress, PropertyValue::Preference(x)) == (TransportPropertiesView {
            selection: SelectionPropertiesView { use_temporary_local_address: x, ..t.selection },
            ..t
        }),
        with_property(t, TransportProperty::SoftErrorNotify, PropertyValue::Preference(x)) == (TransportPropertiesView {
            selection: SelectionPropertiesView { soft_error_notify: x, ..t.selection },
            ..t
        }),
        with_property(t, TransportProperty::ActiveReadBeforeSend, PropertyValue::Preference(x)) == (TransportPropertiesView {
            selection: SelectionPropertiesView { active_read_before_send: x, ..t.selection },
            ..t
        }),
{
}

/// Law (setting a property that takes another kind of value): multipath takes a
/// multipath configuration, alternate-address advertising a flag, direction a direction,
/// the two timeouts a duration, priority an integer and the two message-size limits a size;
/// each is stored in its field (the connection values as given) and nothing else changes.
/// An interface or provisioning-domain preference is appended to the end of its list.
pub proof fn lemma_value_fields(
    t: TransportPropertiesView,
    c: MultipathConfig,
    b: bool,
    d: CommunicationDirection,
    dur: Duration,
    n: i32,
    size: usize,
    name: String,
    x: Preference,
)
    ensures
        with_property(t, TransportProperty::Multipath, PropertyValue::Multipath(c)) == (TransportPropertiesView {
            selection: SelectionPropertiesView { multipath: c, ..t.selection },
            ..t
        }),
        with_property(t, TransportProperty::AdvertisesAltaddr, PropertyValue::Bool(b)) == (TransportPropertiesView {
            selection: SelectionPropertiesView { advertises_altaddr: b, ..t.selection },
            ..t
        }),
        with_property(t, TransportProperty::Direction, PropertyValue::Direction(d)) == (TransportPropertiesView {
            selection: SelectionPropertiesView { direction: d, ..t.selection },
            ..t
        }),
        with_property(t, TransportProperty::ConnectionTimeout, PropertyValue::Duration(dur)) == (TransportPropertiesView {
            connection: ConnectionProperties { connection_timeout: Some(dur), ..t.connection },
            ..t
        }),
        with_property(t, TransportProperty::KeepAliveTimeout, PropertyValue::Duration(dur)) == (TransportPropertiesView {
            connection: ConnectionProperties { keep_alive_timeout: Some(dur), ..t.connection },
            ..t
        }),
        with_property(t, TransportProperty::ConnectionPriority, PropertyValue::Integer(n)) == (TransportPropertiesView {
            connection: ConnectionProperties { connection_priority: Some(n), ..t.connection },
            ..t
        }),
        with_property(t, TransportProperty::MaximumMessageSizeOnSend, PropertyValue::Size(size)) == (TransportPropertiesView {
            connection: ConnectionProperties { maximum_message_size_on_send: Some(size), ..t.connection },
            ..t
        }),
        with_property(t, TransportProperty::MaximumMessageSizeOnReceive, PropertyValue::Size(size)) == (TransportPropertiesView {
            connection: ConnectionProperties { maximum_message_size_on_receive: Some(size), ..t.connection },
            ..t
        }),
        with_property(t, TransportProperty::Interface, PropertyValue::StringPreference(name, x)) == (TransportPropertiesView {
            selection: SelectionPropertiesView { interface: t.selection.interface.push((name@, x)), ..t.selection },
            ..t
        }),
        with_property(t, TransportProperty::Pvd, PropertyValue::StringPreference(name, x)) == (TransportPropertiesView {
            selection: SelectionPropertiesView { pvd: t.selection.pvd.push((name@, x)), ..t.selection },
            ..t
        }),
{
}

/// Law: after a preference property is set twice, every preference property reads as it
/// does after setting it the second time alone, and nothing else changed.
pub proof fn lemma_last_set_wins(t: TransportPropertiesView, p: TransportProperty, q: TransportProperty, x: Preference, y: Preference)
    ensures
        ({
            let twice = with_property(with_property(t, p, PropertyValue::Preference(x)), p, PropertyValue::Preference(y));
            let once = with_property(t, p, PropertyValue::Preference(y));
            &&& preference_in(twice.selection, q) == preference_in(once.selection, q)
            &&& twice.connection == once.connection
            &&& twice.message == once.message
        }),
{
    if is_preference_property(p) {
        let first = with_property(t, p, PropertyValue::Preference(x));
        lemma_preference_set_then_read(t, p, q, x);
        lemma_preference_set_then_read(first, p, q, y);
        lemma_preference_set_then_read(t, p, q, y);
    }
}

/// Whether a property holds a list of named preferences (interfaces and provisioning
/// domains) rather than a single value.
pub open spec fn is_list_property(p: TransportProperty) -> bool {
    p == TransportProperty::Interface || p == TransportProperty::Pvd
}

/// Whether `v` is a value of the kind that the single-valued property `p` takes.
pub open spec fn takes_value(p: TransportProperty, v: PropertyValue) -> bool {
    match v {
        PropertyValue::Preference(_) => is_preference_property(p),
        PropertyValue::Multipath(_) => p == TransportProperty::Multipath,
        PropertyValue::Bool(_) => p == TransportProperty::AdvertisesAltaddr,
        PropertyValue::Direction(_) => p == TransportProperty::Direction,
        PropertyValue::Duration(_) => p == TransportProperty::ConnectionTimeout || p == TransportProperty::KeepAliveTimeout,
        PropertyValue::Integer(_) => p == TransportProperty::ConnectionPriority,
        PropertyValue::Size(_) => p == TransportProperty::MaximumMessageSizeOnSend
            || p == TransportProperty::MaximumMessageSizeOnReceive,
        PropertyValue::StringPreference(_, _) => false,
    }
}

/// The value that the single-valued property `p` holds in `t`, written as the value
/// `set` takes for it; `None` for a connection property never given, and for the
/// interface and provisioning-domain lists.
pub open spec fn value_of(t: TransportPropertiesView, p: TransportProperty) -> Option<PropertyValue> {
    match p {
        TransportProperty::Interface | TransportProperty::Pvd => None,
        TransportProperty::Multipath => Some(PropertyValue::Multipath(t.selection.multipath)),
        TransportProperty::AdvertisesAltaddr => Some(PropertyValue::Bool(t.selection.advertises_altaddr)),
        TransportProperty::Direction => Some(PropertyValue::Direction(t.selection.direction)),
        TransportProperty::ConnectionTimeout => match t.connection.connection_timeout {
            Some(d) => Some(PropertyValue::Duration(d)),
            None => None,
        },
        TransportProperty::KeepAliveTimeout => match t.connection.keep_alive_timeout {
            Some(d) => Some(PropertyValue::Duration(d)),
            None => None,
        },
        TransportProperty::ConnectionPriority => match t.connection.connection_priority {
            Some(n) => Some(PropertyValue::Integer(n)),
            None => None,
        },
        TransportProperty::MaximumMessageSizeOnSend => match t.connection.maximum_message_size_on_send {
            Some(n) => Some(PropertyValue::Size(n)),
            None => None,
        },
        TransportProperty::MaximumMessageSizeOnReceive => match t.connection.maximum_message_size_on_receive {
            Some(n) => Some(PropertyValue::Size(n)),
            None => None,
        },
        _ => match preference_in(t.selection, p) {
            Some(x) => Some(PropertyValue::Preference(x)),
            None => None,
        },
    }
}

/// The properties `t` after the writes `ops` (property and value), made in order. Each
/// builder setter and each call of `set` is one such write: their contracts take one step
/// of `with_property`, so a builder chain and the same calls of `set` on the default
/// properties both end in `set_in_order(default_transport_properties(), ops)`.
pub open spec fn set_in_order(t: TransportPropertiesView, ops: Seq<(TransportProperty, PropertyValue)>) -> TransportPropertiesView
    decreases ops.len(),
{
    if ops.len() == 0 {
        t
    } else {
        with_property(set_in_order(t, ops.drop_last()), ops.last().0, ops.last().1)
    }
}

/// Law (one call at a time): making one more write takes the properties reached by the
/// earlier writes one `with_property` step further, the step that each builder setter and
/// each call of `set` states in its contract. So a builder chain started from `builder()`
/// and the same calls of `set` started from `new()` (both the default properties) reach
/// the same properties after every call.
pub proof fn lemma_set_in_order_push(t: TransportPropertiesView, ops: Seq<(TransportProperty, PropertyValue)>, p: TransportProperty, v: PropertyValue)
    ensures
        set_in_order(t, ops.push((p, v))) == with_property(set_in_order(t, ops), p, v),
{
    assert(ops.push((p, v)).drop_last() =~= ops);
}

/// Law (writes compose): making the writes `a` and then the writes `b` is making the
/// writes `a + b`.
pub proof fn lemma_set_in_order_append(t: TransportPropertiesView, a: Seq<(TransportProperty, PropertyValue)>, b: Seq<(TransportProperty, PropertyValue)>)
    ensures
        set_in_order(t, a + b) == set_in_order(set_in_order(t, a), b),
    decreases b.len(),
{
    if b.len() == 0 {
        assert(a + b =~= a);
    } else {
        lemma_set_in_order_append(t, a, b.drop_last());
        assert((a + b).drop_last() =~= a + b.drop_last());
        assert((a + b).last() == b.last());
    }
}

/// The value of the last write in `ops` to the single-valued property `p` with a value
/// of the kind it takes, if any.
pub open spec fn last_write(ops: Seq<(TransportProperty, PropertyValue)>, p: TransportProperty) -> Option<PropertyValue>
    decreases ops.len(),
{
    if ops.len() == 0 {
        None
    } else if ops.last().0 == p && takes_value(p, ops.last().1) {
        Some(ops.last().1)
    } else {
        last_write(ops.drop_last(), p)
    }
}

/// The named preferences written to the list property `p` by `ops`, in order.
pub open spec fn named_writes(ops: Seq<(TransportProperty, PropertyValue)>, p: TransportProperty) -> Seq<(Seq<char>, Preference)>
    decreases ops.len(),
{
    if ops.len() == 0 {
        Seq::empty()
    } else {
        let rest = named_writes(ops.drop_last(), p);
        match ops.last().1 {
            PropertyValue::StringPreference(name, x) => if ops.last().0 == p {
                rest.push((name@, x))
            } else {
                rest
            },
            _ => rest,
        }
    }
}

proof fn lemma_value_after_preference(t: TransportPropertiesView, q: TransportProperty, x: Preference, p: TransportProperty)
    requires
        !is_list_property(p),
    ensures
        value_of(with_property(t, q, PropertyValue::Preference(x)), p) == (if q == p && is_preference_property(p) {
            Some(PropertyValue::Preference(x))
        } else {
            value_of(t, p)
        }),
{
    let after = with_property(t, q, PropertyValue::Preference(x));
    if is_preference_property(q) {
        lemma_preference_set_then_read(t, q, p, x);
        assert(after.connection == t.connection);
        assert(after.selection.multipath == t.selection.multipath);
        assert(after.selection.advertises_altaddr == t.selection.advertises_altaddr);
        assert(after.selection.direction == t.selection.direction);
    } else {
        assert(after == t);
    }
}

proof fn lemma_value_after_selection_value(t: TransportPropertiesView, q: TransportProperty, v: PropertyValue, p: TransportProperty)
    requires
        !is_list_property(p),
        v is Multipath || v is Bool || v is Direction,
    ensures
        value_of(with_property(t, q, v), p) == (if q == p && takes_value(p, v) {
            Some(v)
        } else {
            value_of(t, p)
        }),
{
    let after = with_property(t, q, v);
    assert(after.connection == t.connection);
    assert(preference_in(after.selection, p) == preference_in(t.selection, p));
}

proof fn lemma_value_after_connection_value(t: TransportPropertiesView, q: TransportProperty, v: PropertyValue, p: TransportProperty)
    requires
        !is_list_property(p),
        v is Duration || v is Integer || v is Size,
    ensures
        value_of(with_property(t, q, v), p) == (if q == p && takes_value(p, v) {
            Some(v)
        } else {
            value_of(t, p)
        }),
{
    let after = with_property(t, q, v);
    assert(after.selection == t.selection);
}

proof fn lemma_value_after_named(t: TransportPropertiesView, q: TransportProperty, name: String, x: Preference, p: TransportProperty)
    requires
        !is_list_property(p),
    ensures
        value_of(with_property(t, q, PropertyValue::StringPreference(name, x)), p) == value_of(t, p),
{
    let after = with_property(t, q, PropertyValue::StringPreference(name, x));
    assert(after.connection == t.connection);
    assert(preference_in(after.selection, p) == preference_in(t.selection, p));
    assert(after.selection.multipath == t.selection.multipath);
    assert(after.selection.advertises_altaddr == t.selection.advertises_altaddr);
    assert(after.selection.direction == t.selection.direction);
}

/// One write changes the value of a single-valued property only when it is a write to
/// that property with a value of the kind it takes, and then the property holds it.
proof fn lemma_value_after_write(t: TransportPropertiesView, q: TransportProperty, v: PropertyValue, p: TransportProperty)
    requires
        !is_list_property(p),
    ensures
        value_of(with_property(t, q, v), p) == (if q == p && takes_value(p, v) {
            Some(v)
        } else {
            value_of(t, p)
        }),
{
    match v {
        PropertyValue::Preference(x) => lemma_value_after_preference(t, q, x, p),
        PropertyValue::StringPreference(name, x) => lemma_value_after_named(t, q, name, x, p),
        PropertyValue::Multipath(_) | PropertyValue::Bool(_) | PropertyValue::Direction(_) =>
            lemma_value_after_selection_value(t, q, v, p),
        PropertyValue::Duration(_) | PropertyValue::Integer(_) | PropertyValue::Size(_) =>
            lemma_value_after_connection_value(t, q, v, p),
    }
}

/// Law (a later write wins): after a sequence of writes, a single-valued property holds
/// the value of the last write to it with a value of the kind it takes, or, when there is
/// none, what it held before.
pub proof fn lemma_later_write_wins(t: TransportPropertiesView, ops: Seq<(TransportProperty, PropertyValue)>, p: TransportProperty)
    requires
        !is_list_property(p),
    ensures
        value_of(set_in_order(t, ops), p) == (match last_write(ops, p) {
            Some(v) => Some(v),
            None => value_of(t, p),
        }),
    decreases ops.len(),
{
    if ops.len() > 0 {
        lemma_later_write_wins(t, ops.drop_last(), p);
        lemma_value_after_write(set_in_order(t, ops.drop_last()), ops.last().0, ops.last().1, p);
    }
}

/// Law (named preferences accumulate): after a sequence of writes, the interface and
/// provisioning-domain lists hold what they held before followed by the preferences
/// written to each, in the order of the writes; the message properties are unchanged.
pub proof fn lemma_named_writes_accumulate(t: TransportPropertiesView, ops: Seq<(TransportProperty, PropertyValue)>)
    ensures
        set_in_order(t, ops).selection.interface == t.selection.interface + named_writes(ops, TransportProperty::Interface),
        set_in_order(t, ops).selection.pvd == t.selection.pvd + named_writes(ops, TransportProperty::Pvd),
        set_in_order(t, ops).message == t.message,
    decreases ops.len(),
{
    if ops.len() == 0 {
        assert(t.selection.interface + Seq::<(Seq<char>, Preference)>::empty() =~= t.selection.interface);
        assert(t.selection.pvd + Seq::<(Seq<char>, Preference)>::empty() =~= t.selection.pvd);
    } else {
        let rest = ops.drop_last();
        lemma_named_writes_accumulate(t, rest);
        let before = set_in_order(t, rest);
        match ops.last().1 {
            PropertyValue::StringPreference(name, x) => {
                assert(t.selection.interface + named_writes(rest, TransportProperty::Interface).push((name@, x))
                    =~= (t.selection.interface + named_writes(rest, TransportProperty::Interface)).push((name@, x)));
                assert(t.selection.pvd + named_writes(rest, TransportProperty::Pvd).push((name@, x))
                    =~= (t.selection.pvd + named_writes(rest, TransportProperty::Pvd)).push((name@, x)));
            },
            PropertyValue::Preference(x) => {
                if is_preference_property(ops.last().0) {
                    lemma_preference_set_then_read(before, ops.last().0, ops.last().0, x);
                }
            },
            _ => {},
        }
    }
}

/// Law: transport properties are determined by the values of their single-valued
/// properties, their two lists of named preferences and their message properties.
pub proof fn lemma_properties_determined(a: TransportPropertiesView, b: TransportPropertiesView)
    requires
        forall|p: TransportProperty| !is_list_property(p) ==> #[trigger] value_of(a, p) == value_of(b, p),
        a.selection.interface == b.selection.interface,
        a.selection.pvd == b.selection.pvd,
        a.message == b.message,
    ensures
        a == b,
{
    assert(value_of(a, TransportProperty::Reliability) == value_of(b, TransportProperty::Reliability));
    assert(value_of(a, TransportProperty::PreserveMsgBoundaries) == value_of(b, TransportProperty::PreserveMsgBoundaries));
    assert(value_of(a, TransportProperty::PerMsgReliability) == value_of(b, TransportProperty::PerMsgReliability));
    assert(value_of(a, TransportProperty::PreserveOrder) == value_of(b, TransportProperty::PreserveOrder));
    assert(value_of(a, TransportProperty::ZeroRttMsg) == value_of(b, TransportProperty::ZeroRttMsg));
    assert(value_of(a, TransportProperty::Multistreaming) == value_of(b, TransportProperty::Multistreaming));
    assert(value_of(a, TransportProperty::FullChecksumSend) == value_of(b, TransportProperty::FullChecksumSend));
    assert(value_of(a, TransportProperty::FullChecksumRecv) == value_of(b, TransportProperty::FullChecksumRecv));
    assert(value_of(a, TransportProperty::CongestionControl) == value_of(b, TransportProperty::CongestionControl));
    assert(value_of(a, TransportProperty::KeepAlive) == value_of(b, TransportProperty::KeepAlive));
    assert(value_of(a, TransportProperty::UseTemporaryLocalAddress) == value_of(b, TransportProperty::UseTemporaryLocalAddress));
    assert(value_of(a, TransportProperty::Multipath) == value_of(b, TransportProperty::Multipath));
    assert(value_of(a, TransportProperty::AdvertisesAltaddr) == value_of(b, TransportProperty::AdvertisesAltaddr));
    assert(value_of(a, TransportProperty::Direction) == value_of(b, TransportProperty::Direction));
    assert(value_of(a, TransportProperty::SoftErrorNotify) == value_of(b, TransportProperty::SoftErrorNotify));
    assert(value_of(a, TransportProperty::ActiveReadBeforeSend) == value_of(b, TransportProperty::ActiveReadBeforeSend));
    assert(value_of(a, TransportProperty::ConnectionTimeout) == value_of(b, TransportProperty::ConnectionTimeout));
    assert(value_of(a, TransportProperty::KeepAliveTimeout) == value_of(b, TransportProperty::KeepAliveTimeout));
    assert(value_of(a, TransportProperty::ConnectionPriority) == value_of(b, TransportProperty::ConnectionPriority));
    assert(value_of(a, TransportProperty::MaximumMessageSizeOnSend) == value_of(b, TransportProperty::MaximumMessageSizeOnSend));
    assert(value_of(a, TransportProperty::MaximumMessageSizeOnReceive) == value_of(b, TransportProperty::MaximumMessageSizeOnReceive));
    assert(a.selection == b.selection);
    assert(a.connection == b.connection);
}

impl Default for TransportProperties {
    fn default() -> (r: Self)
        ensures
            r@ == default_transport_properties(),
    {
        TransportProperties {
            selection_properties: SelectionProperties::default(),
            connection_properties: ConnectionProperties::default(),
            message_properties: MessageProperties::default(),
        }
    }
}

impl Clone for TransportProperties {
    fn clone(&self) -> (r: Self)
        ensures
            r@ == self@,
    {
        TransportProperties {
            selection_properties: self.selection_properties.clone(),
            connection_properties: self.connection_properties,
            message_properties: self.message_properties,
        }
    }
}

impl TransportProperties {
    /// Transport properties with default values (RFC 9622 `NewTransportProperties()`).
    pub fn new() -> (r: Self)
        ensures
            r@ == default_transport_properties(),
    {
        Self::default()
    }

    #[verifier::rlimit(60)]
    fn set_preference(&mut self, property: TransportProperty, pref: Preference)
        requires
            is_preference_property(property),
        ensures
            final(self)@ == (TransportPropertiesView {
                selection: with_preference(old(self)@.selection, property, pref),
                ..old(self)@
            }),
    {
        match property {
            TransportProperty::Reliability => self.selection_properties.reliability = pref,
            TransportProperty::PreserveMsgBoundaries => self.selection_properties.preserve_msg_boundaries = pref,
            TransportProperty::PerMsgReliability => self.selection_properties.per_msg_reliability = pref,
            TransportProperty::PreserveOrder => self.selection_properties.preserve_order = pref,
            TransportProperty::ZeroRttMsg => self.selection_properties.zero_rtt_msg = pref,
            TransportProperty::Multistreaming => self.selection_properties.multistreaming = pref,
            TransportProperty::FullChecksumSend => self.selection_properties.full_checksum_send = pref,
            TransportProperty::FullChecksumRecv => self.selection_properties.full_checksum_recv = pref,
            TransportProperty::CongestionControl => self.selection_properties.congestion_control = pref,
            TransportProperty::KeepAlive => self.selection_properties.keep_alive = pref,
            TransportProperty::UseTemporaryLocalAddress => self.selection_properties.use_temporary_local_address = pref,
            TransportProperty::SoftErrorNotify => self.selection_properties.soft_error_notify = pref,
            TransportProperty::ActiveReadBeforeSend => self.selection_properties.active_read_before_send = pref,
            _ => {},
        }
    }

    /// Appends an interface or provisioning-domain preference to its list; any other
    /// property is left as it is.
    fn add_named_preference(&mut self, property: TransportProperty, name: String, pref: Preference)
        ensures
            final(self)@ == with_property(old(self)@, property, PropertyValue::StringPreference(name, pref)),
    {
        match property {
            TransportProperty::Interface => {
                let ghost old_list = self.selection_properties.interface@;
                self.selection_properties.interface.push((name, pref));
                proof { lemma_named_preferences_push(old_list, self.selection_properties.interface@.last()); }
                assert(self.selection_properties.interface@ =~= old_list.push(self.selection_properties.interface@.last()));
            },
            TransportProperty::Pvd => {
                let ghost old_list = self.selection_properties.pvd@;
                self.selection_properties.pvd.push((name, pref));
                proof { lemma_named_preferences_push(old_list, self.selection_properties.pvd@.last()); }
                assert(self.selection_properties.pvd@ =~= old_list.push(self.selection_properties.pvd@.last()));
            },
            _ => {},
        }
    }

    fn set_connection_value(&mut self, property: TransportProperty, value: PropertyValue)
        requires
            value is Duration || value is Integer || value is Size,
        ensures
            final(self)@ == with_property(old(self)@, property, value),
    {
        match value {
            PropertyValue::Duration(d) => {
                match property {
                    TransportProperty::ConnectionTimeout => self.connection_properties.connection_timeout = Some(d),
                    TransportProperty::KeepAliveTimeout => self.connection_properties.keep_alive_timeout = Some(d),
                    _ => {},
                }
            },
            PropertyValue::Integer(n) => {
                if let TransportProperty::ConnectionPriority = property {
                    self.connection_properties.connection_priority = Some(n);
                }
            },
            PropertyValue::Size(n) => {
                match property {
                    TransportProperty::MaximumMessageSizeOnSend => self.connection_properties.maximum_message_size_on_send = Some(n),
                    TransportProperty::MaximumMessageSizeOnReceive => self.connection_properties.maximum_message_size_on_receive = Some(n),
                    _ => {},
                }
            },
            _ => {},
        }
    }

    fn set_selection_value(&mut self, property: TransportProperty, value: PropertyValue)
        requires
            value is Multipath || value is Bool || value is Direction,
        ensures
            final(self)@ == with_property(old(self)@, property, value),
    {
        match value {
            PropertyValue::Multipath(config) => {
                if let TransportProperty::Multipath = property {
                    self.selection_properties.multipath = config;
                }
            },
            PropertyValue::Bool(b) => {
                if let TransportProperty::AdvertisesAltaddr = property {
                    self.selection_properties.advertises_altaddr = b;
                }
            },
            PropertyValue::Direction(d) => {
                if let TransportProperty::Direction = property {
                    self.selection_properties.direction = d;
                }
            },
            _ => {},
        }
    }

    fn apply(&mut self, property: TransportProperty, value: PropertyValue)
        ensures
            final(self)@ == with_property(old(self)@, property, value),
    {
        match value {
            PropertyValue::Preference(pref) => {
                let is_pref = match property {
                    TransportProperty::Interface | TransportProperty::Pvd | TransportProperty::Multipath
                    | TransportProperty::AdvertisesAltaddr | TransportProperty::Direction
                    | TransportProperty::ConnectionTimeout | TransportProperty::KeepAliveTimeout
                    | TransportProperty::ConnectionPriority | TransportProperty::MaximumMessageSizeOnSend
                    | TransportProperty::MaximumMessageSizeOnReceive => false,
                    _ => true,
                };
                if is_pref {
                    self.set_preference(property, pref);
                }
            },
            PropertyValue::StringPreference(name, pref) => self.add_named_preference(property, name, pref),
            PropertyValue::Multipath(_) | PropertyValue::Bool(_) | PropertyValue::Direction(_) =>
                self.set_selection_value(property, value),
            PropertyValue::Duration(_) | PropertyValue::Integer(_) | PropertyValue::Size(_) =>
                self.set_connection_value(property, value),
        }
    }

    /// Sets a property value (RFC 9622 `TransportProperties.Set(property, value)`).
    /// A value of the wrong kind for the property is ignored.
    pub fn set(&mut self, property: TransportProperty, value: PropertyValue) -> (r: &mut Self)
        ensures
            r@ == with_property(old(self)@, property, value),
            *final(self) == *final(r),
    {
        self.apply(property, value);
        self
    }

    /// A builder for transport properties.
    pub fn builder() -> (r: TransportPropertiesBuilder)
        ensures
            r@ == default_transport_properties(),
    {
        TransportPropertiesBuilder::new()
    }
}

/// Builder for transport properties.
pub struct TransportPropertiesBuilder {
    properties: TransportProperties,
}

impl View for TransportPropertiesBuilder {
    type V = TransportPropertiesView;

    closed spec fn view(&self) -> TransportPropertiesView {
        self.properties@
    }
}

impl Default for TransportPropertiesBuilder {
    fn default() -> (r: Self)
        ensures
            r@ == default_transport_properties(),
    {
        TransportPropertiesBuilder::new()
    }
}

impl TransportPropertiesBuilder {
    /// A builder holding the default transport properties.
    pub fn new() -> (r: Self)
        ensures
            r@ == default_transport_properties(),
    {
        TransportPropertiesBuilder { properties: TransportProperties::new() }
    }

    fn with(self, property: TransportProperty, value: PropertyValue) -> (r: Self)
        ensures
            r@ == with_property(self@, property, value),
    {
        let mut b = self;
        b.properties.apply(property, value);
        b
    }

    /// Sets the reliability preference.
    pub fn reliability(self, pref: Preference) -> (r: Self)
        ensures
            r@ == with_property(self@, TransportProperty::Reliability, PropertyValue::Preference(pref)),
    {
        self.with(TransportProperty::Reliability, PropertyValue::Preference(pref))
    }

    /// Sets the preserve-message-boundaries preference.
    pub fn preserve_msg_boundaries(self, pref: Preference) -> (r: Self)
        ensures
            r@ == with_property(self@, TransportProperty::PreserveMsgBoundaries, PropertyValue::Preference(pref)),
    {
        self.with(TransportProperty::PreserveMsgBoundaries, PropertyValue::Preference(pref))
    }

    /// Sets the per-message reliability preference.
    pub fn per_msg_reliability(self, pref: Preference) -> (r: Self)
        ensures
            r@ == with_property(self@, TransportProperty::PerMsgReliability, PropertyValue::Preference(pref)),
    {
        self.with(TransportProperty::PerMsgReliability, PropertyValue::Preference(pref))
    }

    /// Sets the preserve-order preference.
    pub fn preserve_order(self, pref: Preference) -> (r: Self)
        ensures
            r@ == with_property(self@, TransportProperty::PreserveOrder, PropertyValue::Preference(pref)),
    {
        self.with(TransportProperty::PreserveOrder, PropertyValue::Preference(pref))
    }

    /// Sets the zero-RTT message preference.
    pub fn zero_rtt_msg(self, pref: Preference) -> (r: Self)
        ensures
            r@ == with_property(self@, TransportProperty::ZeroRttMsg, PropertyValue::Preference(pref)),
    {
        self.with(TransportProperty::ZeroRttMsg, PropertyValue::Preference(pref))
    }

    /// Sets the multistreaming preference.
    pub fn multistreaming(self, pref: Preference) -> (r: Self)
        ensures
            r@ == with_property(self@, TransportProperty::Multistreaming, PropertyValue::Preference(pref)),
    {
        self.with(TransportProperty::Multistreaming, PropertyValue::Preference(pref))
    }

    /// Sets the full-checksum-on-send preference.
    pub fn full_checksum_send(self, pref: Preference) -> (r: Self)
        ensures
            r@ == with_property(self@, TransportProperty::FullChecksumSend, PropertyValue::Preference(pref)),
    {
        self.with(TransportProperty::FullChecksumSend, PropertyValue::Preference(pref))
    }

    /// Sets the full-checksum-on-receive preference.
    pub fn full_checksum_recv(self, pref: Preference) -> (r: Self)
        ensures
            r@ == with_property(self@, TransportProperty::FullChecksumRecv, PropertyValue::Preference(pref)),
    {
        self.with(TransportProperty::FullChecksumRecv, PropertyValue::Preference(pref))
    }

    /// Sets the congestion control preference.
    pub fn congestion_control(self, pref: Preference) -> (r: Self)
        ensures
            r@ == with_property(self@, TransportProperty::CongestionControl, PropertyValue::Preference(pref)),
    {
        self.with(TransportProperty::CongestionControl, PropertyValue::Preference(pref))
    }

    /// Sets the keep-alive preference.
    pub fn keep_alive(self, pref: Preference) -> (r: Self)
        ensures
            r@ == with_property(self@, TransportProperty::KeepAlive, PropertyValue::Preference(pref)),
    {
        self.with(TransportProperty::KeepAlive, PropertyValue::Preference(pref))
    }

    /// Adds an interface preference.
    pub fn interface(self, iface: &str, pref: Preference) -> (r: Self)
        ensures
            r@ == with_interface_preference(self@, iface@, pref),
    {
        self.with(TransportProperty::Interface, PropertyValue::StringPreference(iface.to_string(), pref))
    }

    /// Adds a provisioning-domain preference.
    pub fn pvd(self, pvd: &str, pref: Preference) -> (r: Self)
        ensures
            r@ == with_pvd_preference(self@, pvd@, pref),
    {
        self.with(TransportProperty::Pvd, PropertyValue::StringPreference(pvd.to_string(), pref))
    }

    /// Sets the use-temporary-local-address preference.
    pub fn use_temporary_local_address(self, pref: Preference) -> (r: Self)
        ensures
            r@ == with_property(self@, TransportProperty::UseTemporaryLocalAddress, PropertyValue::Preference(pref)),
    {
        self.with(TransportProperty::UseTemporaryLocalAddress, PropertyValue::Preference(pref))
    }

    /// Sets the multipath configuration.
    pub fn multipath(self, config: MultipathConfig) -> (r: Self)
        ensures
            r@ == with_property(self@, TransportProperty::Multipath, PropertyValue::Multipath(config)),
    {
        self.with(TransportProperty::Multipath, PropertyValue::Multipath(config))
    }

    /// Sets whether alternative addresses are advertised.
    pub fn advertises_altaddr(self, val: bool) -> (r: Self)
        ensures
            r@ == with_property(self@, TransportProperty::AdvertisesAltaddr, PropertyValue::Bool(val)),
    {
        self.with(TransportProperty::AdvertisesAltaddr, PropertyValue::Bool(val))
    }

    /// Sets the direction of communication.
    pub fn direction(self, dir: CommunicationDirection) -> (r: Self)
        ensures
            r@ == with_property(self@, TransportProperty::Direction, PropertyValue::Direction(dir)),
    {
        self.with(TransportProperty::Direction, PropertyValue::Direction(dir))
    }

    /// Sets the soft-error notification preference.
    pub fn soft_error_notify(self, pref: Preference) -> (r: Self)
        ensures
            r@ == with_property(self@, TransportProperty::SoftErrorNotify, PropertyValue::Preference(pref)),
    {
        self.with(TransportProperty::SoftErrorNotify, PropertyValue::Preference(pref))
    }

    /// Sets the active-read-before-send preference.
    pub fn active_read_before_send(self, pref: Preference) -> (r: Self)
        ensures
            r@ == with_property(self@, TransportProperty::ActiveReadBeforeSend, PropertyValue::Preference(pref)),
    {
        self.with(TransportProperty::ActiveReadBeforeSend, PropertyValue::Preference(pref))
    }

    /// Sets the connection timeout.
    pub fn connection_timeout(self, duration: Duration) -> (r: Self)
        ensures
            r@ == with_property(self@, TransportProperty::ConnectionTimeout, PropertyValue::Duration(duration)),
    {
        self.with(TransportProperty::ConnectionTimeout, PropertyValue::Duration(duration))
    }

    /// Sets the keep-alive timeout.
    pub fn keep_alive_timeout(self, duration: Duration) -> (r: Self)
        ensures
            r@ == with_property(self@, TransportProperty::KeepAliveTimeout, PropertyValue::Duration(duration)),
    {
        self.with(TransportProperty::KeepAliveTimeout, PropertyValue::Duration(duration))
    }

    /// Sets the connection priority.
    pub fn connection_priority(self, priority: i32) -> (r: Self)
        ensures
            r@ == with_property(self@, TransportProperty::ConnectionPriority, PropertyValue::Integer(priority)),
    {
        self.with(TransportProperty::ConnectionPriority, PropertyValue::Integer(priority))
    }

    /// The transport properties built.
    pub fn build(self) -> (r: TransportProperties)
        ensures
            r@ == self@,
    {
        self.properties
    }
}

} // verus!

verus! {

/// Supported security protocols.
#[derive(Debug, Clone, Copy, PartialEq, Eq, Structural)]
pub enum SecurityProtocol {
    TLS12,
    TLS13,
    DTLS12,
    DTLS13,
}

/// A certificate, held as its encoded bytes.
#[derive(Debug)]
pub struct Certificate {
    pub data: Vec<u8>,
}

impl Clone for Certificate {
    fn clone(&self) -> (r: Self)
        ensures
            r.data@ == self.data@,
    {
        Certificate { data: vstd::slice::slice_to_vec(self.data.as_slice()) }
    }
}

/// A certificate chain.
#[derive(Debug)]
pub struct CertificateChain {
    pub certificates: Vec<Certificate>,
}

/// Two lists of certificates hold the same certificates, in the same order.
pub open spec fn same_certificates(a: Seq<Certificate>, b: Seq<Certificate>) -> bool {
    a.len() == b.len() && forall|i: int| 0 <= i < a.len() ==> (#[trigger] a[i]).data@ == b[i].data@
}

fn clone_certificates(v: &Vec<Certificate>) -> (r: Vec<Certificate>)
    ensures
        same_certificates(r@, v@),
{
    let mut r: Vec<Certificate> = Vec::new();
    let mut i: usize = 0;
    while i < v.len()
        invariant
            i <= v.len(),
            r@.len() == i,
            forall|j: int| 0 <= j < i ==> (#[trigger] r@[j]).data@ == v@[j].data@,
        decreases v.len() - i,
    {
        r.push(v[i].clone());
        i += 1;
    }
    r
}

impl Clone for CertificateChain {
    fn clone(&self) -> (r: Self)
        ensures
            same_certificates(r.certificates@, self.certificates@),
    {
        CertificateChain { certificates: clone_certificates(&self.certificates) }
    }
}

/// A pre-shared key and its identity.
#[derive(Debug)]
pub struct PreSharedKey {
    pub key: Vec<u8>,
    pub identity: String,
}

impl Clone for PreSharedKey {
    fn clone(&self) -> (r: Self)
        ensures
            r.key@ == self.key@,
            r.identity == self.identity,
    {
        PreSharedKey { key: vstd::slice::slice_to_vec(self.key.as_slice()), identity: self.identity.clone() }
    }
}

/// A trust-verification callback: decides whether a certificate chain is trusted.
pub trait TrustVerificationCallback: Send + Sync {
    /// Whether this callback may answer `r` for `chain`.
    spec fn verdict(&self, chain: &CertificateChain, r: bool) -> bool;

    /// Whether the chain is trusted.
    fn verify(&self, chain: &CertificateChain) -> (r: bool)
        ensures
            self.verdict(chain, r),
    ;
}

/// An identity-challenge callback: answers a challenge with a response.
pub trait IdentityChallengeCallback: Send + Sync {
    /// Whether this callback may answer `r` to `challenge`.
    spec fn answer(&self, challenge: &[u8], r: Vec<u8>) -> bool;

    /// The response to a challenge.
    fn respond(&self, challenge: &[u8]) -> (r: Vec<u8>)
        ensures
            self.answer(challenge, r),
    ;
}

/// A trust-verification callback made from a closure that accepts every chain.
pub struct TrustVerificationFn<F: Fn(&CertificateChain) -> bool> {
    f: F,
}

impl<F: Fn(&CertificateChain) -> bool> TrustVerificationFn<F> {
    #[verifier::type_invariant]
    spec fn callable(self) -> bool {
        forall|c: &CertificateChain| self.f.requires((c,))
    }

    /// The closure that decides.
    pub closed spec fn closure(self) -> F {
        self.f
    }
}

impl<F: Fn(&CertificateChain) -> bool + Send + Sync> TrustVerificationCallback for TrustVerificationFn<F> {
    /// The closure may answer `r` for the chain.
    open spec fn verdict(&self, chain: &CertificateChain, r: bool) -> bool {
        self.closure().ensures((chain,), r)
    }

    /// What the closure says of the chain.
    fn verify(&self, chain: &CertificateChain) -> (r: bool)
        ensures
            self.closure().ensures((chain,), r),
    {
        proof { use_type_invariant(self); }
        (self.f)(chain)
    }
}

/// An identity-challenge callback made from a closure that accepts every challenge.
pub struct IdentityChallengeFn<F: Fn(&[u8]) -> Vec<u8>> {
    f: F,
}

impl<F: Fn(&[u8]) -> Vec<u8>> IdentityChallengeFn<F> {
    #[verifier::type_invariant]
    spec fn callable(self) -> bool {
        forall|c: &[u8]| self.f.requires((c,))
    }

    /// The closure that answers.
    pub closed spec fn closure(self) -> F {
        self.f
    }
}

impl<F: Fn(&[u8]) -> Vec<u8> + Send + Sync> IdentityChallengeCallback for IdentityChallengeFn<F> {
    /// The closure may answer `r` to the challenge.
    open spec fn answer(&self, challenge: &[u8], r: Vec<u8>) -> bool {
        self.closure().ensures((challenge,), r)
    }

    /// What the closure answers to the challenge.
    fn respond(&self, challenge: &[u8]) -> (r: Vec<u8>)
        ensures
            self.closure().ensures((challenge,), r),
    {
        proof { use_type_invariant(self); }
        (self.f)(challenge)
    }
}

/// Security parameters for connections (RFC 9622 Section 6.3).
pub struct SecurityParameters {
    pub disabled: bool,
    pub opportunistic: bool,
    pub allowed_protocols: Vec<SecurityProtocol>,
    pub server_certificate: Vec<Certificate>,
    pub client_certificate: Vec<Certificate>,
    pub pinned_server_certificate: Vec<CertificateChain>,
    pub alpn: Vec<String>,
    pub supported_groups: Vec<String>,
    pub ciphersuites: Vec<String>,
    pub signature_algorithms: Vec<String>,
    pub max_cached_sessions: Option<usize>,
    pub cached_session_lifetime_seconds: Option<u64>,
    pub pre_shared_key: Option<PreSharedKey>,
    pub trust_verification_callback: Option<Box<dyn TrustVerificationCallback>>,
    pub identity_challenge_callback: Option<Box<dyn IdentityChallengeCallback>>,
}

/// Security parameters: all secure defaults (TLS 1.3 and TLS 1.2 allowed, nothing else set),
/// except for the two flags given.
pub open spec fn default_security(p: SecurityParameters, disabled: bool, opportunistic: bool) -> bool {
    &&& p.disabled == disabled
    &&& p.opportunistic == opportunistic
    &&& p.allowed_protocols@ == seq![SecurityProtocol::TLS13, SecurityProtocol::TLS12]
    &&& p.server_certificate@.len() == 0
    &&& p.client_certificate@.len() == 0
    &&& p.pinned_server_certificate@.len() == 0
    &&& p.alpn@.len() == 0
    &&& p.supported_groups@.len() == 0
    &&& p.ciphersuites@.len() == 0
    &&& p.signature_algorithms@.len() == 0
    &&& p.max_cached_sessions is None
    &&& p.cached_session_lifetime_seconds is None
    &&& p.pre_shared_key is None
    &&& p.trust_verification_callback is None
    &&& p.identity_challenge_callback is None
}

/// Enumeration of security parameters.
#[derive(Debug, Clone, Copy, PartialEq, Eq, Structural)]
pub enum SecurityParameter {
    Disabled,
    Opportunistic,
    AllowedProtocols,
    ServerCertificate,
    ClientCertificate,
    PinnedServerCertificate,
    Alpn,
    SupportedGroups,
    Ciphersuites,
    SignatureAlgorithms,
    MaxCachedSessions,
    CachedSessionLifetimeSeconds,
    PreSharedKey,
}

/// Values that can be assigned to security parameters.
#[derive(Debug, Clone)]
pub enum SecurityParameterValue {
    Bool(bool),
    Protocols(Vec<SecurityProtocol>),
    Certificates(Vec<Certificate>),
    CertificateChains(Vec<CertificateChain>),
    Strings(Vec<String>),
    Size(usize),
    U64(u64),
    Psk(PreSharedKey),
}

/// The security parameters `p` after setting `param` to `v`: the parameter takes the value
/// when `v` has the kind of value the parameter takes; otherwise `p` is unchanged.
pub open spec fn with_parameter(p: SecurityParameters, param: SecurityParameter, v: SecurityParameterValue) -> SecurityParameters {
    match (param, v) {
        (SecurityParameter::Disabled, SecurityParameterValue::Bool(b)) => SecurityParameters { disabled: b, ..p },
        (SecurityParameter::Opportunistic, SecurityParameterValue::Bool(b)) => SecurityParameters { opportunistic: b, ..p },
        (SecurityParameter::AllowedProtocols, SecurityParameterValue::Protocols(x)) => SecurityParameters { allowed_protocols: x, ..p },
        (SecurityParameter::ServerCertificate, SecurityParameterValue::Certificates(x)) => SecurityParameters { server_certificate: x, ..p },
        (SecurityParameter::ClientCertificate, SecurityParameterValue::Certificates(x)) => SecurityParameters { client_certificate: x, ..p },
        (SecurityParameter::PinnedServerCertificate, SecurityParameterValue::CertificateChains(x)) => SecurityParameters { pinned_server_certificate: x, ..p },
        (SecurityParameter::Alpn, SecurityParameterValue::Strings(x)) => SecurityParameters { alpn: x, ..p },
        (SecurityParameter::SupportedGroups, SecurityParameterValue::Strings(x)) => SecurityParameters { supported_groups: x, ..p },
        (SecurityParameter::Ciphersuites, SecurityParameterValue::Strings(x)) => SecurityParameters { ciphersuites: x, ..p },
        (SecurityParameter::SignatureAlgorithms, SecurityParameterValue::Strings(x)) => SecurityParameters { signature_algorithms: x, ..p },
        (SecurityParameter::MaxCachedSessions, SecurityParameterValue::Size(n)) => SecurityParameters { max_cached_sessions: Some(n), ..p },
        (SecurityParameter::CachedSessionLifetimeSeconds, SecurityParameterValue::U64(n)) => SecurityParameters { cached_session_lifetime_seconds: Some(n), ..p },
        (SecurityParameter::PreSharedKey, SecurityParameterValue::Psk(k)) => SecurityParameters { pre_shared_key: Some(k), ..p },
        _ => p,
    }
}

fn default_security_parameters(disabled: bool, opportunistic: bool) -> (r: SecurityParameters)
    ensures
        default_security(r, disabled, opportunistic),
{
    let mut protocols: Vec<SecurityProtocol> = Vec::new();
    protocols.push(SecurityProtocol::TLS13);
    protocols.push(SecurityProtocol::TLS12);
    assert(protocols@ =~= seq![SecurityProtocol::TLS13, SecurityProtocol::TLS12]);
    SecurityParameters {
        disabled,
        opportunistic,
        allowed_protocols: protocols,
        server_certificate: Vec::new(),
        client_certificate: Vec::new(),
        pinned_server_certificate: Vec::new(),
        alpn: Vec::new(),
        supported_groups: Vec::new(),
        ciphersuites: Vec::new(),
        signature_algorithms: Vec::new(),
        max_cached_sessions: None,
        cached_session_lifetime_seconds: None,
        pre_shared_key: None,
        trust_verification_callback: None,
        identity_challenge_callback: None,
    }
}

/// Law (setting a security parameter): setting a parameter to a value of the kind it
/// takes (a flag for `disabled` and `opportunistic`, protocols, certificates, pinned
/// chains, names for ALPN, groups, ciphersuites and signature algorithms, a count, a
/// lifetime in seconds, a pre-shared key) stores that value in that parameter and
/// changes nothing else.
pub proof fn lemma_parameter_fields(p: SecurityParameters, b: bool, protocols: Vec<SecurityProtocol>, certs: Vec<Certificate>, chains: Vec<CertificateChain>, names: Vec<String>, n: usize, secs: u64, key: PreSharedKey)
    ensures
        with_parameter(p, SecurityParameter::Disabled, SecurityParameterValue::Bool(b)) == (SecurityParameters { disabled: b, ..p }),
        with_parameter(p, SecurityParameter::Opportunistic, SecurityParameterValue::Bool(b)) == (SecurityParameters { opportunistic: b, ..p }),
        with_parameter(p, SecurityParameter::AllowedProtocols, SecurityParameterValue::Protocols(protocols)) == (SecurityParameters { allowed_protocols: protocols, ..p }),
        with_parameter(p, SecurityParameter::ServerCertificate, SecurityParameterValue::Certificates(certs)) == (SecurityParameters { server_certificate: certs, ..p }),
        with_parameter(p, SecurityParameter::ClientCertificate, SecurityParameterValue::Certificates(certs)) == (SecurityParameters { client_certificate: certs, ..p }),
        with_parameter(p, SecurityParameter::PinnedServerCertificate, SecurityParameterValue::CertificateChains(chains)) == (SecurityParameters { pinned_server_certificate: chains, ..p }),
        with_parameter(p, SecurityParameter::Alpn, SecurityParameterValue::Strings(names)) == (SecurityParameters { alpn: names, ..p }),
        with_parameter(p, SecurityParameter::SupportedGroups, SecurityParameterValue::Strings(names)) == (SecurityParameters { supported_groups: names, ..p }),
        with_parameter(p, SecurityParameter::Ciphersuites, SecurityParameterValue::Strings(names)) == (SecurityParameters { ciphersuites: names, ..p }),
        with_parameter(p, SecurityParameter::SignatureAlgorithms, SecurityParameterValue::Strings(names)) == (SecurityParameters { signature_algorithms: names, ..p }),
        with_parameter(p, SecurityParameter::MaxCachedSessions, SecurityParameterValue::Size(n)) == (SecurityParameters { max_cached_sessions: Some(n), ..p }),
        with_parameter(p, SecurityParameter::CachedSessionLifetimeSeconds, SecurityParameterValue::U64(secs)) == (SecurityParameters { cached_session_lifetime_seconds: Some(secs), ..p }),
        with_parameter(p, SecurityParameter::PreSharedKey, SecurityParameterValue::Psk(key)) == (SecurityParameters { pre_shared_key: Some(key), ..p }),
{
}

impl Default for SecurityParameters {
    fn default() -> (r: Self)
        ensures
            default_security(r, false, false),
    {
        default_security_parameters(false, false)
    }
}

fn clone_strings(v: &Vec<String>) -> (r: Vec<String>)
    ensures
        r@ == v@,
{
    let r = v.clone();
    assert(r@ =~= v@);
    r
}

fn clone_chains(v: &Vec<CertificateChain>) -> (r: Vec<CertificateChain>)
    ensures
        r@.len() == v@.len(),
        forall|i: int| 0 <= i < v@.len() ==> same_certificates((#[trigger] r@[i]).certificates@, v@[i].certificates@),
{
    let mut r: Vec<CertificateChain> = Vec::new();
    let mut i: usize = 0;
    while i < v.len()
        invariant
            i <= v.len(),
            r@.len() == i,
            forall|j: int| 0 <= j < i ==> same_certificates((#[trigger] r@[j]).certificates@, v@[j].certificates@),
        decreases v.len() - i,
    {
        r.push(v[i].clone());
        i += 1;
    }
    r
}

impl Clone for SecurityParameters {
    /// A copy of the parameters; callbacks are not copied.
    fn clone(&self) -> (r: Self)
        ensures
            r.disabled == self.disabled,
            r.opportunistic == self.opportunistic,
            r.allowed_protocols@ == self.allowed_protocols@,
            same_certificates(r.server_certificate@, self.server_certificate@),
            same_certificates(r.client_certificate@, self.client_certificate@),
            r.pinned_server_certificate@.len() == self.pinned_server_certificate@.len(),
            forall|i: int| 0 <= i < self.pinned_server_certificate@.len() ==> same_certificates(
                (#[trigger] r.pinned_server_certificate@[i]).certificates@,
                self.pinned_server_certificate@[i].certificates@,
            ),
            r.alpn@ == self.alpn@,
            r.supported_groups@ == self.supported_groups@,
            r.ciphersuites@ == self.ciphersuites@,
            r.signature_algorithms@ == self.signature_algorithms@,
            r.max_cached_sessions == self.max_cached_sessions,
            r.cached_session_lifetime_seconds == self.cached_session_lifetime_seconds,
            r.pre_shared_key is Some == self.pre_shared_key is Some,
            self.pre_shared_key matches Some(k) ==> (r.pre_shared_key matches Some(c) && c.key@ == k.key@
                && c.identity == k.identity),
            r.trust_verification_callback is None,
            r.identity_challenge_callback is None,
    {
        let protocols = vstd::slice::slice_to_vec(self.allowed_protocols.as_slice());
        let psk = match &self.pre_shared_key {
            Some(k) => Some(k.clone()),
            None => None,
        };
        SecurityParameters {
            disabled: self.disabled,
            opportunistic: self.opportunistic,
            allowed_protocols: protocols,
            server_certificate: clone_certificates(&self.server_certificate),
            client_certificate: clone_certificates(&self.client_certificate),
            pinned_server_certificate: clone_chains(&self.pinned_server_certificate),
            alpn: clone_strings(&self.alpn),
            supported_groups: clone_strings(&self.supported_groups),
            ciphersuites: clone_strings(&self.ciphersuites),
            signature_algorithms: clone_strings(&self.signature_algorithms),
            max_cached_sessions: self.max_cached_sessions,
            cached_session_lifetime_seconds: self.cached_session_lifetime_seconds,
            pre_shared_key: psk,
            trust_verification_callback: None,
            identity_challenge_callback: None,
        }
    }
}

impl SecurityParameters {
    /// Security parameters with secure defaults (RFC 9622 `NewSecurityParameters()`).
    pub fn new() -> (r: Self)
        ensures
            default_security(r, false, false),
    {
        default_security_parameters(false, false)
    }

    /// Security disabled (RFC 9622 `NewDisabledSecurityParameters()`).
    pub fn new_disabled() -> (r: Self)
        ensures
            default_security(r, true, false),
    {
        default_security_parameters(true, false)
    }

    /// Opportunistic security (RFC 9622 `NewOpportunisticSecurityParameters()`).
    pub fn new_opportunistic() -> (r: Self)
        ensures
            default_security(r, false, true),
    {
        default_security_parameters(false, true)
    }

    fn apply(&mut self, parameter: SecurityParameter, value: SecurityParameterValue)
        ensures
            *final(self) == with_parameter(*old(self), parameter, value),
    {
        match (parameter, value) {
            (SecurityParameter::Disabled, SecurityParameterValue::Bool(b)) => self.disabled = b,
            (SecurityParameter::Opportunistic, SecurityParameterValue::Bool(b)) => self.opportunistic = b,
            (SecurityParameter::AllowedProtocols, SecurityParameterValue::Protocols(x)) => self.allowed_protocols = x,
            (SecurityParameter::ServerCertificate, SecurityParameterValue::Certificates(x)) => self.server_certificate = x,
            (SecurityParameter::ClientCertificate, SecurityParameterValue::Certificates(x)) => self.client_certificate = x,
            (SecurityParameter::PinnedServerCertificate, SecurityParameterValue::CertificateChains(x)) => self.pinned_server_certificate = x,
            (SecurityParameter::Alpn, SecurityParameterValue::Strings(x)) => self.alpn = x,
            (SecurityParameter::SupportedGroups, SecurityParameterValue::Strings(x)) => self.supported_groups = x,
            (SecurityParameter::Ciphersuites, SecurityParameterValue::Strings(x)) => self.ciphersuites = x,
            (SecurityParameter::SignatureAlgorithms, SecurityParameterValue::Strings(x)) => self.signature_algorithms = x,
            (SecurityParameter::MaxCachedSessions, SecurityParameterValue::Size(n)) => self.max_cached_sessions = Some(n),
            (SecurityParameter::CachedSessionLifetimeSeconds, SecurityParameterValue::U64(n)) => self.cached_session_lifetime_seconds = Some(n),
            (SecurityParameter::PreSharedKey, SecurityParameterValue::Psk(k)) => self.pre_shared_key = Some(k),
            _ => {},
        }
    }

    /// Sets a security parameter (RFC 9622 `SecurityParameters.Set(property, value)`).
    /// A value of the wrong kind for the parameter is ignored.
    pub fn set(&mut self, parameter: SecurityParameter, value: SecurityParameterValue) -> (r: &mut Self)
        ensures
            *r == with_parameter(*old(self), parameter, value),
            *final(self) == *final(r),
    {
        self.apply(parameter, value);
        self
    }

    /// Sets the trust-verification callback.
    pub fn set_trust_verification_callback<F>(&mut self, callback: F) -> (r: &mut Self)
        where F: Fn(&CertificateChain) -> bool + Send + Sync + 'static,
        requires
            forall|c: &CertificateChain| callback.requires((c,)),
        ensures
            r.trust_verification_callback is Some,
            forall|c: &CertificateChain, b: bool| #[trigger] r.trust_verification_callback->0.verdict(c, b)
                == callback.ensures((c,), b),
            *r == (SecurityParameters { trust_verification_callback: r.trust_verification_callback, ..*old(self) }),
            *final(self) == *final(r),
    {
        self.trust_verification_callback = Some(Box::new(TrustVerificationFn { f: callback }));
        self
    }

    /// Sets the identity-challenge callback.
    pub fn set_identity_challenge_callback<F>(&mut self, callback: F) -> (r: &mut Self)
        where F: Fn(&[u8]) -> Vec<u8> + Send + Sync + 'static,
        requires
            forall|c: &[u8]| callback.requires((c,)),
        ensures
            r.identity_challenge_callback is Some,
            forall|c: &[u8], v: Vec<u8>| #[trigger] r.identity_challenge_callback->0.answer(c, v)
                == callback.ensures((c,), v),
            *r == (SecurityParameters { identity_challenge_callback: r.identity_challenge_callback, ..*old(self) }),
            *final(self) == *final(r),
    {
        self.identity_challenge_callback = Some(Box::new(IdentityChallengeFn { f: callback }));
        self
    }
}

/// Connection state.
#[derive(Debug, Clone, Copy, PartialEq, Eq, Structural)]
pub enum ConnectionState {
    Establishing,
    Established,
    Closing,
    Closed,
}

/// Events that connections emit.
#[derive(Debug, Clone)]
pub enum ConnectionEvent {
    Ready,
    EstablishmentError(String),
    ConnectionError(String),
    PathChange,
    SoftError(String),
    Closed,
    /// A message was sent.
    Sent { message_id: Option<u64> },
    /// A message expired before it could be sent.
    Expired { message_id: Option<u64> },
    /// Sending a message failed.
    SendError { message_id: Option<u64>, error: String },
    /// A complete message was received.
    Received { message_data: Vec<u8>, message_context: MessageContext },
    /// Part of a message was received.
    ReceivedPartial { message_data: Vec<u8>, message_context: MessageContext, end_of_message: bool },
    /// Receiving failed.
    ReceiveError { error: String },
}

/// Events emitted during rendezvous.
#[derive(Debug, Clone)]
pub enum RendezvousEvent {
    /// Rendezvous completed: a connection is established.
    RendezvousDone,
    /// Rendezvous failed.
    EstablishmentError(String),
}

} // verus!
