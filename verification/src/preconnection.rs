//! Preconnection (RFC 9622 Section 6): the endpoints, transport properties and security
//! parameters from which connections and listeners are made.

use vstd::prelude::*;
use vstd::string::StringExecFns;
use crate::connection::{local_ids, remote_ids, Connection, ConnectionView, SendStep};
use crate::error::{Result, TapsError};
use crate::listener::{Listener, ListenerView};
use crate::message::Message;
use crate::types::{
    default_security, default_transport_properties, ConnectionState, EndpointIdentifier, IpAddress,
    LocalEndpoint, Protocol, RemoteEndpoint, SecurityParameters, SocketAddress, TransportProperties,
    TransportPropertiesView,
};

verus! {

/// A Preconnection: a potential connection, described by its endpoints and properties.
pub struct Preconnection {
    local_endpoints: Vec<LocalEndpoint>,
    remote_endpoints: Vec<RemoteEndpoint>,
    transport_properties: TransportProperties,
    security_parameters: std::sync::Arc<SecurityParameters>,
}

/// The identifiers of each local endpoint.
pub open spec fn locals_view(s: Seq<LocalEndpoint>) -> Seq<Seq<EndpointIdentifier>> {
    s.map_values(|e: LocalEndpoint| e.identifiers@)
}

/// The identifiers and protocol of each remote endpoint.
pub open spec fn remotes_view(s: Seq<RemoteEndpoint>) -> Seq<(Seq<EndpointIdentifier>, Option<Protocol>)> {
    s.map_values(|e: RemoteEndpoint| (e.identifiers@, e.protocol))
}

/// The mathematical value of a preconnection (its security parameters aside).
pub struct PreconnectionView {
    pub locals: Seq<Seq<EndpointIdentifier>>,
    pub remotes: Seq<(Seq<EndpointIdentifier>, Option<Protocol>)>,
    pub transport: TransportPropertiesView,
}

impl View for Preconnection {
    type V = PreconnectionView;

    closed spec fn view(&self) -> PreconnectionView {
        PreconnectionView {
            locals: locals_view(self.local_endpoints@),
            remotes: remotes_view(self.remote_endpoints@),
            transport: self.transport_properties@,
        }
    }
}

fn clone_locals(v: &Vec<LocalEndpoint>) -> (r: Vec<LocalEndpoint>)
    ensures
        locals_view(r@) == locals_view(v@),
{
    let mut r: Vec<LocalEndpoint> = Vec::new();
    let mut i: usize = 0;
    while i < v.len()
        invariant
            i <= v@.len(),
            r@.len() == i,
            forall|j: int| 0 <= j < i ==> (#[trigger] r@[j]).identifiers@ == v@[j].identifiers@,
        decreases v@.len() - i,
    {
        r.push(v[i].clone());
        i += 1;
    }
    assert(locals_view(r@) =~= locals_view(v@));
    r
}

fn clone_remotes(v: &Vec<RemoteEndpoint>) -> (r: Vec<RemoteEndpoint>)
    ensures
        remotes_view(r@) == remotes_view(v@),
{
    let mut r: Vec<RemoteEndpoint> = Vec::new();
    let mut i: usize = 0;
    while i < v.len()
        invariant
            i <= v@.len(),
            r@.len() == i,
            forall|j: int| 0 <= j < i ==> (#[trigger] r@[j]).identifiers@ == v@[j].identifiers@
                && r@[j].protocol == v@[j].protocol,
        decreases v@.len() - i,
    {
        r.push(v[i].clone());
        i += 1;
    }
    assert(remotes_view(r@) =~= remotes_view(v@));
    r
}

/// A connection made by Initiate: establishing, to the first remote endpoint, from the
/// first local endpoint if there is one, with the preconnection's transport properties.
pub open spec fn initiated(p: PreconnectionView, c: ConnectionView) -> bool {
    &&& c.state == ConnectionState::Establishing
    &&& c.remote_endpoint == Some(p.remotes[0])
    &&& c.local_endpoint == (if p.locals.len() > 0 { Some(p.locals[0]) } else { None::<Seq<EndpointIdentifier>> })
    &&& c.transport == p.transport
    &&& !c.has_stream
    &&& c.pending == Seq::<crate::message::MessageView>::empty()
    &&& c.group is None
    &&& !c.batch_mode
    &&& c.batched == Seq::<crate::message::MessageView>::empty()
    &&& c.next_message_id == 1
    &&& c.framer_count == 0
    &&& c.receive_buffer == Seq::<u8>::empty()
    &&& c.properties == crate::connection_properties::default_properties()
    &&& !c.final_sent
    &&& !c.final_received
}

impl Clone for Preconnection {
    /// A copy of the endpoints and transport properties, sharing the security parameters
    /// (callbacks included).
    fn clone(&self) -> (r: Self)
        ensures
            r@ == self@,
            r.security() == self.security(),
    {
        Preconnection {
            local_endpoints: clone_locals(&self.local_endpoints),
            remote_endpoints: clone_remotes(&self.remote_endpoints),
            transport_properties: self.transport_properties.clone(),
            security_parameters: std::sync::Arc::clone(&self.security_parameters),
        }
    }
}

impl Preconnection {
    /// The security parameters.
    pub closed spec fn security(&self) -> SecurityParameters {
        *self.security_parameters
    }

    /// A preconnection from its parts.
    pub fn new(
        local_endpoints: Vec<LocalEndpoint>,
        remote_endpoints: Vec<RemoteEndpoint>,
        transport_properties: TransportProperties,
        security_parameters: SecurityParameters,
    ) -> (r: Self)
        ensures
            r@.locals == locals_view(local_endpoints@),
            r@.remotes == remotes_view(remote_endpoints@),
            r@.transport == transport_properties@,
            r.security() == security_parameters,
    {
        Preconnection {
            local_endpoints,
            remote_endpoints,
            transport_properties,
            security_parameters: std::sync::Arc::new(security_parameters),
        }
    }

    /// A preconnection with one local endpoint and default properties.
    pub fn with_local_endpoint(local: LocalEndpoint) -> (r: Self)
        ensures
            r@.locals == seq![local.identifiers@],
            r@.remotes == Seq::<(Seq<EndpointIdentifier>, Option<Protocol>)>::empty(),
            r@.transport == default_transport_properties(),
            default_security(r.security(), false, false),
    {
        let mut locals: Vec<LocalEndpoint> = Vec::new();
        locals.push(local);
        let r = Self::new(locals, Vec::new(), TransportProperties::default(), SecurityParameters::default());
        assert(r@.locals =~= seq![local.identifiers@]);
        assert(r@.remotes =~= Seq::<(Seq<EndpointIdentifier>, Option<Protocol>)>::empty());
        r
    }

    /// A preconnection with one remote endpoint and default properties.
    pub fn with_remote_endpoint(remote: RemoteEndpoint) -> (r: Self)
        ensures
            r@.locals == Seq::<Seq<EndpointIdentifier>>::empty(),
            r@.remotes == seq![(remote.identifiers@, remote.protocol)],
            r@.transport == default_transport_properties(),
            default_security(r.security(), false, false),
    {
        let mut remotes: Vec<RemoteEndpoint> = Vec::new();
        remotes.push(remote);
        let r = Self::new(Vec::new(), remotes, TransportProperties::default(), SecurityParameters::default());
        assert(r@.locals =~= Seq::<Seq<EndpointIdentifier>>::empty());
        assert(r@.remotes =~= seq![(remote.identifiers@, remote.protocol)]);
        r
    }

    /// Adds a local endpoint.
    pub fn add_local(&mut self, endpoint: LocalEndpoint)
        ensures
            final(self)@ == (PreconnectionView { locals: old(self)@.locals.push(endpoint.identifiers@), ..old(self)@ }),
            final(self).security() == old(self).security(),
    {
        let ghost old_locals = self.local_endpoints@;
        self.local_endpoints.push(endpoint);
        assert(locals_view(self.local_endpoints@) =~= locals_view(old_locals).push(endpoint.identifiers@));
    }

    /// Adds a remote endpoint.
    pub fn add_remote(&mut self, endpoint: RemoteEndpoint)
        ensures
            final(self)@ == (PreconnectionView {
                remotes: old(self)@.remotes.push((endpoint.identifiers@, endpoint.protocol)),
                ..old(self)@
            }),
            final(self).security() == old(self).security(),
    {
        let ghost old_remotes = self.remote_endpoints@;
        self.remote_endpoints.push(endpoint);
        assert(remotes_view(self.remote_endpoints@) =~= remotes_view(old_remotes).push((endpoint.identifiers@, endpoint.protocol)));
    }

    /// Replaces the transport properties.
    pub fn set_transport_properties(&mut self, properties: TransportProperties)
        ensures
            final(self)@ == (PreconnectionView { transport: properties@, ..old(self)@ }),
            final(self).security() == old(self).security(),
    {
        self.transport_properties = properties;
    }

    /// Replaces the security parameters.
    pub fn set_security_parameters(&mut self, parameters: SecurityParameters)
        ensures
            final(self)@ == old(self)@,
            final(self).security() == parameters,
    {
        self.security_parameters = std::sync::Arc::new(parameters);
    }

    /// The transport properties.
    pub fn transport_properties(&self) -> (r: TransportProperties)
        ensures
            r@ == self@.transport,
    {
        self.transport_properties.clone()
    }

    /// The security parameters.
    pub fn security_parameters(&self) -> (r: &SecurityParameters)
        ensures
            *r == self.security(),
    {
        &self.security_parameters
    }

    /// Initiate (RFC 9622 Section 7.1): an establishing connection to the first remote
    /// endpoint. Refused without a remote endpoint.
    pub fn initiate(&self) -> (r: Result<Connection>)
        ensures
            self@.remotes.len() == 0 ==> (r matches Err(TapsError::InvalidParameters(m))
                && m@ == "No remote endpoints specified for initiate"@),
            self@.remotes.len() > 0 ==> (r matches Ok(c) && initiated(self@, c@)),
    {
        if self.remote_endpoints.len() == 0 {
            return Err(TapsError::InvalidParameters(String::from_str("No remote endpoints specified for initiate")));
        }
        let local = if self.local_endpoints.len() > 0 {
            Some(self.local_endpoints[0].clone())
        } else {
            None
        };
        let remote = self.remote_endpoints[0].clone();
        let c = Connection::new_with_data(
            ConnectionState::Establishing,
            local,
            Some(remote),
            self.transport_properties.clone(),
        );
        Ok(c)
    }

    /// InitiateWithSend (RFC 9622 Section 9.2.5): initiates, and queues the message to be
    /// sent once the connection is established.
    pub fn initiate_with_send(&self, message: Message) -> (r: Result<Connection>)
        ensures
            self@.remotes.len() == 0 ==> (r matches Err(TapsError::InvalidParameters(m))
                && m@ == "No remote endpoints specified for initiate"@),
            self@.remotes.len() > 0 ==> (r matches Ok(c) && c@.state == ConnectionState::Establishing
                && c@.pending == seq![if message@.id is None {
                    crate::message::MessageView { id: Some(1u64), ..message@ }
                } else {
                    message@
                }]),
    {
        let mut c = self.initiate()?;
        let _ = c.send(message, false);
        Ok(c)
    }

    /// Listen (RFC 9622 Section 7.2): an active listener. Refused without a local endpoint.
    pub fn listen(&self) -> (r: Result<Listener>)
        ensures
            self@.locals.len() == 0 ==> (r matches Err(TapsError::InvalidParameters(m))
                && m@ == "No local endpoints specified for listen"@),
            self@.locals.len() > 0 ==> (r matches Ok(l)
                && l@ == (ListenerView { active: true, connection_limit: usize::MAX, local_addr: None })),
    {
        if self.local_endpoints.len() == 0 {
            return Err(TapsError::InvalidParameters(String::from_str("No local endpoints specified for listen")));
        }
        Ok(Listener::new())
    }

    /// Rendezvous (RFC 9622 Section 7.3): an establishing connection and an active
    /// listener. Refused without a local endpoint, then without a remote endpoint.
    pub fn rendezvous(&self) -> (r: Result<(Connection, Listener)>)
        ensures
            self@.locals.len() == 0 ==> (r matches Err(TapsError::InvalidParameters(m))
                && m@ == "No local endpoints specified for rendezvous"@),
            self@.locals.len() > 0 && self@.remotes.len() == 0 ==> (r matches Err(TapsError::InvalidParameters(m))
                && m@ == "No remote endpoints specified for rendezvous"@),
            self@.locals.len() > 0 && self@.remotes.len() > 0 ==> (r matches Ok((c, l)) && initiated(self@, c@)
                && l@ == (ListenerView { active: true, connection_limit: usize::MAX, local_addr: None })),
    {
        if self.local_endpoints.len() == 0 {
            return Err(TapsError::InvalidParameters(String::from_str("No local endpoints specified for rendezvous")));
        }
        if self.remote_endpoints.len() == 0 {
            return Err(TapsError::InvalidParameters(String::from_str("No remote endpoints specified for rendezvous")));
        }
        let c = match self.initiate() {
            Ok(c) => c,
            Err(e) => return Err(e),
        };
        Ok((c, Listener::new()))
    }

    /// Resolve: the endpoints as they are (no resolution is performed).
    pub fn resolve(&self) -> (r: Result<(Vec<LocalEndpoint>, Vec<RemoteEndpoint>)>)
        ensures
            r matches Ok((l, m)) && locals_view(l@) == self@.locals && remotes_view(m@) == self@.remotes,
    {
        Ok((clone_locals(&self.local_endpoints), clone_remotes(&self.remote_endpoints)))
    }
}

/// Where an initiated connection connects for its remote endpoint.
#[derive(Debug)]
pub enum ConnectTarget {
    /// This socket address.
    Address(SocketAddress),
    /// What this host name resolves to, at this port.
    Host(String, u16),
    /// Nowhere: the endpoint names no address or host with a port.
    Unreachable,
}

/// The first socket address among the identifiers.
pub open spec fn first_socket_address(ids: Seq<EndpointIdentifier>) -> Option<SocketAddress>
    decreases ids.len(),
{
    if ids.len() == 0 {
        None
    } else {
        match first_socket_address(ids.drop_last()) {
            Some(a) => Some(a),
            None => match ids.last() {
                EndpointIdentifier::SocketAddress(a) => Some(a),
                _ => None,
            },
        }
    }
}

/// The first IP address among the identifiers.
pub open spec fn first_ip_address(ids: Seq<EndpointIdentifier>) -> Option<IpAddress>
    decreases ids.len(),
{
    if ids.len() == 0 {
        None
    } else {
        match first_ip_address(ids.drop_last()) {
            Some(a) => Some(a),
            None => match ids.last() {
                EndpointIdentifier::IpAddress(a) => Some(a),
                _ => None,
            },
        }
    }
}

/// The first port among the identifiers.
pub open spec fn first_port(ids: Seq<EndpointIdentifier>) -> Option<u16>
    decreases ids.len(),
{
    if ids.len() == 0 {
        None
    } else {
        match first_port(ids.drop_last()) {
            Some(p) => Some(p),
            None => match ids.last() {
                EndpointIdentifier::Port(p) => Some(p),
                _ => None,
            },
        }
    }
}

/// The first host name among the identifiers.
pub open spec fn first_host_name(ids: Seq<EndpointIdentifier>) -> Option<Seq<char>>
    decreases ids.len(),
{
    if ids.len() == 0 {
        None
    } else {
        match first_host_name(ids.drop_last()) {
            Some(h) => Some(h),
            None => match ids.last() {
                EndpointIdentifier::HostName(h) => Some(h@),
                _ => None,
            },
        }
    }
}

/// Where to connect for a remote endpoint with these identifiers: its first socket
/// address; else its first IP address at its first port; else its first host name at its
/// first port; else nowhere.
pub fn connect_target(remote: &RemoteEndpoint) -> (r: ConnectTarget)
    ensures
        ({
            let ids = remote.identifiers@;
            if first_socket_address(ids) is Some {
                r == ConnectTarget::Address(first_socket_address(ids)->0)
            } else if first_ip_address(ids) is Some && first_port(ids) is Some {
                r == ConnectTarget::Address(SocketAddress { ip: first_ip_address(ids)->0, port: first_port(ids)->0 })
            } else if first_host_name(ids) is Some && first_port(ids) is Some {
                r matches ConnectTarget::Host(h, p) && h@ == first_host_name(ids)->0 && p == first_port(ids)->0
            } else {
                r is Unreachable
            }
        }),
{
    let ids = &remote.identifiers;
    let mut socket: Option<SocketAddress> = None;
    let mut ip: Option<IpAddress> = None;
    let mut port: Option<u16> = None;
    let mut host: Option<String> = None;
    let mut i: usize = 0;
    while i < ids.len()
        invariant
            i <= ids@.len(),
            socket == first_socket_address(ids@.take(i as int)),
            ip == first_ip_address(ids@.take(i as int)),
            port == first_port(ids@.take(i as int)),
            (match host {
                Some(h) => first_host_name(ids@.take(i as int)) == Some(h@),
                None => first_host_name(ids@.take(i as int)) is None,
            }),
        decreases ids@.len() - i,
    {
        assert(ids@.take(i + 1).drop_last() =~= ids@.take(i as int));
        assert(ids@.take(i + 1).last() == ids@[i as int]);
        match &ids[i] {
            EndpointIdentifier::SocketAddress(a) => {
                if socket.is_none() {
                    socket = Some(*a);
                }
            },
            EndpointIdentifier::IpAddress(a) => {
                if ip.is_none() {
                    ip = Some(*a);
                }
            },
            EndpointIdentifier::Port(p) => {
                if port.is_none() {
                    port = Some(*p);
                }
            },
            EndpointIdentifier::HostName(h) => {
                if host.is_none() {
                    host = Some(h.clone());
                }
            },
            _ => {},
        }
        i += 1;
    }
    assert(ids@.take(ids@.len() as int) =~= ids@);
    match (socket, ip, port, host) {
        (Some(a), _, _, _) => ConnectTarget::Address(a),
        (None, Some(a), Some(p), _) => ConnectTarget::Address(SocketAddress { ip: a, port: p }),
        (None, _, Some(p), Some(h)) => ConnectTarget::Host(h, p),
        _ => ConnectTarget::Unreachable,
    }
}

} // verus!
