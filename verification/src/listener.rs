//! Listener (RFC 9622 Section 7.2): the passive-open bookkeeping of a listener, namely
//! whether it is active, how many more connections it admits, where it binds, what an
//! accepted connection looks like, and what accept makes of each listener event.

use vstd::prelude::*;
use vstd::string::StringExecFns;
use crate::connection::{Connection, ConnectionView};
use crate::connection_properties::default_properties;
use crate::error::{Result, TapsError};
use crate::types::{
    ConnectionState, EndpointIdentifier, IpAddress, LocalEndpoint, RemoteEndpoint, SocketAddress,
    TransportProperties,
};

verus! {

/// The address a listener binds for the identifiers of a local endpoint, scanned from
/// index `i` with the address and port seen so far: the first socket address wins;
/// otherwise the last IP address (default `0.0.0.0`) with the last port (default 0).
pub open spec fn bind_address_from(
    ids: Seq<EndpointIdentifier>,
    i: int,
    ip: Option<IpAddress>,
    port: Option<u16>,
) -> SocketAddress
    decreases ids.len() - i,
{
    if i >= ids.len() || i < 0 {
        SocketAddress {
            ip: match ip {
                Some(a) => a,
                None => IpAddress::V4(0),
            },
            port: match port {
                Some(p) => p,
                None => 0,
            },
        }
    } else {
        match ids[i] {
            EndpointIdentifier::IpAddress(a) => bind_address_from(ids, i + 1, Some(a), port),
            EndpointIdentifier::Port(p) => bind_address_from(ids, i + 1, ip, Some(p)),
            EndpointIdentifier::SocketAddress(s) => s,
            _ => bind_address_from(ids, i + 1, ip, port),
        }
    }
}

/// The address a listener binds for a local endpoint.
pub open spec fn bind_address(ids: Seq<EndpointIdentifier>) -> SocketAddress {
    bind_address_from(ids, 0, None, None)
}

/// The last IP address among the identifiers, if any.
pub open spec fn last_ip(ids: Seq<EndpointIdentifier>) -> Option<IpAddress>
    decreases ids.len(),
{
    if ids.len() == 0 {
        None
    } else {
        match ids.last() {
            EndpointIdentifier::IpAddress(a) => Some(a),
            _ => last_ip(ids.drop_last()),
        }
    }
}

/// The last port among the identifiers, if any.
pub open spec fn last_port(ids: Seq<EndpointIdentifier>) -> Option<u16>
    decreases ids.len(),
{
    if ids.len() == 0 {
        None
    } else {
        match ids.last() {
            EndpointIdentifier::Port(p) => Some(p),
            _ => last_port(ids.drop_last()),
        }
    }
}

proof fn lemma_scan_to_socket(ids: Seq<EndpointIdentifier>, k: int, i: int, ip: Option<IpAddress>, port: Option<u16>)
    requires
        0 <= k <= i < ids.len(),
        ids[i] is SocketAddress,
        forall|j: int| k <= j < i ==> !(#[trigger] ids[j] is SocketAddress),
    ensures
        ids[i] matches EndpointIdentifier::SocketAddress(a) && bind_address_from(ids, k, ip, port) == a,
    decreases i - k,
{
    if k < i {
        let next_ip = match ids[k] {
            EndpointIdentifier::IpAddress(a) => Some(a),
            _ => ip,
        };
        let next_port = match ids[k] {
            EndpointIdentifier::Port(p) => Some(p),
            _ => port,
        };
        lemma_scan_to_socket(ids, k + 1, i, next_ip, next_port);
    }
}

proof fn lemma_scan_without_socket(ids: Seq<EndpointIdentifier>, k: int)
    requires
        0 <= k <= ids.len(),
        forall|j: int| 0 <= j < ids.len() ==> !(#[trigger] ids[j] is SocketAddress),
    ensures
        bind_address_from(ids, k, last_ip(ids.take(k)), last_port(ids.take(k))) == (SocketAddress {
            ip: match last_ip(ids) {
                Some(a) => a,
                None => IpAddress::V4(0),
            },
            port: match last_port(ids) {
                Some(p) => p,
                None => 0,
            },
        }),
    decreases ids.len() - k,
{
    if k == ids.len() {
        assert(ids.take(k) =~= ids);
    } else {
        let next = ids.take(k + 1);
        assert(next.last() == ids[k]);
        assert(next.drop_last() =~= ids.take(k));
        assert(!(ids[k] is SocketAddress));
        lemma_scan_without_socket(ids, k + 1);
    }
}

/// Law (where a listener binds): when the identifiers hold a socket address, the bind
/// address is the first of them, whatever comes before or after it.
pub proof fn lemma_bind_address_first_socket(ids: Seq<EndpointIdentifier>, i: int)
    requires
        0 <= i < ids.len(),
        ids[i] is SocketAddress,
        forall|j: int| 0 <= j < i ==> !(#[trigger] ids[j] is SocketAddress),
    ensures
        ids[i] matches EndpointIdentifier::SocketAddress(a) && bind_address(ids) == a,
{
    lemma_scan_to_socket(ids, 0, i, None, None);
}

/// Law (where a listener binds): when the identifiers hold no socket address, the bind
/// address is the last IP address among them (`0.0.0.0` if none) with the last port
/// among them (0 if none).
pub proof fn lemma_bind_address_without_socket(ids: Seq<EndpointIdentifier>)
    requires
        forall|j: int| 0 <= j < ids.len() ==> !(#[trigger] ids[j] is SocketAddress),
    ensures
        bind_address(ids) == (SocketAddress {
            ip: match last_ip(ids) {
                Some(a) => a,
                None => IpAddress::V4(0),
            },
            port: match last_port(ids) {
                Some(p) => p,
                None => 0,
            },
        }),
{
    assert(ids.take(0) =~= Seq::<EndpointIdentifier>::empty());
    lemma_scan_without_socket(ids, 0);
}

/// The address to bind for a local endpoint: its first socket address; else its last IP
/// address (default `0.0.0.0`) with its last port (default 0).
pub fn extract_bind_address(endpoint: &LocalEndpoint) -> (r: SocketAddress)
    ensures
        r == bind_address(endpoint.identifiers@),
{
    let mut ip: Option<IpAddress> = None;
    let mut port: Option<u16> = None;
    let mut i: usize = 0;
    while i < endpoint.identifiers.len()
        invariant
            i <= endpoint.identifiers@.len(),
            bind_address(endpoint.identifiers@) == bind_address_from(endpoint.identifiers@, i as int, ip, port),
        decreases endpoint.identifiers@.len() - i,
    {
        match &endpoint.identifiers[i] {
            EndpointIdentifier::IpAddress(a) => ip = Some(*a),
            EndpointIdentifier::Port(p) => port = Some(*p),
            EndpointIdentifier::SocketAddress(s) => return *s,
            _ => {},
        }
        i += 1;
    }
    let ip_addr = match ip {
        Some(a) => a,
        None => IpAddress::unspecified_v4(),
    };
    let p = match port {
        Some(p) => p,
        None => 0,
    };
    SocketAddress { ip: ip_addr, port: p }
}

/// The connection limit after an admission attempt: a finite, non-zero limit goes down by
/// one; 0 and the unlimited value stay.
pub open spec fn limit_after_admission(limit: usize) -> usize {
    if limit == 0 || limit == usize::MAX {
        limit
    } else {
        (limit - 1) as usize
    }
}

/// A Listener: waits for incoming connections.
#[derive(Debug)]
pub struct Listener {
    active: bool,
    connection_limit: usize,
    local_addr: Option<SocketAddress>,
}

/// The mathematical value of a listener.
pub struct ListenerView {
    pub active: bool,
    pub connection_limit: usize,
    pub local_addr: Option<SocketAddress>,
}

impl View for Listener {
    type V = ListenerView;

    closed spec fn view(&self) -> ListenerView {
        ListenerView { active: self.active, connection_limit: self.connection_limit, local_addr: self.local_addr }
    }
}

impl Listener {
    /// An active listener with no connection limit and no bound address yet.
    pub fn new() -> (r: Self)
        ensures
            r@ == (ListenerView { active: true, connection_limit: usize::MAX, local_addr: None }),
    {
        Listener { active: true, connection_limit: usize::MAX, local_addr: None }
    }

    /// Stop (RFC 9622 Section 7.2): the listener is no longer active. Says whether it was,
    /// that is, whether the accept loop still has to be told to stop.
    pub fn stop(&mut self) -> (was_active: bool)
        ensures
            was_active == old(self)@.active,
            final(self)@ == (ListenerView { active: false, ..old(self)@ }),
    {
        let was = self.active;
        self.active = false;
        was
    }

    /// Whether the listener is still active.
    pub fn is_active(&self) -> (r: bool)
        ensures
            r == self@.active,
    {
        self.active
    }

    /// Sets how many more connections the listener admits (`usize::MAX` is unlimited).
    pub fn set_new_connection_limit(&mut self, limit: usize)
        ensures
            final(self)@ == (ListenerView { connection_limit: limit, ..old(self)@ }),
    {
        self.connection_limit = limit;
    }

    /// Whether an incoming connection is admitted: none is while the limit is 0; an
    /// admitted connection uses up one unit of a finite limit.
    pub fn admit_connection(&mut self) -> (r: bool)
        ensures
            r == (old(self)@.connection_limit != 0),
            final(self)@ == (ListenerView { connection_limit: limit_after_admission(old(self)@.connection_limit), ..old(self)@ }),
    {
        let current = self.connection_limit;
        if current == 0 {
            return false;
        }
        if current != usize::MAX {
            self.connection_limit = current - 1;
        }
        true
    }

    /// The accept loop ended: the listener is no longer active.
    pub fn mark_stopped(&mut self)
        ensures
            final(self)@ == (ListenerView { active: false, ..old(self)@ }),
    {
        self.active = false;
    }

    /// Records the address the listener is bound to.
    pub fn set_local_addr(&mut self, addr: SocketAddress)
        ensures
            final(self)@ == (ListenerView { local_addr: Some(addr), ..old(self)@ }),
    {
        self.local_addr = Some(addr);
    }

    /// The address the listener is bound to, once bound.
    pub fn local_addr(&self) -> (r: Option<SocketAddress>)
        ensures
            r == self@.local_addr,
    {
        self.local_addr
    }
}

/// The address to bind when listening on a preconnection's local endpoints: the bind
/// address of the first of them; an error when there is none.
pub fn listen_address(local_endpoints: &Vec<LocalEndpoint>) -> (r: Result<SocketAddress>)
    ensures
        local_endpoints@.len() == 0 ==> (r matches Err(TapsError::InvalidParameters(m))
            && m@ == "No local endpoint specified for listen"@),
        local_endpoints@.len() > 0 ==> (r matches Ok(a) && a == bind_address(local_endpoints@[0].identifiers@)),
{
    if local_endpoints.len() == 0 {
        return Err(TapsError::InvalidParameters(String::from_str("No local endpoint specified for listen")));
    }
    Ok(extract_bind_address(&local_endpoints[0]))
}

/// A connection accepted on a listener, bound to `local` and talking to `peer`: established,
/// with its stream, each endpoint named by its socket address, the preconnection's
/// transport properties, and otherwise fresh.
pub fn accepted_connection(peer: SocketAddress, local: SocketAddress, transport_properties: TransportProperties) -> (r: Connection)
    ensures
        r@ == (ConnectionView {
            state: ConnectionState::Established,
            local_endpoint: Some(seq![EndpointIdentifier::SocketAddress(local)]),
            remote_endpoint: Some((seq![EndpointIdentifier::SocketAddress(peer)], None)),
            transport: transport_properties@,
            has_stream: true,
            pending: Seq::empty(),
            group: None,
            batch_mode: false,
            batched: Seq::empty(),
            next_message_id: 1,
            framer_count: 0,
            receive_buffer: Seq::empty(),
            properties: default_properties(),
            final_sent: false,
            final_received: false,
        }),
{
    let local_endpoint = LocalEndpoint { identifiers: vec![EndpointIdentifier::SocketAddress(local)] };
    let remote_endpoint = RemoteEndpoint { identifiers: vec![EndpointIdentifier::SocketAddress(peer)], protocol: None };
    assert(local_endpoint.identifiers@ =~= seq![EndpointIdentifier::SocketAddress(local)]);
    assert(remote_endpoint.identifiers@ =~= seq![EndpointIdentifier::SocketAddress(peer)]);
    let mut c = Connection::new_with_data(
        ConnectionState::Established,
        Some(local_endpoint),
        Some(remote_endpoint),
        transport_properties,
    );
    let _ = c.on_established(None);
    c
}

/// Events a listener reports.
pub enum ListenerEvent {
    /// A connection was accepted.
    ConnectionReceived(Connection),
    /// The listener stopped.
    Stopped,
    /// Accepting failed; the listener goes on.
    Error(String),
}

/// What accept makes of the next listener event (`None` when no more will come): a
/// received connection is the result; a stop or the end of events fails with
/// `InvalidState`; an error is passed over, and accept waits for the next event (`None`).
pub fn accept_outcome(event: Option<ListenerEvent>) -> (r: Option<Result<Connection>>)
    ensures
        event matches Some(ListenerEvent::ConnectionReceived(c)) ==> (r matches Some(Ok(d)) && d@ == c@),
        event matches Some(ListenerEvent::Stopped) ==> (r matches Some(Err(TapsError::InvalidState(m)))
            && m@ == "Listener stopped"@),
        event matches Some(ListenerEvent::Error(_)) ==> r is None,
        event is None ==> (r matches Some(Err(TapsError::InvalidState(m))) && m@ == "Listener closed"@),
{
    match event {
        Some(ListenerEvent::ConnectionReceived(c)) => Some(Ok(c)),
        Some(ListenerEvent::Stopped) => Some(Err(TapsError::InvalidState(String::from_str("Listener stopped")))),
        Some(ListenerEvent::Error(_)) => None,
        None => Some(Err(TapsError::InvalidState(String::from_str("Listener closed")))),
    }
}

/// Law: under a finite limit `n`, each of the first `n` admission attempts succeeds and
/// uses up one unit: after `k <= n` attempts the remaining limit is `n - k` (and the
/// attempt after the `n`-th finds the limit at 0, which admits nothing).
pub proof fn lemma_limit_counts_down(n: usize, k: nat)
    requires
        k <= n,
        n != usize::MAX,
    ensures
        admitted_after(n, k) == n - k,
    decreases k,
{
    if k > 0 {
        lemma_limit_counts_down(n, (k - 1) as nat);
    }
}

/// The remaining limit after `k` admission attempts from limit `n`.
pub open spec fn admitted_after(n: usize, k: nat) -> usize
    decreases k,
{
    if k == 0 {
        n
    } else {
        limit_after_admission(admitted_after(n, (k - 1) as nat))
    }
}

} // verus!
