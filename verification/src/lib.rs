//! Transport Services: an abstract, message-oriented transport API (RFC 9622).
//!
//! The library holds what the API decides: endpoints and properties, messages and their
//! framing, the connection, listener and preconnection state machines, connection
//! groups, path monitoring's interface comparison, and the values that cross the C
//! interface. Each function states its behaviour in its contract.

pub mod connection;
pub mod connection_group;
pub mod connection_properties;
pub mod error;
pub mod ffi;
pub mod framer;
pub mod listener;
pub mod message;
pub mod path_monitor;
pub mod preconnection;
pub mod text;
pub mod types;

pub use connection::Connection;
pub use connection_group::{ConnectionGroup, ConnectionGroupId};
pub use connection_properties::{
    CapacityProfile, ChecksumCoverage, ConnectionProperties, ConnectionProperty, MultipathPolicy,
    SchedulerType, TimeoutValue,
};
pub use error::{Result, TapsError, TransportServicesError};
pub use framer::{Framer, FramerStack, LengthPrefixFramer};
pub use listener::Listener;
pub use message::{Message, MessageBuilder, MessageContext};
pub use preconnection::Preconnection;
pub use types::{
    Certificate, CertificateChain, CommunicationDirection, ConnectionEvent, ConnectionState,
    EndpointIdentifier, IdentityChallengeCallback, IdentityChallengeFn, IpAddress, LocalEndpoint,
    LocalEndpointBuilder, MessageCapacityProfile, MessageProperties, MultipathConfig,
    PreSharedKey, Preference, PropertyValue, Protocol, RemoteEndpoint, RemoteEndpointBuilder,
    RendezvousEvent, SecurityParameter, SecurityParameterValue, SecurityParameters,
    SecurityProtocol, SelectionProperties, SocketAddress, StunCredentials, TransportProperties,
    TransportPropertiesBuilder, TransportProperty, TrustVerificationCallback, TrustVerificationFn,
};
