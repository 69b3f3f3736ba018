//! Messages, their context on receipt, and the message framer interface
//! (RFC 9622 Section 9.1).

use vstd::prelude::*;
use std::time::{Duration, Instant};
use vstd::string::StringSliceAdditionalSpecFns;
use crate::framer::{frame, frame_bytes, parse_frames, parse_frames_exec, contents};
use crate::types::{
    default_message_properties, LocalEndpoint, MessageCapacityProfile, MessageProperties,
    RemoteEndpoint,
};

verus! {

/// `std::time::Instant`, declared so that a receipt time can be carried in a message
/// context; nothing inside it is visible.
#[verifier::external_type_specification]
#[verifier::external_body]
pub struct ExInstant(std::time::Instant);

/// `Instant::now()`: the current time. Nothing is stated of it.
#[verifier::external_body]
fn current_instant() -> Instant {
    Instant::now()
}

/// A Message: the unit of data transfer.
#[derive(Debug)]
pub struct Message {
    data: Vec<u8>,
    properties: MessageProperties,
    id: Option<u64>,
    end_of_message: bool,
}

/// The mathematical value of a message.
pub struct MessageView {
    pub data: Seq<u8>,
    pub properties: MessageProperties,
    pub id: Option<u64>,
    pub end_of_message: bool,
}

impl View for Message {
    type V = MessageView;

    closed spec fn view(&self) -> MessageView {
        MessageView {
            data: self.data@,
            properties: self.properties,
            id: self.id,
            end_of_message: self.end_of_message,
        }
    }
}

/// A complete message carrying `data`, with default properties and no identifier.
pub open spec fn fresh_message(data: Seq<u8>) -> MessageView {
    MessageView { data, properties: default_message_properties(), id: None, end_of_message: true }
}

/// `m` with other properties.
pub open spec fn with_props(m: MessageView, p: MessageProperties) -> MessageView {
    MessageView { properties: p, ..m }
}

impl Clone for Message {
    fn clone(&self) -> (r: Self)
        ensures
            r@ == self@,
    {
        let data = vstd::slice::slice_to_vec(self.data.as_slice());
        Message { data, properties: self.properties, id: self.id, end_of_message: self.end_of_message }
    }
}

impl Message {
    /// A complete message carrying `data`.
    pub fn new(data: Vec<u8>) -> (r: Self)
        ensures
            r@ == fresh_message(data@),
    {
        Message { data, properties: MessageProperties::default(), id: None, end_of_message: true }
    }

    /// A partial message: `data` is not the end of the message.
    pub fn partial(data: Vec<u8>) -> (r: Self)
        ensures
            r@ == (MessageView { end_of_message: false, ..fresh_message(data@) }),
    {
        Message { data, properties: MessageProperties::default(), id: None, end_of_message: false }
    }

    /// A message carrying a copy of `data`.
    pub fn from_bytes(data: &[u8]) -> (r: Self)
        ensures
            r@ == fresh_message(data@),
    {
        Self::new(vstd::slice::slice_to_vec(data))
    }

    /// A message carrying the UTF-8 bytes of `s`.
    pub fn from_string(s: &str) -> (r: Self)
        ensures
            r@ == fresh_message(s.spec_bytes()),
    {
        Self::from_bytes(s.as_bytes())
    }

    /// A builder for a message carrying `data`.
    pub fn builder(data: Vec<u8>) -> (r: MessageBuilder)
        ensures
            r@ == fresh_message(data@),
    {
        MessageBuilder::new(data)
    }

    /// The message data.
    pub fn data(&self) -> (r: &[u8])
        ensures
            r@ == self@.data,
    {
        self.data.as_slice()
    }

    /// Mutable access to the message data.
    pub fn data_mut(&mut self) -> (r: &mut Vec<u8>)
        ensures
            r@ == old(self)@.data,
            final(self)@ == (MessageView { data: final(r)@, ..old(self)@ }),
    {
        &mut self.data
    }

    /// The message length in bytes.
    pub fn len(&self) -> (r: usize)
        ensures
            r == self@.data.len(),
    {
        self.data.len()
    }

    /// Whether the message carries no data.
    pub fn is_empty(&self) -> (r: bool)
        ensures
            r == (self@.data.len() == 0),
    {
        self.data.len() == 0
    }

    /// Whether this is the last part of the message.
    pub fn is_end_of_message(&self) -> (r: bool)
        ensures
            r == self@.end_of_message,
    {
        self.end_of_message
    }

    /// Replaces the message properties.
    pub fn with_properties(self, properties: MessageProperties) -> (r: Self)
        ensures
            r@ == with_props(self@, properties),
    {
        let mut m = self;
        m.properties = properties;
        m
    }

    /// The message properties.
    pub fn properties(&self) -> (r: &MessageProperties)
        ensures
            *r == self@.properties,
    {
        &self.properties
    }

    /// Mutable access to the message properties.
    pub fn properties_mut(&mut self) -> (r: &mut MessageProperties)
        ensures
            *r == old(self)@.properties,
            final(self)@ == with_props(old(self)@, *final(r)),
    {
        &mut self.properties
    }

    /// Sets the message lifetime.
    pub fn with_lifetime(self, lifetime: Duration) -> (r: Self)
        ensures
            r@ == with_props(self@, MessageProperties { lifetime: Some(lifetime), ..self@.properties }),
    {
        let mut m = self;
        m.properties.lifetime = Some(lifetime);
        m
    }

    /// Sets the message priority.
    pub fn with_priority(self, priority: i32) -> (r: Self)
        ensures
            r@ == with_props(self@, MessageProperties { priority: Some(priority), ..self@.properties }),
    {
        let mut m = self;
        m.properties.priority = Some(priority);
        m
    }

    /// Sets whether ordering is preserved for this message.
    pub fn with_ordered(self, ordered: bool) -> (r: Self)
        ensures
            r@ == with_props(self@, MessageProperties { ordered: Some(ordered), ..self@.properties }),
    {
        let mut m = self;
        m.properties.ordered = Some(ordered);
        m
    }

    /// Marks the message as safely replayable.
    pub fn safely_replayable(self) -> (r: Self)
        ensures
            r@ == with_props(self@, MessageProperties { safely_replayable: true, ..self@.properties }),
    {
        let mut m = self;
        m.properties.safely_replayable = true;
        m
    }

    /// Marks the message as idempotent (safe to replay); sets the current and the older flag.
    pub fn idempotent(self) -> (r: Self)
        ensures
            r@ == with_props(self@, MessageProperties { safely_replayable: true, idempotent: true, ..self@.properties }),
    {
        let mut m = self;
        m.properties.safely_replayable = true;
        m.properties.idempotent = true;
        m
    }

    /// Marks the message as the final one on the connection.
    pub fn final_message(self) -> (r: Self)
        ensures
            r@ == with_props(self@, MessageProperties { final_message: true, ..self@.properties }),
    {
        let mut m = self;
        m.properties.final_message = true;
        m
    }

    /// Sets whether the message is the final one on the connection.
    pub fn with_final(self, is_final: bool) -> (r: Self)
        ensures
            r@ == with_props(self@, MessageProperties { final_message: is_final, ..self@.properties }),
    {
        let mut m = self;
        m.properties.final_message = is_final;
        m
    }

    /// Sets the checksum coverage length.
    pub fn with_checksum_length(self, length: usize) -> (r: Self)
        ensures
            r@ == with_props(self@, MessageProperties { checksum_length: Some(length), ..self@.properties }),
    {
        let mut m = self;
        m.properties.checksum_length = Some(length);
        m
    }

    /// Sets whether reliable delivery is required.
    pub fn with_reliable(self, reliable: bool) -> (r: Self)
        ensures
            r@ == with_props(self@, MessageProperties { reliable: Some(reliable), ..self@.properties }),
    {
        let mut m = self;
        m.properties.reliable = Some(reliable);
        m
    }

    /// Sets the capacity profile for this message.
    pub fn with_capacity_profile(self, profile: MessageCapacityProfile) -> (r: Self)
        ensures
            r@ == with_props(self@, MessageProperties { capacity_profile: Some(profile), ..self@.properties }),
    {
        let mut m = self;
        m.properties.capacity_profile = Some(profile);
        m
    }

    /// Disables network-layer fragmentation.
    pub fn no_fragmentation(self) -> (r: Self)
        ensures
            r@ == with_props(self@, MessageProperties { no_fragmentation: true, ..self@.properties }),
    {
        let mut m = self;
        m.properties.no_fragmentation = true;
        m
    }

    /// Disables transport-layer segmentation.
    pub fn no_segmentation(self) -> (r: Self)
        ensures
            r@ == with_props(self@, MessageProperties { no_segmentation: true, ..self@.properties }),
    {
        let mut m = self;
        m.properties.no_segmentation = true;
        m
    }

    /// Sets the message identifier.
    pub fn with_id(self, id: u64) -> (r: Self)
        ensures
            r@ == (MessageView { id: Some(id), ..self@ }),
    {
        let mut m = self;
        m.id = Some(id);
        m
    }

    /// The message identifier.
    pub fn id(&self) -> (r: Option<u64>)
        ensures
            r == self@.id,
    {
        self.id
    }
}

/// Builder for a message with properties.
pub struct MessageBuilder {
    message: Message,
}

impl View for MessageBuilder {
    type V = MessageView;

    closed spec fn view(&self) -> MessageView {
        self.message@
    }
}

impl MessageBuilder {
    /// A builder for a complete message carrying `data`.
    pub fn new(data: Vec<u8>) -> (r: Self)
        ensures
            r@ == fresh_message(data@),
    {
        MessageBuilder { message: Message::new(data) }
    }

    /// Sets the identifier.
    pub fn id(self, id: u64) -> (r: Self)
        ensures
            r@ == (MessageView { id: Some(id), ..self@ }),
    {
        MessageBuilder { message: self.message.with_id(id) }
    }

    /// Sets the lifetime.
    pub fn lifetime(self, lifetime: Duration) -> (r: Self)
        ensures
            r@ == with_props(self@, MessageProperties { lifetime: Some(lifetime), ..self@.properties }),
    {
        MessageBuilder { message: self.message.with_lifetime(lifetime) }
    }

    /// Sets the priority.
    pub fn priority(self, priority: i32) -> (r: Self)
        ensures
            r@ == with_props(self@, MessageProperties { priority: Some(priority), ..self@.properties }),
    {
        MessageBuilder { message: self.message.with_priority(priority) }
    }

    /// Sets whether the message is safely replayable.
    pub fn safely_replayable(self, value: bool) -> (r: Self)
        ensures
            r@ == with_props(self@, MessageProperties { safely_replayable: value, ..self@.properties }),
    {
        let mut b = self;
        b.message.properties.safely_replayable = value;
        b
    }

    /// Sets whether the message is the final one.
    pub fn final_message(self, value: bool) -> (r: Self)
        ensures
            r@ == with_props(self@, MessageProperties { final_message: value, ..self@.properties }),
    {
        MessageBuilder { message: self.message.with_final(value) }
    }

    /// Sets whether ordering is preserved.
    pub fn ordered(self, value: bool) -> (r: Self)
        ensures
            r@ == with_props(self@, MessageProperties { ordered: Some(value), ..self@.properties }),
    {
        MessageBuilder { message: self.message.with_ordered(value) }
    }

    /// Sets the checksum coverage length.
    pub fn checksum_length(self, length: usize) -> (r: Self)
        ensures
            r@ == with_props(self@, MessageProperties { checksum_length: Some(length), ..self@.properties }),
    {
        MessageBuilder { message: self.message.with_checksum_length(length) }
    }

    /// Sets whether reliable delivery is required.
    pub fn reliable(self, value: bool) -> (r: Self)
        ensures
            r@ == with_props(self@, MessageProperties { reliable: Some(value), ..self@.properties }),
    {
        MessageBuilder { message: self.message.with_reliable(value) }
    }

    /// Sets the capacity profile.
    pub fn capacity_profile(self, profile: MessageCapacityProfile) -> (r: Self)
        ensures
            r@ == with_props(self@, MessageProperties { capacity_profile: Some(profile), ..self@.properties }),
    {
        MessageBuilder { message: self.message.with_capacity_profile(profile) }
    }

    /// Disables network-layer fragmentation.
    pub fn no_fragmentation(self) -> (r: Self)
        ensures
            r@ == with_props(self@, MessageProperties { no_fragmentation: true, ..self@.properties }),
    {
        MessageBuilder { message: self.message.no_fragmentation() }
    }

    /// Disables transport-layer segmentation.
    pub fn no_segmentation(self) -> (r: Self)
        ensures
            r@ == with_props(self@, MessageProperties { no_segmentation: true, ..self@.properties }),
    {
        MessageBuilder { message: self.message.no_segmentation() }
    }

    /// Sets whether this is the last part of the message.
    pub fn end_of_message(self, value: bool) -> (r: Self)
        ensures
            r@ == (MessageView { end_of_message: value, ..self@ }),
    {
        let mut b = self;
        b.message.end_of_message = value;
        b
    }

    /// The message built.
    pub fn build(self) -> (r: Message)
        ensures
            r@ == self@,
    {
        self.message
    }
}

/// ECN (Explicit Congestion Notification) marking values.
#[derive(Debug, Clone, Copy, PartialEq, Eq, Structural)]
pub enum EcnMarking {
    /// Not ECN-capable transport.
    NotEct,
    /// ECN-capable transport (0).
    Ect0,
    /// ECN-capable transport (1).
    Ect1,
    /// Congestion experienced.
    Ce,
}

/// Context information about a received message (RFC 9622 Section 9.1.1).
#[derive(Debug)]
pub struct MessageContext {
    /// When the message was received.
    pub received_at: Instant,
    /// The local endpoint that received the message.
    pub local_endpoint: Option<LocalEndpoint>,
    /// The remote endpoint that sent the message.
    pub remote_endpoint: Option<RemoteEndpoint>,
    /// Whether the message arrived on the primary path.
    pub primary_path: bool,
    /// ECN marking.
    pub ecn: Option<EcnMarking>,
    /// Whether the message arrived as early data (0-RTT).
    pub early_data: bool,
    /// Reception timestamp from the network interface.
    pub interface_timestamp: Option<Instant>,
}

impl MessageContext {
    /// A context stamped with the current time: no endpoints, primary path, no ECN
    /// marking, not early data, no interface timestamp.
    pub fn new() -> (r: Self)
        ensures
            r.local_endpoint is None,
            r.remote_endpoint is None,
            r.primary_path,
            r.ecn is None,
            !r.early_data,
            r.interface_timestamp is None,
    {
        MessageContext {
            received_at: current_instant(),
            local_endpoint: None,
            remote_endpoint: None,
            primary_path: true,
            ecn: None,
            early_data: false,
            interface_timestamp: None,
        }
    }

    /// Sets the local endpoint.
    pub fn with_local_endpoint(self, endpoint: LocalEndpoint) -> (r: Self)
        ensures
            r == (MessageContext { local_endpoint: Some(endpoint), ..self }),
    {
        let mut c = self;
        c.local_endpoint = Some(endpoint);
        c
    }

    /// Sets the remote endpoint.
    pub fn with_remote_endpoint(self, endpoint: RemoteEndpoint) -> (r: Self)
        ensures
            r == (MessageContext { remote_endpoint: Some(endpoint), ..self }),
    {
        let mut c = self;
        c.remote_endpoint = Some(endpoint);
        c
    }

    /// Sets the ECN marking.
    pub fn with_ecn(self, ecn: EcnMarking) -> (r: Self)
        ensures
            r == (MessageContext { ecn: Some(ecn), ..self }),
    {
        let mut c = self;
        c.ecn = Some(ecn);
        c
    }

    /// Marks the message as received as early data.
    pub fn as_early_data(self) -> (r: Self)
        ensures
            r == (MessageContext { early_data: true, ..self }),
    {
        let mut c = self;
        c.early_data = true;
        c
    }
}

impl Default for MessageContext {
    fn default() -> (r: Self)
        ensures
            r.local_endpoint is None,
            r.remote_endpoint is None,
            r.primary_path,
            r.ecn is None,
            !r.early_data,
            r.interface_timestamp is None,
    {
        MessageContext::new()
    }
}

fn clone_local(e: &Option<LocalEndpoint>) -> (r: Option<LocalEndpoint>)
    ensures
        r is Some == e is Some,
        r is Some ==> r->0.identifiers@ == e->0.identifiers@,
{
    match e {
        Some(x) => Some(x.clone()),
        None => None,
    }
}

fn clone_remote(e: &Option<RemoteEndpoint>) -> (r: Option<RemoteEndpoint>)
    ensures
        r is Some == e is Some,
        r is Some ==> r->0.identifiers@ == e->0.identifiers@ && r->0.protocol == e->0.protocol,
{
    match e {
        Some(x) => Some(x.clone()),
        None => None,
    }
}

impl Clone for MessageContext {
    fn clone(&self) -> (r: Self)
        ensures
            r.received_at == self.received_at,
            r.local_endpoint is Some == self.local_endpoint is Some,
            r.local_endpoint is Some ==> r.local_endpoint->0.identifiers@ == self.local_endpoint->0.identifiers@,
            r.remote_endpoint is Some == self.remote_endpoint is Some,
            r.remote_endpoint is Some ==> r.remote_endpoint->0.identifiers@ == self.remote_endpoint->0.identifiers@
                && r.remote_endpoint->0.protocol == self.remote_endpoint->0.protocol,
            r.primary_path == self.primary_path,
            r.ecn == self.ecn,
            r.early_data == self.early_data,
            r.interface_timestamp == self.interface_timestamp,
    {
        MessageContext {
            received_at: self.received_at,
            local_endpoint: clone_local(&self.local_endpoint),
            remote_endpoint: clone_remote(&self.remote_endpoint),
            primary_path: self.primary_path,
            ecn: self.ecn,
            early_data: self.early_data,
            interface_timestamp: self.interface_timestamp,
        }
    }
}

/// Message framer interface: frames outbound messages, deframes inbound data, and can be
/// reset.
pub trait MessageFramer {
    /// Frames a message for sending.
    fn frame(&self, message: &Message) -> Vec<u8>;

    /// Parses received data into messages.
    fn deframe(&mut self, data: &[u8]) -> Vec<Message>;

    /// Resets the framer state.
    fn reset(&mut self);
}

/// A length-prefixed message framer: a four-byte big-endian length, then the message bytes.
pub struct LengthPrefixFramer {
    buffer: Vec<u8>,
}

impl LengthPrefixFramer {
    /// The bytes received that do not yet form a whole message.
    pub closed spec fn pending(&self) -> Seq<u8> {
        self.buffer@
    }

    /// A framer with nothing buffered.
    pub fn new() -> (r: Self)
        ensures
            r.pending() == Seq::<u8>::empty(),
    {
        LengthPrefixFramer { buffer: Vec::new() }
    }
}

impl Default for LengthPrefixFramer {
    fn default() -> (r: Self)
        ensures
            r.pending() == Seq::<u8>::empty(),
    {
        LengthPrefixFramer::new()
    }
}

/// The data carried by a sequence of messages.
pub open spec fn message_data(v: Seq<Message>) -> Seq<Seq<u8>> {
    v.map_values(|m: Message| m@.data)
}

impl MessageFramer for LengthPrefixFramer {
    fn frame(&self, message: &Message) -> (r: Vec<u8>)
        ensures
            r@ == frame(message@.data),
    {
        frame_bytes(message.data())
    }

    fn deframe(&mut self, data: &[u8]) -> (r: Vec<Message>)
        ensures
            message_data(r@) == parse_frames(old(self).pending() + data@).0,
            final(self).pending() == parse_frames(old(self).pending() + data@).1,
            forall|i: int| 0 <= i < r@.len() ==> (#[trigger] r@[i])@ == fresh_message(r@[i]@.data),
    {
        let mut incoming = vstd::slice::slice_to_vec(data);
        self.buffer.append(&mut incoming);
        let (raw, pos) = parse_frames_exec(self.buffer.as_slice());
        let mut out: Vec<Message> = Vec::new();
        let mut i: usize = 0;
        while i < raw.len()
            invariant
                i <= raw.len(),
                out@.len() == i,
                forall|j: int| 0 <= j < i ==> (#[trigger] out@[j])@ == fresh_message(raw@[j]@),
            decreases raw.len() - i,
        {
            out.push(Message::from_bytes(raw[i].as_slice()));
            i += 1;
        }
        assert(message_data(out@) =~= contents(raw@));
        let rest = self.buffer.split_off(pos);
        self.buffer = rest;
        out
    }

    fn reset(&mut self)
        ensures
            final(self).pending() == Seq::<u8>::empty(),
    {
        self.buffer.clear();
    }
}

} // verus!
