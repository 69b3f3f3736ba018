//! The connection state machine (RFC 9622 Sections 8 to 10): what a connection does on
//! each action and event. The transport I/O itself (the stream, the event channel) lies
//! with the caller, which performs the steps these functions return.

use vstd::prelude::*;
use vstd::string::StringExecFns;
use crate::connection_group::{ConnectionGroup, ConnectionGroupId};
use crate::connection_properties::{
    is_read_only, ConnectionProperties, ConnectionProperty, TimeoutValue,
};
use crate::error::{Result, TapsError};
use crate::framer::{be32, frame, stack_frame, FramerStack, LengthPrefixFramer};
use crate::message::{fresh_message, Message, MessageContext, MessageView};
use crate::text::{decimal, decimal_text};
use crate::types::{
    same_identifier, CommunicationDirection, ConnectionState, EndpointIdentifier, LocalEndpoint,
    Protocol, RemoteEndpoint, TransportProperties, TransportPropertiesView,
};

verus! {

/// The views of a sequence of messages.
pub open spec fn message_views(s: Seq<Message>) -> Seq<MessageView> {
    s.map_values(|m: Message| m@)
}

/// The mathematical value of a connection.
pub struct ConnectionView {
    pub state: ConnectionState,
    pub local_endpoint: Option<Seq<EndpointIdentifier>>,
    pub remote_endpoint: Option<(Seq<EndpointIdentifier>, Option<Protocol>)>,
    pub transport: TransportPropertiesView,
    pub has_stream: bool,
    pub pending: Seq<MessageView>,
    pub group: Option<ConnectionGroupId>,
    pub batch_mode: bool,
    pub batched: Seq<MessageView>,
    pub next_message_id: u64,
    pub framer_count: nat,
    pub receive_buffer: Seq<u8>,
    pub properties: Map<Seq<char>, ConnectionProperty>,
    pub final_sent: bool,
    pub final_received: bool,
}

/// A Connection: one instance of a transport protocol stack to a remote endpoint, as a
/// state machine over its state, queues and properties.
pub struct Connection {
    state: ConnectionState,
    local_endpoint: Option<LocalEndpoint>,
    remote_endpoint: Option<RemoteEndpoint>,
    transport_properties: TransportProperties,
    has_stream: bool,
    pending_messages: Vec<Message>,
    group: Option<ConnectionGroupId>,
    batch_mode: bool,
    batched_messages: Vec<Message>,
    next_message_id: u64,
    framers: FramerStack<LengthPrefixFramer>,
    receive_buffer: Vec<u8>,
    properties: ConnectionProperties,
    final_message_sent: bool,
    final_message_received: bool,
}

/// The identifiers of an optional local endpoint.
pub open spec fn local_ids(e: Option<LocalEndpoint>) -> Option<Seq<EndpointIdentifier>> {
    match e {
        Some(x) => Some(x.identifiers@),
        None => None,
    }
}

/// The identifiers and protocol of an optional remote endpoint.
pub open spec fn remote_ids(e: Option<RemoteEndpoint>) -> Option<(Seq<EndpointIdentifier>, Option<Protocol>)> {
    match e {
        Some(x) => Some((x.identifiers@, x.protocol)),
        None => None,
    }
}

impl View for Connection {
    type V = ConnectionView;

    closed spec fn view(&self) -> ConnectionView {
        ConnectionView {
            state: self.state,
            local_endpoint: local_ids(self.local_endpoint),
            remote_endpoint: remote_ids(self.remote_endpoint),
            transport: self.transport_properties@,
            has_stream: self.has_stream,
            pending: message_views(self.pending_messages@),
            group: self.group,
            batch_mode: self.batch_mode,
            batched: message_views(self.batched_messages@),
            next_message_id: self.next_message_id,
            framer_count: self.framers@.len(),
            receive_buffer: self.receive_buffer@,
            properties: self.properties@,
            final_sent: self.final_message_sent,
            final_received: self.final_message_received,
        }
    }
}

/// Whether a connection in this state may send or receive at all (it is open).
pub open spec fn is_open(s: ConnectionState) -> bool {
    s == ConnectionState::Established || s == ConnectionState::Establishing
}

/// Can Send Data (8.1.11.2): established, not receive-only, and no Final message sent.
pub open spec fn can_send(v: ConnectionView) -> bool {
    &&& v.state == ConnectionState::Established
    &&& v.transport.selection.direction != CommunicationDirection::UnidirectionalReceive
    &&& !v.final_sent
}

/// Can Receive Data (8.1.11.3): established, not send-only, and no Final message received.
pub open spec fn can_receive(v: ConnectionView) -> bool {
    &&& v.state == ConnectionState::Established
    &&& v.transport.selection.direction != CommunicationDirection::UnidirectionalSend
    &&& !v.final_received
}

/// The properties a connection reports (`GetProperties`): its stored properties, with the
/// read-only ones filled in. With a transport stream, the maximum message size before
/// fragmentation is the queried segment size (`mss`, 1460 when the query failed) and the
/// send and receive maxima are unlimited when sending (receiving) is possible and 0
/// otherwise. Without a stream, an establishing connection reports no maxima; any other
/// reports no fragmentation maximum and maxima of 0.
pub open spec fn reported_properties(v: ConnectionView, mss: Option<usize>) -> Map<Seq<char>, ConnectionProperty> {
    let base = v.properties
        .insert("connState"@, ConnectionProperty::ConnState(v.state))
        .insert("canSend"@, ConnectionProperty::CanSend(can_send(v)))
        .insert("canReceive"@, ConnectionProperty::CanReceive(can_receive(v)));
    if v.has_stream {
        let segment = match mss {
            Some(m) => m,
            None => 1460,
        };
        base.insert("singularTransmissionMsgMaxLen"@, ConnectionProperty::SingularTransmissionMsgMaxLen(Some(segment)))
            .insert("sendMsgMaxLen"@, ConnectionProperty::SendMsgMaxLen(if can_send(v) { None } else { Some(0) }))
            .insert("recvMsgMaxLen"@, ConnectionProperty::RecvMsgMaxLen(if can_receive(v) { None } else { Some(0) }))
    } else if v.state == ConnectionState::Establishing {
        base
    } else {
        base.insert("singularTransmissionMsgMaxLen"@, ConnectionProperty::SingularTransmissionMsgMaxLen(None))
            .insert("sendMsgMaxLen"@, ConnectionProperty::SendMsgMaxLen(Some(0)))
            .insert("recvMsgMaxLen"@, ConnectionProperty::RecvMsgMaxLen(Some(0)))
    }
}

/// Law (message size maxima): a connection with a transport stream reports whether it can
/// send and receive (it can send when established, not receive-only and no Final message
/// was sent; receive when established, not send-only and no Final message was received),
/// its segment size (1460 when the query failed) as the largest message sent without
/// fragmentation, and a send (receive) maximum that is unlimited exactly when it can send
/// (receive) and 0 otherwise. A closed or closing connection without a stream reports
/// maxima of 0 and no fragmentation maximum.
pub proof fn lemma_reported_maxima(v: ConnectionView, mss: Option<usize>)
    ensures
        ({
            let r = reported_properties(v, mss);
            let sends = v.state == ConnectionState::Established
                && v.transport.selection.direction != CommunicationDirection::UnidirectionalReceive && !v.final_sent;
            let receives = v.state == ConnectionState::Established
                && v.transport.selection.direction != CommunicationDirection::UnidirectionalSend && !v.final_received;
            &&& r.dom().contains("connState"@) && r["connState"@] == ConnectionProperty::ConnState(v.state)
            &&& r.dom().contains("canSend"@) && r["canSend"@] == ConnectionProperty::CanSend(sends)
            &&& r.dom().contains("canReceive"@) && r["canReceive"@] == ConnectionProperty::CanReceive(receives)
            &&& v.has_stream ==> {
                &&& r.dom().contains("singularTransmissionMsgMaxLen"@)
                &&& r["singularTransmissionMsgMaxLen"@] == ConnectionProperty::SingularTransmissionMsgMaxLen(
                    Some(match mss { Some(m) => m, None => 1460 }))
                &&& r.dom().contains("sendMsgMaxLen"@)
                &&& (r["sendMsgMaxLen"@] == ConnectionProperty::SendMsgMaxLen(None) <==> sends)
                &&& (!sends ==> r["sendMsgMaxLen"@] == ConnectionProperty::SendMsgMaxLen(Some(0)))
                &&& r.dom().contains("recvMsgMaxLen"@)
                &&& (r["recvMsgMaxLen"@] == ConnectionProperty::RecvMsgMaxLen(None) <==> receives)
                &&& (!receives ==> r["recvMsgMaxLen"@] == ConnectionProperty::RecvMsgMaxLen(Some(0)))
            }
            &&& (!v.has_stream && v.state != ConnectionState::Establishing) ==> {
                &&& r.dom().contains("singularTransmissionMsgMaxLen"@)
                &&& r["singularTransmissionMsgMaxLen"@] == ConnectionProperty::SingularTransmissionMsgMaxLen(None)
                &&& r.dom().contains("sendMsgMaxLen"@)
                &&& r["sendMsgMaxLen"@] == ConnectionProperty::SendMsgMaxLen(Some(0))
                &&& r.dom().contains("recvMsgMaxLen"@)
                &&& r["recvMsgMaxLen"@] == ConnectionProperty::RecvMsgMaxLen(Some(0))
            }
        }),
{
    reveal_strlit("connState");
    reveal_strlit("canSend");
    reveal_strlit("canReceive");
    reveal_strlit("singularTransmissionMsgMaxLen");
    reveal_strlit("sendMsgMaxLen");
    reveal_strlit("recvMsgMaxLen");
    let k0 = "connState"@;
    let k1 = "canSend"@;
    let k2 = "canReceive"@;
    let k3 = "singularTransmissionMsgMaxLen"@;
    let k4 = "sendMsgMaxLen"@;
    let k5 = "recvMsgMaxLen"@;
    assert(k0.len() == 9 && k1.len() == 7 && k2.len() == 10 && k3.len() == 29 && k4.len() == 13 && k5.len() == 13);
    assert(k4[0] != k5[0]);
    let base = v.properties.insert(k0, ConnectionProperty::ConnState(v.state))
        .insert(k1, ConnectionProperty::CanSend(can_send(v)))
        .insert(k2, ConnectionProperty::CanReceive(can_receive(v)));
    assert(base[k0] == ConnectionProperty::ConnState(v.state));
    assert(base[k1] == ConnectionProperty::CanSend(can_send(v)));
}

/// The connection after an abort (or after a group abort reached it): closed, without
/// stream, with nothing queued or buffered. A closed connection is left as it is.
pub open spec fn after_abort(v: ConnectionView) -> ConnectionView {
    if v.state == ConnectionState::Closed {
        v
    } else {
        ConnectionView {
            state: ConnectionState::Closed,
            has_stream: false,
            pending: Seq::empty(),
            batched: Seq::empty(),
            receive_buffer: Seq::empty(),
            ..v
        }
    }
}

/// The connection once a close has completed: closed, without stream, with no pending
/// message and nothing buffered.
pub open spec fn after_close(v: ConnectionView) -> ConnectionView {
    ConnectionView {
        state: ConnectionState::Closed,
        has_stream: false,
        pending: Seq::empty(),
        receive_buffer: Seq::empty(),
        ..v
    }
}

/// The message as it is sent: with the next message identifier if it had none.
pub open spec fn numbered(v: ConnectionView, m: MessageView) -> MessageView {
    if m.id is None {
        MessageView { id: Some(v.next_message_id), ..m }
    } else {
        m
    }
}

/// The message-identifier counter after numbering `m`.
pub open spec fn next_id_after(v: ConnectionView, m: MessageView) -> u64 {
    if m.id is None {
        ((v.next_message_id + 1) % 0x1_0000_0000_0000_0000) as u64
    } else {
        v.next_message_id
    }
}

/// The context of a message received on a connection: it names the connection's remote
/// endpoint, and no local endpoint; primary path, no ECN marking, not early data, no
/// interface timestamp (the receipt time is the clock's).
pub open spec fn receipt_context(c: MessageContext, v: ConnectionView) -> bool {
    &&& remote_ids(c.remote_endpoint) == v.remote_endpoint
    &&& c.local_endpoint is None
    &&& c.primary_path
    &&& c.ecn is None
    &&& !c.early_data
    &&& c.interface_timestamp is None
}

/// Any identifier of `a` equals some identifier of `b`.
pub open spec fn shares_identifier(a: Seq<EndpointIdentifier>, b: Seq<EndpointIdentifier>) -> bool {
    exists|i: int, j: int| 0 <= i < a.len() && 0 <= j < b.len() && same_identifier(#[trigger] a[i], #[trigger] b[j])
}

/// What a send does with a message.
pub enum SendStep {
    /// Transmit this message now.
    Transmit(Message),
    /// The message is held (batched, or queued until establishment).
    Held,
    /// The message expired before it could be sent; it had this identifier.
    Expired(Option<u64>),
    /// The send is refused with this error.
    Refused(TapsError),
}

/// What a receive finds.
pub enum ReceiveStep {
    /// A complete message is available.
    Deliver(Message, MessageContext),
    /// More data must be read from the transport first.
    NeedData,
    /// The receive fails with this error.
    Failed(TapsError),
}

fn ids_overlap(a: &Vec<EndpointIdentifier>, b: &Vec<EndpointIdentifier>) -> (r: bool)
    ensures
        r == shares_identifier(a@, b@),
{
    let mut i: usize = 0;
    while i < a.len()
        invariant
            i <= a@.len(),
            forall|x: int, y: int| 0 <= x < i && 0 <= y < b@.len() ==> !same_identifier(#[trigger] a@[x], #[trigger] b@[y]),
        decreases a@.len() - i,
    {
        let mut j: usize = 0;
        while j < b.len()
            invariant
                i < a@.len(),
                j <= b@.len(),
                forall|x: int, y: int| 0 <= x < i && 0 <= y < b@.len() ==> !same_identifier(#[trigger] a@[x], #[trigger] b@[y]),
                forall|y: int| 0 <= y < j ==> !same_identifier(a@[i as int], #[trigger] b@[y]),
            decreases b@.len() - j,
        {
            if a[i] == b[j] {
                assert(same_identifier(a@[i as int], b@[j as int]));
                return true;
            }
            j += 1;
        }
        i += 1;
    }
    false
}

fn string_is(a: &str, lit: &str) -> (r: bool)
    ensures
        r == (a@ == lit@),
{
    String::from_str(a) == String::from_str(lit)
}

impl Connection {
    /// A connection with the given state, endpoints and transport properties, and
    /// otherwise fresh: no stream, nothing queued, default properties, message identifiers
    /// starting at 1.
    pub fn new_with_data(
        state: ConnectionState,
        local_endpoint: Option<LocalEndpoint>,
        remote_endpoint: Option<RemoteEndpoint>,
        transport_properties: TransportProperties,
    ) -> (r: Self)
        ensures
            r@.state == state,
            r@.local_endpoint == local_ids(local_endpoint),
            r@.remote_endpoint == remote_ids(remote_endpoint),
            r@.transport == transport_properties@,
            !r@.has_stream,
            r@.pending == Seq::<MessageView>::empty(),
            r@.group is None,
            !r@.batch_mode,
            r@.batched == Seq::<MessageView>::empty(),
            r@.next_message_id == 1,
            r@.framer_count == 0,
            r@.receive_buffer == Seq::<u8>::empty(),
            r@.properties == crate::connection_properties::default_properties(),
            !r@.final_sent,
            !r@.final_received,
    {
        let r = Connection {
            state,
            local_endpoint,
            remote_endpoint,
            transport_properties,
            has_stream: false,
            pending_messages: Vec::new(),
            group: None,
            batch_mode: false,
            batched_messages: Vec::new(),
            next_message_id: 1,
            framers: FramerStack::new(),
            receive_buffer: Vec::new(),
            properties: ConnectionProperties::new(),
            final_message_sent: false,
            final_message_received: false,
        };
        assert(r@.pending =~= Seq::<MessageView>::empty());
        assert(r@.batched =~= Seq::<MessageView>::empty());
        r
    }

    /// The current state.
    pub fn state(&self) -> (r: ConnectionState)
        ensures
            r == self@.state,
    {
        self.state
    }

    /// Whether a transport stream is attached.
    pub fn has_stream(&self) -> (r: bool)
        ensures
            r == self@.has_stream,
    {
        self.has_stream
    }

    fn take_message_id(&mut self) -> (r: u64)
        ensures
            r == old(self)@.next_message_id,
            final(self)@ == (ConnectionView {
                next_message_id: ((old(self)@.next_message_id + 1) % 0x1_0000_0000_0000_0000) as u64,
                ..old(self)@
            }),
    {
        let id = self.next_message_id;
        self.next_message_id = self.next_message_id.wrapping_add(1);
        id
    }

    /// Send (RFC 9622 Section 9.2). The message gets the next identifier if it has none.
    /// An expired message is not sent. On an established connection the message is
    /// batched when batching is on, else transmitted; on an establishing connection it is
    /// queued until establishment; on a closing or closed connection the send is refused.
    pub fn send(&mut self, message: Message, expired: bool) -> (r: SendStep)
        ensures
            ({
                let v = old(self)@;
                let m = numbered(v, message@);
                let w = ConnectionView { next_message_id: next_id_after(v, message@), ..v };
                if expired {
                    r == SendStep::Expired(m.id) && final(self)@ == w
                } else if v.state == ConnectionState::Established && v.batch_mode {
                    r is Held && final(self)@ == (ConnectionView { batched: w.batched.push(m), ..w })
                } else if v.state == ConnectionState::Established {
                    r matches SendStep::Transmit(t) && t@ == m && final(self)@ == w
                } else if v.state == ConnectionState::Establishing {
                    r is Held && final(self)@ == (ConnectionView { pending: w.pending.push(m), ..w })
                } else {
                    r matches SendStep::Refused(TapsError::InvalidState(e)) && e@ == "Cannot send on a closed connection"@
                        && final(self)@ == w
                }
            }),
    {
        let message = if message.id().is_none() {
            let id = self.take_message_id();
            message.with_id(id)
        } else {
            message
        };
        if expired {
            return SendStep::Expired(message.id());
        }
        match self.state {
            ConnectionState::Established => {
                if self.batch_mode {
                    let ghost old_batched = self.batched_messages@;
                    self.batched_messages.push(message);
                    assert(message_views(self.batched_messages@) =~= message_views(old_batched).push(self.batched_messages@.last()@));
                    SendStep::Held
                } else {
                    SendStep::Transmit(message)
                }
            },
            ConnectionState::Establishing => {
                let ghost old_pending = self.pending_messages@;
                self.pending_messages.push(message);
                assert(message_views(self.pending_messages@) =~= message_views(old_pending).push(self.pending_messages@.last()@));
                SendStep::Held
            },
            _ => SendStep::Refused(TapsError::InvalidState(String::from_str("Cannot send on a closed connection"))),
        }
    }

    /// The bytes to write for a message: through the framers when there are any, else the
    /// message data. A Final message marks the connection as having sent its Final message.
    /// Without a stream there is nothing to write to, and the transmission fails.
    pub fn transmission(&mut self, message: &Message) -> (r: Result<Vec<u8>>)
        ensures
            final(self)@ == (ConnectionView {
                final_sent: old(self)@.final_sent || message@.properties.final_message,
                ..old(self)@
            }),
            old(self)@.has_stream ==> (r matches Ok(bytes) && bytes@ == (if old(self)@.framer_count == 0 {
                message@.data
            } else {
                stack_frame(old(self).framers(), message@.data)
            })),
            !old(self)@.has_stream ==> (r matches Err(TapsError::InvalidState(e)) && e@ == "No active stream"@),
    {
        if message.properties().final_message {
            self.final_message_sent = true;
        }
        let data = if !self.framers.is_empty() {
            let context = MessageContext::new();
            match self.framers.frame_message(message, &context) {
                Ok(bytes) => bytes,
                Err(e) => return Err(e),
            }
        } else {
            vstd::slice::slice_to_vec(message.data())
        };
        if self.has_stream {
            Ok(data)
        } else {
            Err(TapsError::InvalidState(String::from_str("No active stream")))
        }
    }

    /// Starts batching sends (RFC 9622 Section 9.2.4).
    pub fn start_batch(&mut self) -> (r: Result<()>)
        ensures
            r is Ok,
            final(self)@ == (ConnectionView { batch_mode: true, ..old(self)@ }),
    {
        self.batch_mode = true;
        Ok(())
    }

    /// Ends batching: hands back the batched messages, in order, for transmission.
    pub fn end_batch(&mut self) -> (r: Vec<Message>)
        ensures
            message_views(r@) == old(self)@.batched,
            final(self)@ == (ConnectionView { batch_mode: false, batched: Seq::empty(), ..old(self)@ }),
    {
        self.batch_mode = false;
        let mut batched: Vec<Message> = Vec::new();
        std::mem::swap(&mut batched, &mut self.batched_messages);
        assert(message_views(self.batched_messages@) =~= Seq::<MessageView>::empty());
        batched
    }

    /// Adds a length-prefix framer to the connection's framers.
    pub fn use_length_prefix_framer(&mut self) -> (r: Result<()>)
        ensures
            r is Ok,
            final(self)@ == (ConnectionView { framer_count: old(self)@.framer_count + 1, ..old(self)@ }),
    {
        self.framers.add_framer(LengthPrefixFramer::new());
        Ok(())
    }

    /// The framers of the connection.
    pub closed spec fn framers(&self) -> Seq<LengthPrefixFramer> {
        self.framers@
    }

    /// Receive (RFC 9622 Section 9.3.1), as far as the buffered data allows. A closing or
    /// closed connection refuses. With nothing buffered, data must be read first. With
    /// framers, a length-prefixed message is taken from the front of the buffer once it is
    /// complete; a message longer than `max_length` is removed from the buffer and refused
    /// with `MessageTooLarge`. Without framers, all buffered data is one message. The
    /// context of a delivered message names the connection's remote endpoint.
    pub fn receive_step(&mut self, max_length: Option<usize>) -> (r: ReceiveStep)
        ensures
            ({
                let v = old(self)@;
                let buf = v.receive_buffer;
                if !is_open(v.state) {
                    r matches ReceiveStep::Failed(TapsError::InvalidState(e))
                        && e@ == "Cannot receive on a closed connection"@ && final(self)@ == v
                } else if buf.len() == 0 {
                    r is NeedData && final(self)@ == v
                } else if v.framer_count > 0 {
                    if buf.len() < 4 || buf.len() - 4 < be32(buf) {
                        r is NeedData && final(self)@ == v
                    } else {
                        let n = be32(buf);
                        &&& final(self)@ == (ConnectionView { receive_buffer: buf.skip(4 + n), ..v })
                        &&& match max_length {
                            Some(max) if n > max => r matches ReceiveStep::Failed(TapsError::MessageTooLarge(e))
                                && e@ == "Message size "@ + decimal(n as nat) + " exceeds max length "@ + decimal(max as nat),
                            _ => r matches ReceiveStep::Deliver(m, c) && m@ == fresh_message(buf.subrange(4, 4 + n))
                                && receipt_context(c, v),
                        }
                    }
                } else {
                    &&& r matches ReceiveStep::Deliver(m, c) && m@ == fresh_message(buf)
                        && receipt_context(c, v)
                    &&& final(self)@ == (ConnectionView { receive_buffer: Seq::empty(), ..v })
                }
            }),
    {
        match self.state {
            ConnectionState::Established | ConnectionState::Establishing => {},
            _ => {
                return ReceiveStep::Failed(TapsError::InvalidState(String::from_str("Cannot receive on a closed connection")));
            },
        }
        let len = self.receive_buffer.len();
        if len == 0 {
            return ReceiveStep::NeedData;
        }
        if !self.framers.is_empty() {
            if len < 4 {
                return ReceiveStep::NeedData;
            }
            let n = ((self.receive_buffer[0] as u32) * 16777216 + (self.receive_buffer[1] as u32) * 65536
                + (self.receive_buffer[2] as u32) * 256 + (self.receive_buffer[3] as u32)) as usize;
            assert(n == be32(self.receive_buffer@));
            if len - 4 < n {
                return ReceiveStep::NeedData;
            }
            let message = Message::from_bytes(vstd::slice::slice_subrange(self.receive_buffer.as_slice(), 4, 4 + n));
            let context = self.context_for_receipt();
            let rest = self.receive_buffer.split_off(4 + n);
            self.receive_buffer = rest;
            match max_length {
                Some(max) => {
                    if n > max {
                        let text = String::from_str("Message size ").concat(decimal_text(n).as_str())
                            .concat(" exceeds max length ").concat(decimal_text(max).as_str());
                        return ReceiveStep::Failed(TapsError::MessageTooLarge(text));
                    }
                },
                None => {},
            }
            ReceiveStep::Deliver(message, context)
        } else {
            let message = Message::from_bytes(self.receive_buffer.as_slice());
            let context = self.context_for_receipt();
            self.receive_buffer.clear();
            ReceiveStep::Deliver(message, context)
        }
    }

    fn context_for_receipt(&self) -> (c: MessageContext)
        ensures
            receipt_context(c, self@),
    {
        let mut context = MessageContext::new();
        context.remote_endpoint = match &self.remote_endpoint {
            Some(e) => Some(e.clone()),
            None => None,
        };
        context
    }

    /// Appends data read from the transport to the receive buffer.
    pub fn add_received(&mut self, data: &[u8])
        ensures
            final(self)@ == (ConnectionView { receive_buffer: old(self)@.receive_buffer + data@, ..old(self)@ }),
    {
        let mut incoming = vstd::slice::slice_to_vec(data);
        self.receive_buffer.append(&mut incoming);
    }

    /// The peer closed the transport.
    pub fn peer_closed(&mut self)
        ensures
            final(self)@ == (ConnectionView { state: ConnectionState::Closed, ..old(self)@ }),
    {
        self.state = ConnectionState::Closed;
    }

    /// First half of Close (RFC 9622 Section 10): an open connection enters Closing and
    /// hands back its batched messages, to be sent before the close completes. A closing or
    /// closed connection is left as it is.
    pub fn begin_close(&mut self) -> (r: Option<Vec<Message>>)
        ensures
            is_open(old(self)@.state) ==> (r matches Some(b) && message_views(b@) == old(self)@.batched
                && final(self)@ == (ConnectionView { state: ConnectionState::Closing, batched: Seq::empty(), ..old(self)@ })),
            !is_open(old(self)@.state) ==> r is None && final(self)@ == old(self)@,
    {
        match self.state {
            ConnectionState::Established | ConnectionState::Establishing => {
                self.state = ConnectionState::Closing;
                let mut batched: Vec<Message> = Vec::new();
                std::mem::swap(&mut batched, &mut self.batched_messages);
                assert(message_views(self.batched_messages@) =~= Seq::<MessageView>::empty());
                Some(batched)
            },
            _ => None,
        }
    }

    /// Second half of Close: the connection is Closed, its stream released, its pending
    /// messages and receive buffer dropped.
    pub fn finish_close(&mut self)
        ensures
            final(self)@ == after_close(old(self)@),
    {
        self.state = ConnectionState::Closed;
        self.pending_messages.clear();
        self.receive_buffer.clear();
        self.has_stream = false;
        assert(message_views(self.pending_messages@) =~= Seq::<MessageView>::empty());
    }

    /// First half of a group close for one member: an open connection enters Closing and
    /// drops its batched messages (they are not sent); otherwise nothing changes.
    pub fn begin_group_close(&mut self) -> (r: bool)
        ensures
            r == is_open(old(self)@.state),
            r ==> final(self)@ == (ConnectionView { state: ConnectionState::Closing, batched: Seq::empty(), ..old(self)@ }),
            !r ==> final(self)@ == old(self)@,
    {
        match self.state {
            ConnectionState::Established | ConnectionState::Establishing => {
                self.state = ConnectionState::Closing;
                self.batched_messages.clear();
                assert(message_views(self.batched_messages@) =~= Seq::<MessageView>::empty());
                true
            },
            _ => false,
        }
    }

    /// Abort (RFC 9622 Section 10): unless already closed, the connection is Closed at
    /// once, its stream dropped and everything queued or buffered discarded. Says whether
    /// it did anything.
    pub fn abort(&mut self) -> (r: bool)
        ensures
            r == (old(self)@.state != ConnectionState::Closed),
            final(self)@ == after_abort(old(self)@),
    {
        if let ConnectionState::Closed = self.state {
            return false;
        }
        self.state = ConnectionState::Closed;
        self.has_stream = false;
        self.pending_messages.clear();
        self.batched_messages.clear();
        self.receive_buffer.clear();
        assert(message_views(self.pending_messages@) =~= Seq::<MessageView>::empty());
        assert(message_views(self.batched_messages@) =~= Seq::<MessageView>::empty());
        true
    }

    /// Whether the connection can be cloned into its group (RFC 9622 Section 7.4): only an
    /// established connection can.
    pub fn check_clone(&self) -> (r: Result<()>)
        ensures
            self@.state == ConnectionState::Established ==> r is Ok,
            self@.state != ConnectionState::Established ==> (r matches Err(TapsError::InvalidState(e))
                && e@ == "Can only clone established connections"@),
    {
        match self.state {
            ConnectionState::Established => Ok(()),
            _ => Err(TapsError::InvalidState(String::from_str("Can only clone established connections"))),
        }
    }

    /// The group bookkeeping of the original connection when it is cloned (RFC 9622
    /// Section 7.4). Only an established connection can be cloned. One already in a
    /// group keeps it (`Ok(None)`). Otherwise a new group is made with the connection's
    /// transport properties and endpoints; the connection joins it and is counted in it,
    /// and the group is returned for the clone to join.
    pub fn group_for_clone(&mut self) -> (r: Result<Option<ConnectionGroup>>)
        ensures
            old(self)@.state != ConnectionState::Established ==> (r matches Err(TapsError::InvalidState(e))
                && e@ == "Can only clone established connections"@ && final(self)@ == old(self)@),
            old(self)@.state == ConnectionState::Established && old(self)@.group is Some ==> (r matches Ok(None)
                && final(self)@ == old(self)@),
            old(self)@.state == ConnectionState::Established && old(self)@.group is None ==> (r matches Ok(Some(g))
                && g.connection_count == 1
                && g.transport_properties@ == old(self)@.transport
                && g.local_endpoints@.map_values(|e: LocalEndpoint| e.identifiers@) == (match old(self)@.local_endpoint {
                    Some(ids) => seq![ids],
                    None => Seq::<Seq<EndpointIdentifier>>::empty(),
                })
                && g.remote_endpoints@.map_values(|e: RemoteEndpoint| (e.identifiers@, e.protocol)) == (match old(self)@.remote_endpoint {
                    Some(x) => seq![x],
                    None => Seq::<(Seq<EndpointIdentifier>, Option<Protocol>)>::empty(),
                })
                && !g.multistreaming_capable
                && final(self)@ == (ConnectionView { group: Some(g.id), ..old(self)@ })),
    {
        self.check_clone()?;
        if self.group.is_some() {
            return Ok(None);
        }
        let mut locals: Vec<LocalEndpoint> = Vec::new();
        if let Some(e) = &self.local_endpoint {
            locals.push(e.clone());
        }
        let mut remotes: Vec<RemoteEndpoint> = Vec::new();
        if let Some(e) = &self.remote_endpoint {
            remotes.push(e.clone());
        }
        let ghost lv = self@.local_endpoint;
        let ghost rv = self@.remote_endpoint;
        let mut group = ConnectionGroup::new(self.transport_properties.clone(), locals, remotes);
        group.add_connection();
        assert(group.local_endpoints@.map_values(|e: LocalEndpoint| e.identifiers@) =~= (match lv {
            Some(ids) => seq![ids],
            None => Seq::<Seq<EndpointIdentifier>>::empty(),
        }));
        assert(group.remote_endpoints@.map_values(|e: RemoteEndpoint| (e.identifiers@, e.protocol)) =~= (match rv {
            Some(x) => seq![x],
            None => Seq::<(Seq<EndpointIdentifier>, Option<Protocol>)>::empty(),
        }));
        self.group = Some(group.id);
        Ok(Some(group))
    }

    /// The group bookkeeping of a new connection made by cloning: it joins the original's
    /// group, takes the group's shared transport properties, and is counted in the group.
    pub fn join_clone(&mut self, group: &mut ConnectionGroup)
        ensures
            final(self)@ == (ConnectionView {
                group: Some(old(group).id),
                transport: old(group).transport_properties@,
                ..old(self)@
            }),
            *final(group) == (ConnectionGroup {
                connection_count: ((old(group).connection_count + 1) % 0x1_0000_0000_0000_0000) as u64,
                ..*old(group)
            }),
    {
        self.group = Some(group.id);
        self.transport_properties = group.transport_properties.clone();
        group.add_connection();
    }

    /// Makes the connection a member of a group.
    pub fn join_group(&mut self, id: ConnectionGroupId)
        ensures
            final(self)@ == (ConnectionView { group: Some(id), ..old(self)@ }),
    {
        self.group = Some(id);
    }

    /// Replaces the connection's transport properties (with the group's shared ones).
    pub fn set_transport_properties(&mut self, properties: TransportProperties)
        ensures
            final(self)@ == (ConnectionView { transport: properties@, ..old(self)@ }),
    {
        self.transport_properties = properties;
    }

    /// The connection's transport properties.
    pub fn transport_properties(&self) -> (r: &TransportProperties)
        ensures
            r@ == self@.transport,
    {
        &self.transport_properties
    }

    /// The identifier of the connection's group, if it is grouped.
    pub fn connection_group_id(&self) -> (r: Option<ConnectionGroupId>)
        ensures
            r == self@.group,
    {
        self.group
    }

    /// Whether the connection belongs to a group.
    pub fn is_grouped(&self) -> (r: bool)
        ensures
            r == self@.group is Some,
    {
        self.group.is_some()
    }

    /// AddRemote (RFC 9622 Section 7.5). On an open connection: an endpoint sharing an
    /// identifier with the current remote endpoint is already known and ignored; otherwise,
    /// while establishing without a stream, it replaces the remote endpoint for the next
    /// attempt; otherwise it is acknowledged and not used. A closing or closed connection
    /// refuses. `Ok(true)` says the remote endpoint was replaced, a path change to report.
    pub fn add_remote(&mut self, endpoint: RemoteEndpoint) -> (r: Result<bool>)
        ensures
            ({
                let v = old(self)@;
                if !is_open(v.state) {
                    r matches Err(TapsError::InvalidState(e)) && e@ == "Cannot add endpoints to a closed connection"@
                        && final(self)@ == v
                } else if (v.remote_endpoint matches Some(cur) && shares_identifier(endpoint.identifiers@, cur.0)) {
                    r == Ok::<bool, TapsError>(false) && final(self)@ == v
                } else if v.state == ConnectionState::Establishing && !v.has_stream {
                    r == Ok::<bool, TapsError>(true) && final(self)@ == (ConnectionView { remote_endpoint: remote_ids(Some(endpoint)), ..v })
                } else {
                    r == Ok::<bool, TapsError>(false) && final(self)@ == v
                }
            }),
    {
        match self.state {
            ConnectionState::Established | ConnectionState::Establishing => {},
            _ => return Err(TapsError::InvalidState(String::from_str("Cannot add endpoints to a closed connection"))),
        }
        if let Some(current) = &self.remote_endpoint {
            if ids_overlap(&endpoint.identifiers, &current.identifiers) {
                return Ok(false);
            }
        }
        let establishing = match self.state {
            ConnectionState::Establishing => true,
            _ => false,
        };
        if establishing && !self.has_stream {
            self.remote_endpoint = Some(endpoint);
            return Ok(true);
        }
        Ok(false)
    }

    /// Adds a local endpoint, as `add_remote` does for remote ones.
    pub fn add_local(&mut self, endpoint: LocalEndpoint) -> (r: Result<()>)
        ensures
            ({
                let v = old(self)@;
                if !is_open(v.state) {
                    r matches Err(TapsError::InvalidState(e)) && e@ == "Cannot add endpoints to a closed connection"@
                        && final(self)@ == v
                } else if (v.local_endpoint matches Some(cur) && shares_identifier(endpoint.identifiers@, cur)) {
                    r is Ok && final(self)@ == v
                } else if v.state == ConnectionState::Establishing && !v.has_stream {
                    r is Ok && final(self)@ == (ConnectionView { local_endpoint: local_ids(Some(endpoint)), ..v })
                } else {
                    r is Ok && final(self)@ == v
                }
            }),
    {
        match self.state {
            ConnectionState::Established | ConnectionState::Establishing => {},
            _ => return Err(TapsError::InvalidState(String::from_str("Cannot add endpoints to a closed connection"))),
        }
        if let Some(current) = &self.local_endpoint {
            if ids_overlap(&endpoint.identifiers, &current.identifiers) {
                return Ok(());
            }
        }
        let establishing = match self.state {
            ConnectionState::Establishing => true,
            _ => false,
        };
        if establishing && !self.has_stream {
            self.local_endpoint = Some(endpoint);
        }
        Ok(())
    }

    /// The transport stream is established: the connection becomes Established, takes the
    /// local endpoint of the stream when one is known, and hands back its queued messages,
    /// in order, for transmission.
    pub fn on_established(&mut self, local: Option<LocalEndpoint>) -> (r: Vec<Message>)
        ensures
            message_views(r@) == old(self)@.pending,
            final(self)@ == (ConnectionView {
                state: ConnectionState::Established,
                has_stream: true,
                pending: Seq::empty(),
                local_endpoint: if local is Some { local_ids(local) } else { old(self)@.local_endpoint },
                ..old(self)@
            }),
    {
        self.has_stream = true;
        self.state = ConnectionState::Established;
        if local.is_some() {
            self.local_endpoint = local;
        }
        let mut pending: Vec<Message> = Vec::new();
        std::mem::swap(&mut pending, &mut self.pending_messages);
        assert(message_views(self.pending_messages@) =~= Seq::<MessageView>::empty());
        pending
    }

    /// Establishment failed or timed out: the connection is Closed.
    pub fn on_establish_failed(&mut self)
        ensures
            final(self)@ == (ConnectionView { state: ConnectionState::Closed, ..old(self)@ }),
    {
        self.state = ConnectionState::Closed;
    }

    /// The local endpoint, if known.
    pub fn local_endpoint(&self) -> (r: Option<LocalEndpoint>)
        ensures
            local_ids(r) == self@.local_endpoint,
    {
        match &self.local_endpoint {
            Some(e) => Some(e.clone()),
            None => None,
        }
    }

    /// The remote endpoint, if known.
    pub fn remote_endpoint(&self) -> (r: Option<RemoteEndpoint>)
        ensures
            remote_ids(r) == self@.remote_endpoint,
    {
        match &self.remote_endpoint {
            Some(e) => Some(e.clone()),
            None => None,
        }
    }

    /// SetProperty (RFC 9622 Section 8). Read-only properties are refused and nothing
    /// changes. Setting `connTimeout` to a duration also makes the TCP user timeout no
    /// longer changeable (8.2.3).
    pub fn set_property(&mut self, key: &str, value: ConnectionProperty) -> (r: Result<()>)
        ensures
            is_read_only(key@) ==> (r matches Err(TapsError::InvalidParameters(m))
                && m@ == crate::connection_properties::read_only_message(key@)
                && final(self)@ == old(self)@),
            !is_read_only(key@) ==> r is Ok && final(self)@ == (ConnectionView {
                properties: if key@ == "connTimeout"@ && (value matches ConnectionProperty::ConnTimeout(TimeoutValue::Duration(_))) {
                    old(self)@.properties.insert(key@, value).insert(
                        "tcp.userTimeoutChangeable"@,
                        ConnectionProperty::TcpUserTimeoutChangeable(false),
                    )
                } else {
                    old(self)@.properties.insert(key@, value)
                },
                ..old(self)@
            }),
    {
        match self.properties.set(key, value) {
            Ok(()) => {},
            Err(e) => return Err(e),
        }
        if string_is(key, "connTimeout") {
            if let ConnectionProperty::ConnTimeout(TimeoutValue::Duration(_)) = value {
                proof { reveal_strlit("tcp.userTimeoutChangeable"); reveal_strlit("connState"); reveal_strlit("canSend");
                    reveal_strlit("canReceive"); reveal_strlit("singularTransmissionMsgMaxLen");
                    reveal_strlit("sendMsgMaxLen"); reveal_strlit("recvMsgMaxLen"); }
                let _ = self.properties.set("tcp.userTimeoutChangeable", ConnectionProperty::TcpUserTimeoutChangeable(false));
            }
        }
        Ok(())
    }

    /// Applies a property set on another member of the connection's group: stored as it
    /// is when it is not read-only; a read-only property is ignored.
    pub fn apply_group_property(&mut self, key: &str, value: ConnectionProperty)
        ensures
            is_read_only(key@) ==> final(self)@ == old(self)@,
            !is_read_only(key@) ==> final(self)@ == (ConnectionView { properties: old(self)@.properties.insert(key@, value), ..old(self)@ }),
    {
        let _ = self.properties.set(key, value);
    }

    /// GetProperties (RFC 9622 Section 8): the stored properties with the read-only ones
    /// filled in. `mss` is the transport's maximum segment size, when the query succeeded.
    pub fn get_properties(&self, mss: Option<usize>) -> (r: ConnectionProperties)
        ensures
            r@ == reported_properties(self@, mss),
    {
        let mut props = self.properties.clone();
        let direction = self.transport_properties.selection_properties.direction;
        let established = match self.state {
            ConnectionState::Established => true,
            _ => false,
        };
        let can_send = established && !(match direction {
            CommunicationDirection::UnidirectionalReceive => true,
            _ => false,
        }) && !self.final_message_sent;
        let can_receive = established && !(match direction {
            CommunicationDirection::UnidirectionalSend => true,
            _ => false,
        }) && !self.final_message_received;
        props.update_readonly(self.state, can_send, can_receive);
        if self.has_stream {
            let segment = match mss {
                Some(m) => m,
                None => 1460,
            };
            props.put("singularTransmissionMsgMaxLen", ConnectionProperty::SingularTransmissionMsgMaxLen(Some(segment)));
            props.put("sendMsgMaxLen", ConnectionProperty::SendMsgMaxLen(if can_send { None } else { Some(0) }));
            props.put("recvMsgMaxLen", ConnectionProperty::RecvMsgMaxLen(if can_receive { None } else { Some(0) }));
        } else {
            let establishing = match self.state {
                ConnectionState::Establishing => true,
                _ => false,
            };
            if !establishing {
                props.put("singularTransmissionMsgMaxLen", ConnectionProperty::SingularTransmissionMsgMaxLen(None));
                props.put("sendMsgMaxLen", ConnectionProperty::SendMsgMaxLen(Some(0)));
                props.put("recvMsgMaxLen", ConnectionProperty::RecvMsgMaxLen(Some(0)));
            }
        }
        props
    }

    /// The value of one property, as `get_properties` reports it.
    pub fn get_property(&self, key: &str, mss: Option<usize>) -> (r: Option<ConnectionProperty>)
        ensures
            r is Some <==> reported_properties(self@, mss).dom().contains(key@),
            r matches Some(v) ==> v == reported_properties(self@, mss)[key@],
    {
        let props = self.get_properties(mss);
        match props.get(key) {
            Some(v) => Some(*v),
            None => None,
        }
    }
}

/// Whether a property set on one connection of a group is also set on the others: every
/// property except the connection priority is shared.
pub fn shares_with_group(key: &str) -> (r: bool)
    ensures
        r == (key@ != "connPriority"@),
{
    !string_is(key, "connPriority")
}

/// Law: aborting an aborted connection changes nothing more.
pub proof fn lemma_abort_idempotent(v: ConnectionView)
    ensures
        after_abort(after_abort(v)) == after_abort(v),
{
}

/// Law: once aborted, or once its close has completed, a connection can neither send nor
/// receive, and holds nothing to send or to deliver.
pub proof fn lemma_closed_connection_is_silent(v: ConnectionView)
    ensures
        !can_send(after_abort(v)),
        !can_receive(after_abort(v)),
        !can_send(after_close(v)),
        !can_receive(after_close(v)),
        after_close(v).pending.len() == 0,
        after_close(v).receive_buffer.len() == 0,
        v.state != ConnectionState::Closed ==> after_abort(v).pending.len() == 0 && after_abort(v).batched.len() == 0
            && after_abort(v).receive_buffer.len() == 0,
{
}

/// Law: two messages without identifiers, sent one after the other, get consecutive
/// identifiers (wrapping at 2^64).
pub proof fn lemma_consecutive_message_ids(v: ConnectionView, a: MessageView, b: MessageView)
    requires
        a.id is None,
        b.id is None,
    ensures
        ({
            let w = ConnectionView { next_message_id: next_id_after(v, a), ..v };
            &&& numbered(v, a).id == Some(v.next_message_id)
            &&& numbered(w, b).id == Some(((v.next_message_id + 1) % 0x1_0000_0000_0000_0000) as u64)
        }),
{
}

/// Law: closed is terminal. Aborting a closed connection leaves it exactly as it is; it is
/// not open, so closing, sending, receiving and adding endpoints refuse or leave it as it
/// is; and completing a close leaves it closed.
pub proof fn lemma_closed_is_terminal(v: ConnectionView)
    requires
        v.state == ConnectionState::Closed,
    ensures
        after_abort(v) == v,
        !is_open(v.state),
        !can_send(v),
        !can_receive(v),
        after_close(v).state == ConnectionState::Closed,
{
}

/// Law: once a Final message has been transmitted, the connection can no longer send.
pub proof fn lemma_final_message_ends_sending(v: ConnectionView, m: MessageView)
    requires
        m.properties.final_message,
    ensures
        !can_send(ConnectionView { final_sent: v.final_sent || m.properties.final_message, ..v }),
{
}

/// Law (what a receive gives back of a send): the bytes that a connection with one
/// length-prefix framer transmits for a message, arriving at a peer that frames too and
/// has `rest` after them, are a complete frame: the receive takes exactly that frame
/// from the buffer, leaves `rest`, and delivers a message with the sent data.
pub proof fn lemma_transmitted_message_is_received(framers: Seq<LengthPrefixFramer>, data: Seq<u8>, rest: Seq<u8>)
    requires
        framers.len() == 1,
        data.len() < 4294967296,
    ensures
        ({
            let buf = stack_frame(framers, data) + rest;
            let n = be32(buf);
            &&& buf.len() >= 4
            &&& buf.len() - 4 >= n
            &&& n == data.len()
            &&& fresh_message(buf.subrange(4, 4 + n)).data == data
            &&& buf.skip(4 + n) == rest
        }),
{
    assert(framers.skip(1).len() == 0);
    assert(stack_frame(framers.skip(1), data) == data);
    assert(stack_frame(framers, data) == frame(data));
    crate::framer::lemma_frame_layout(data, rest);
}

/// Law: the properties a connection reports always give its current state and whether
/// it can send and receive.
pub proof fn lemma_reported_state(v: ConnectionView, mss: Option<usize>)
    ensures
        reported_properties(v, mss)["connState"@] == ConnectionProperty::ConnState(v.state),
        reported_properties(v, mss)["canSend"@] == ConnectionProperty::CanSend(can_send(v)),
        reported_properties(v, mss)["canReceive"@] == ConnectionProperty::CanReceive(can_receive(v)),
{
    reveal_strlit("connState");
    reveal_strlit("canSend");
    reveal_strlit("canReceive");
    reveal_strlit("singularTransmissionMsgMaxLen");
    reveal_strlit("sendMsgMaxLen");
    reveal_strlit("recvMsgMaxLen");
    assert("connState"@.len() == 9 && "canSend"@.len() == 7 && "canReceive"@.len() == 10);
    assert("singularTransmissionMsgMaxLen"@.len() == 29 && "sendMsgMaxLen"@.len() == 13 && "recvMsgMaxLen"@.len() == 13);
    let base = v.properties
        .insert("connState"@, ConnectionProperty::ConnState(v.state))
        .insert("canSend"@, ConnectionProperty::CanSend(can_send(v)))
        .insert("canReceive"@, ConnectionProperty::CanReceive(can_receive(v)));
    assert(base["connState"@] == ConnectionProperty::ConnState(v.state));
    assert(base["canSend"@] == ConnectionProperty::CanSend(can_send(v)));
}

} // verus!
