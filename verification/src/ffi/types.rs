//! Enumerations that cross the C interface, and their mapping from library values.

use vstd::prelude::*;
use vstd::string::StringExecFns;
use crate::error::TapsError;
use crate::types::{ConnectionEvent, ConnectionState, Preference};

verus! {

/// A preference as C callers pass it.
#[derive(Debug, Clone, Copy, PartialEq, Eq, Structural)]
pub enum TransportServicesPreference {
    Require,
    Prefer,
    NoPreference,
    Avoid,
    Prohibit,
}

impl TransportServicesPreference {
    /// The number by which C callers pass the preference.
    pub open spec fn code_of(self) -> int {
        match self {
            TransportServicesPreference::Require => 0,
            TransportServicesPreference::Prefer => 1,
            TransportServicesPreference::NoPreference => 2,
            TransportServicesPreference::Avoid => 3,
            TransportServicesPreference::Prohibit => 4,
        }
    }

    /// The number by which C callers pass the preference.
    pub fn code(&self) -> (r: i32)
        ensures
            r == self.code_of(),
    {
        match self {
            TransportServicesPreference::Require => 0,
            TransportServicesPreference::Prefer => 1,
            TransportServicesPreference::NoPreference => 2,
            TransportServicesPreference::Avoid => 3,
            TransportServicesPreference::Prohibit => 4,
        }
    }
}

/// The C preference for a library preference.
pub open spec fn preference_to_ffi(p: Preference) -> TransportServicesPreference {
    match p {
        Preference::Require => TransportServicesPreference::Require,
        Preference::Prefer => TransportServicesPreference::Prefer,
        Preference::NoPreference => TransportServicesPreference::NoPreference,
        Preference::Avoid => TransportServicesPreference::Avoid,
        Preference::Prohibit => TransportServicesPreference::Prohibit,
    }
}

/// The library preference for a C preference.
pub open spec fn preference_from_ffi(p: TransportServicesPreference) -> Preference {
    match p {
        TransportServicesPreference::Require => Preference::Require,
        TransportServicesPreference::Prefer => Preference::Prefer,
        TransportServicesPreference::NoPreference => Preference::NoPreference,
        TransportServicesPreference::Avoid => Preference::Avoid,
        TransportServicesPreference::Prohibit => Preference::Prohibit,
    }
}

impl From<Preference> for TransportServicesPreference {
    fn from(pref: Preference) -> (r: Self) {
        match pref {
            Preference::Require => TransportServicesPreference::Require,
            Preference::Prefer => TransportServicesPreference::Prefer,
            Preference::NoPreference => TransportServicesPreference::NoPreference,
            Preference::Avoid => TransportServicesPreference::Avoid,
            Preference::Prohibit => TransportServicesPreference::Prohibit,
        }
    }
}

impl vstd::std_specs::convert::FromSpecImpl<Preference> for TransportServicesPreference {
    open spec fn obeys_from_spec() -> bool {
        true
    }

    open spec fn from_spec(pref: Preference) -> Self {
        preference_to_ffi(pref)
    }
}

impl From<TransportServicesPreference> for Preference {
    fn from(pref: TransportServicesPreference) -> (r: Self) {
        match pref {
            TransportServicesPreference::Require => Preference::Require,
            TransportServicesPreference::Prefer => Preference::Prefer,
            TransportServicesPreference::NoPreference => Preference::NoPreference,
            TransportServicesPreference::Avoid => Preference::Avoid,
            TransportServicesPreference::Prohibit => Preference::Prohibit,
        }
    }
}

impl vstd::std_specs::convert::FromSpecImpl<TransportServicesPreference> for Preference {
    open spec fn obeys_from_spec() -> bool {
        true
    }

    open spec fn from_spec(pref: TransportServicesPreference) -> Self {
        preference_from_ffi(pref)
    }
}

/// Mapping a preference to C and back gives it back, and so does the other way round.
pub proof fn lemma_preference_round_trip(p: Preference, q: TransportServicesPreference)
    ensures
        preference_from_ffi(preference_to_ffi(p)) == p,
        preference_to_ffi(preference_from_ffi(q)) == q,
{
}

/// A connection state as C callers see it.
#[derive(Debug, Clone, Copy, PartialEq, Eq, Structural)]
pub enum TransportServicesConnectionState {
    Establishing,
    Established,
    Closing,
    Closed,
}

/// The C connection state for a library connection state.
pub open spec fn state_to_ffi(s: ConnectionState) -> TransportServicesConnectionState {
    match s {
        ConnectionState::Establishing => TransportServicesConnectionState::Establishing,
        ConnectionState::Established => TransportServicesConnectionState::Established,
        ConnectionState::Closing => TransportServicesConnectionState::Closing,
        ConnectionState::Closed => TransportServicesConnectionState::Closed,
    }
}

impl TransportServicesConnectionState {
    /// The number by which C callers see the state.
    pub open spec fn code_of(self) -> int {
        match self {
            TransportServicesConnectionState::Establishing => 0,
            TransportServicesConnectionState::Established => 1,
            TransportServicesConnectionState::Closing => 2,
            TransportServicesConnectionState::Closed => 3,
        }
    }

    /// The number by which C callers see the state.
    pub fn code(&self) -> (r: i32)
        ensures
            r == self.code_of(),
    {
        match self {
            TransportServicesConnectionState::Establishing => 0,
            TransportServicesConnectionState::Established => 1,
            TransportServicesConnectionState::Closing => 2,
            TransportServicesConnectionState::Closed => 3,
        }
    }
}

impl From<ConnectionState> for TransportServicesConnectionState {
    fn from(state: ConnectionState) -> (r: Self) {
        match state {
            ConnectionState::Establishing => TransportServicesConnectionState::Establishing,
            ConnectionState::Established => TransportServicesConnectionState::Established,
            ConnectionState::Closing => TransportServicesConnectionState::Closing,
            ConnectionState::Closed => TransportServicesConnectionState::Closed,
        }
    }
}

impl vstd::std_specs::convert::FromSpecImpl<ConnectionState> for TransportServicesConnectionState {
    open spec fn obeys_from_spec() -> bool {
        true
    }

    open spec fn from_spec(state: ConnectionState) -> Self {
        state_to_ffi(state)
    }
}

/// Result codes of the C interface.
#[derive(Debug, Clone, Copy, PartialEq, Eq, Structural)]
pub enum TransportServicesError {
    Success,
    InvalidParameters,
    EstablishmentFailed,
    ConnectionFailed,
    SendFailed,
    ReceiveFailed,
    NotSupported,
    Timeout,
    InvalidState,
    SecurityError,
    IoError,
    Unknown,
}

impl TransportServicesError {
    /// The number C callers receive for the code.
    pub open spec fn code_of(self) -> int {
        match self {
            TransportServicesError::Success => 0,
            TransportServicesError::InvalidParameters => -1,
            TransportServicesError::EstablishmentFailed => -2,
            TransportServicesError::ConnectionFailed => -3,
            TransportServicesError::SendFailed => -4,
            TransportServicesError::ReceiveFailed => -5,
            TransportServicesError::NotSupported => -6,
            TransportServicesError::Timeout => -7,
            TransportServicesError::InvalidState => -8,
            TransportServicesError::SecurityError => -9,
            TransportServicesError::IoError => -10,
            TransportServicesError::Unknown => -99,
        }
    }

    /// The number C callers receive for the code.
    pub fn code(&self) -> (r: i32)
        ensures
            r == self.code_of(),
    {
        match self {
            TransportServicesError::Success => 0,
            TransportServicesError::InvalidParameters => -1,
            TransportServicesError::EstablishmentFailed => -2,
            TransportServicesError::ConnectionFailed => -3,
            TransportServicesError::SendFailed => -4,
            TransportServicesError::ReceiveFailed => -5,
            TransportServicesError::NotSupported => -6,
            TransportServicesError::Timeout => -7,
            TransportServicesError::InvalidState => -8,
            TransportServicesError::SecurityError => -9,
            TransportServicesError::IoError => -10,
            TransportServicesError::Unknown => -99,
        }
    }
}

/// The C result code for a library error: each kind of error has its own code; the
/// kinds that have none map to `Unknown`.
pub open spec fn error_code(e: TapsError) -> TransportServicesError {
    match e {
        TapsError::InvalidParameters(_) => TransportServicesError::InvalidParameters,
        TapsError::EstablishmentFailed(_) => TransportServicesError::EstablishmentFailed,
        TapsError::ConnectionFailed(_) => TransportServicesError::ConnectionFailed,
        TapsError::SendFailed(_) => TransportServicesError::SendFailed,
        TapsError::ReceiveFailed(_) => TransportServicesError::ReceiveFailed,
        TapsError::NotSupported(_) => TransportServicesError::NotSupported,
        TapsError::Timeout => TransportServicesError::Timeout,
        TapsError::InvalidState(_) => TransportServicesError::InvalidState,
        TapsError::SecurityError(_) => TransportServicesError::SecurityError,
        TapsError::Io(_) => TransportServicesError::IoError,
        _ => TransportServicesError::Unknown,
    }
}

impl From<TapsError> for TransportServicesError {
    fn from(err: TapsError) -> (r: Self) {
        match err {
            TapsError::InvalidParameters(_) => TransportServicesError::InvalidParameters,
            TapsError::EstablishmentFailed(_) => TransportServicesError::EstablishmentFailed,
            TapsError::ConnectionFailed(_) => TransportServicesError::ConnectionFailed,
            TapsError::SendFailed(_) => TransportServicesError::SendFailed,
            TapsError::ReceiveFailed(_) => TransportServicesError::ReceiveFailed,
            TapsError::NotSupported(_) => TransportServicesError::NotSupported,
            TapsError::Timeout => TransportServicesError::Timeout,
            TapsError::InvalidState(_) => TransportServicesError::InvalidState,
            TapsError::SecurityError(_) => TransportServicesError::SecurityError,
            TapsError::Io(_) => TransportServicesError::IoError,
            _ => TransportServicesError::Unknown,
        }
    }
}

impl vstd::std_specs::convert::FromSpecImpl<TapsError> for TransportServicesError {
    open spec fn obeys_from_spec() -> bool {
        true
    }

    open spec fn from_spec(err: TapsError) -> Self {
        error_code(err)
    }
}

/// A library error never maps to `Success`.
pub proof fn lemma_error_is_not_success(e: TapsError)
    ensures
        error_code(e) != TransportServicesError::Success,
        error_code(e).code_of() < 0,
{
}

/// The kinds of connection event C callers are told of.
#[derive(Debug, Clone, Copy, PartialEq, Eq, Structural)]
pub enum TransportServicesConnectionEventType {
    Ready,
    EstablishmentError,
    ConnectionError,
    PathChange,
    SoftError,
    Closed,
    Sent,
    Expired,
    SendError,
    Received,
    ReceivedPartial,
}

/// The kind and the text under which an event is reported to C callers.
pub open spec fn event_report(e: ConnectionEvent) -> (TransportServicesConnectionEventType, Seq<char>) {
    match e {
        ConnectionEvent::Ready => (TransportServicesConnectionEventType::Ready, "Connection established"@),
        ConnectionEvent::EstablishmentError(m) => (TransportServicesConnectionEventType::EstablishmentError, m@),
        ConnectionEvent::ConnectionError(m) => (TransportServicesConnectionEventType::ConnectionError, m@),
        ConnectionEvent::PathChange => (TransportServicesConnectionEventType::PathChange, "Path changed"@),
        ConnectionEvent::SoftError(m) => (TransportServicesConnectionEventType::SoftError, m@),
        ConnectionEvent::Closed => (TransportServicesConnectionEventType::Closed, "Connection closed"@),
        ConnectionEvent::Sent { .. } => (TransportServicesConnectionEventType::Sent, "Message sent"@),
        ConnectionEvent::Expired { .. } => (TransportServicesConnectionEventType::Expired, "Message expired"@),
        ConnectionEvent::SendError { .. } => (TransportServicesConnectionEventType::SendError, "Send error"@),
        ConnectionEvent::Received { .. } => (TransportServicesConnectionEventType::Received, "Message received"@),
        ConnectionEvent::ReceivedPartial { .. } => (
            TransportServicesConnectionEventType::ReceivedPartial,
            "Partial message received"@,
        ),
        ConnectionEvent::ReceiveError { error } => (TransportServicesConnectionEventType::Received, error@),
    }
}

/// The kind and the text under which a connection event is reported to C callers. A
/// receive error is reported under the kind `Received`, with the error's text.
pub fn event_report_of(e: &ConnectionEvent) -> (r: (TransportServicesConnectionEventType, String))
    ensures
        r.0 == event_report(*e).0,
        r.1@ == event_report(*e).1,
{
    match e {
        ConnectionEvent::Ready => (TransportServicesConnectionEventType::Ready, String::from_str("Connection established")),
        ConnectionEvent::EstablishmentError(m) => (TransportServicesConnectionEventType::EstablishmentError, m.clone()),
        ConnectionEvent::ConnectionError(m) => (TransportServicesConnectionEventType::ConnectionError, m.clone()),
        ConnectionEvent::PathChange => (TransportServicesConnectionEventType::PathChange, String::from_str("Path changed")),
        ConnectionEvent::SoftError(m) => (TransportServicesConnectionEventType::SoftError, m.clone()),
        ConnectionEvent::Closed => (TransportServicesConnectionEventType::Closed, String::from_str("Connection closed")),
        ConnectionEvent::Sent { .. } => (TransportServicesConnectionEventType::Sent, String::from_str("Message sent")),
        ConnectionEvent::Expired { .. } => (TransportServicesConnectionEventType::Expired, String::from_str("Message expired")),
        ConnectionEvent::SendError { .. } => (TransportServicesConnectionEventType::SendError, String::from_str("Send error")),
        ConnectionEvent::Received { .. } => (TransportServicesConnectionEventType::Received, String::from_str("Message received")),
        ConnectionEvent::ReceivedPartial { .. } => (
            TransportServicesConnectionEventType::ReceivedPartial,
            String::from_str("Partial message received"),
        ),
        ConnectionEvent::ReceiveError { error } => (TransportServicesConnectionEventType::Received, error.clone()),
    }
}

/// The bytes written into a C caller's buffer of `buffer_size` bytes for `text`: as much
/// of the text as fits with room for the terminating zero, then the zero.
pub fn c_buffer_contents(text: &[u8], buffer_size: usize) -> (r: Vec<u8>)
    requires
        buffer_size >= 1,
    ensures
        r@.len() <= buffer_size,
        r@ == text@.take(if text@.len() < buffer_size - 1 { text@.len() as int } else { buffer_size - 1 }).push(0u8),
{
    let n: usize = if text.len() < buffer_size - 1 { text.len() } else { buffer_size - 1 };
    let mut out: Vec<u8> = Vec::new();
    let mut i: usize = 0;
    while i < n
        invariant
            n <= text@.len(),
            i <= n,
            out@ == text@.take(i as int),
        decreases n - i,
    {
        out.push(text[i]);
        i += 1;
        assert(out@ =~= text@.take(i as int));
    }
    out.push(0u8);
    out
}

} // verus!
