//! Error types for Transport Services operations.

use vstd::prelude::*;
use vstd::string::StringExecFns;

verus! {

/// `std::io::Error`, declared so that an I/O error can be carried in `TapsError::Io`;
/// nothing inside it is visible.
#[verifier::external_type_specification]
#[verifier::external_body]
pub struct ExIoError(std::io::Error);

/// Main error type for Transport Services operations.
#[derive(Debug)]
pub enum TapsError {
    /// Connection establishment failed; the `EstablishmentError` event.
    EstablishmentFailed(String),
    /// A terminal error on an established connection; the `ConnectionError` event.
    ConnectionFailed(String),
    /// Sending a message failed; the `SendError` event.
    SendFailed(String),
    /// Receiving a message failed; the `ReceiveError` event.
    ReceiveFailed(String),
    /// Cloning a connection failed; the `CloneError` event.
    CloneFailed(String),
    /// A message expired before it could be sent; the `Expired` event.
    MessageExpired,
    /// Invalid parameters were provided.
    InvalidParameters(String),
    /// The operation is not valid in the current connection state.
    InvalidState(String),
    /// A security or TLS error.
    SecurityError(String),
    /// An underlying I/O error.
    Io(std::io::Error),
    /// The feature is not supported.
    NotSupported(String),
    /// A timeout was reached.
    Timeout,
    /// A received message is larger than the receiver accepts.
    MessageTooLarge(String),
}

/// The name under which the error type is exported to applications.
pub type TransportServicesError = TapsError;

/// Result type of Transport Services operations.
pub type Result<T> = core::result::Result<T, TapsError>;

/// The text of an error that carries a detail message: a fixed prefix, then the detail.
pub open spec fn prefixed(prefix: Seq<char>, detail: Seq<char>) -> Seq<char> {
    prefix + detail
}

impl TapsError {
    /// The human-readable description of the error (what `Display` would print).
    pub open spec fn describes(&self, text: Seq<char>) -> bool {
        match self {
            TapsError::EstablishmentFailed(m) => text == prefixed("Connection establishment failed: "@, m@),
            TapsError::ConnectionFailed(m) => text == prefixed("Connection failed: "@, m@),
            TapsError::SendFailed(m) => text == prefixed("Send failed: "@, m@),
            TapsError::ReceiveFailed(m) => text == prefixed("Receive failed: "@, m@),
            TapsError::CloneFailed(m) => text == prefixed("Clone failed: "@, m@),
            TapsError::MessageExpired => text == "Message expired before sending"@,
            TapsError::InvalidParameters(m) => text == prefixed("Invalid parameters: "@, m@),
            TapsError::InvalidState(m) => text == prefixed("Invalid state: "@, m@),
            TapsError::SecurityError(m) => text == prefixed("Security error: "@, m@),
            TapsError::Io(_) => "I/O error: "@.is_prefix_of(text),
            TapsError::NotSupported(m) => text == prefixed("Operation not supported: "@, m@),
            TapsError::Timeout => text == "Operation timed out"@,
            TapsError::MessageTooLarge(m) => text == prefixed("Message too large: "@, m@),
        }
    }

    /// The error's description, as `Display` formats it.
    pub fn to_string(&self) -> (text: String)
        ensures
            self.describes(text@),
    {
        match self {
            TapsError::EstablishmentFailed(m) => String::from_str("Connection establishment failed: ").concat(m.as_str()),
            TapsError::ConnectionFailed(m) => String::from_str("Connection failed: ").concat(m.as_str()),
            TapsError::SendFailed(m) => String::from_str("Send failed: ").concat(m.as_str()),
            TapsError::ReceiveFailed(m) => String::from_str("Receive failed: ").concat(m.as_str()),
            TapsError::CloneFailed(m) => String::from_str("Clone failed: ").concat(m.as_str()),
            TapsError::MessageExpired => String::from_str("Message expired before sending"),
            TapsError::InvalidParameters(m) => String::from_str("Invalid parameters: ").concat(m.as_str()),
            TapsError::InvalidState(m) => String::from_str("Invalid state: ").concat(m.as_str()),
            TapsError::SecurityError(m) => String::from_str("Security error: ").concat(m.as_str()),
            TapsError::Io(e) => {
                let detail = io_error_text(e);
                let text = String::from_str("I/O error: ").concat(detail.as_str());
                assert("I/O error: "@.is_prefix_of(text@)) by {
                    assert(text@.subrange(0, "I/O error: "@.len() as int) =~= "I/O error: "@);
                }
                text
            },
            TapsError::NotSupported(m) => String::from_str("Operation not supported: ").concat(m.as_str()),
            TapsError::Timeout => String::from_str("Operation timed out"),
            TapsError::MessageTooLarge(m) => String::from_str("Message too large: ").concat(m.as_str()),
        }
    }
}

/// `std::io::Error`'s `Display` text. Nothing is stated of it: it depends on the operating
/// system's error messages.
#[verifier::external_body]
fn io_error_text(e: &std::io::Error) -> String {
    e.to_string()
}

impl From<std::io::Error> for TapsError {
    fn from(err: std::io::Error) -> (r: Self) {
        TapsError::Io(err)
    }
}

impl vstd::std_specs::convert::FromSpecImpl<std::io::Error> for TapsError {
    open spec fn obeys_from_spec() -> bool {
        true
    }

    open spec fn from_spec(err: std::io::Error) -> Self {
        TapsError::Io(err)
    }
}

} // verus!
