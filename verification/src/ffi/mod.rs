//! The plain-value side of the C interface: the enumerations that cross it, how library
//! values map onto them, and how the numeric codes that C callers pass are read. The
//! `extern "C"` functions, the raw pointers and the shared runtime live outside this
//! library.

use vstd::prelude::*;

pub mod message;
pub mod path_monitor;
pub mod security_parameters;
pub mod transport_properties;
pub mod types;

verus! {

/// Opaque handle through which C callers hold library objects.
pub struct TransportServicesHandle {
    _private: [u8; 0],
}

} // verus!
