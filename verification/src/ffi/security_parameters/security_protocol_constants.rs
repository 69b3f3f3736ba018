//! The numbers by which C callers name the security protocols.

use vstd::prelude::*;

verus! {

pub const TRANSPORT_SERVICES_SECURITY_PROTOCOL_TLS12: i32 = 0;
pub const TRANSPORT_SERVICES_SECURITY_PROTOCOL_TLS13: i32 = 1;
pub const TRANSPORT_SERVICES_SECURITY_PROTOCOL_DTLS12: i32 = 2;
pub const TRANSPORT_SERVICES_SECURITY_PROTOCOL_DTLS13: i32 = 3;

} // verus!
