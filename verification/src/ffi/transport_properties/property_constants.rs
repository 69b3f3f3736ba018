//! The numbers by which C callers name the preference properties.

use vstd::prelude::*;

verus! {

pub const TRANSPORT_SERVICES_PROPERTY_RELIABILITY: i32 = 0;
pub const TRANSPORT_SERVICES_PROPERTY_PRESERVE_MSG_BOUNDARIES: i32 = 1;
pub const TRANSPORT_SERVICES_PROPERTY_PER_MSG_RELIABILITY: i32 = 2;
pub const TRANSPORT_SERVICES_PROPERTY_PRESERVE_ORDER: i32 = 3;
pub const TRANSPORT_SERVICES_PROPERTY_ZERO_RTT_MSG: i32 = 4;
pub const TRANSPORT_SERVICES_PROPERTY_MULTISTREAMING: i32 = 5;
pub const TRANSPORT_SERVICES_PROPERTY_FULL_CHECKSUM_SEND: i32 = 6;
pub const TRANSPORT_SERVICES_PROPERTY_FULL_CHECKSUM_RECV: i32 = 7;
pub const TRANSPORT_SERVICES_PROPERTY_CONGESTION_CONTROL: i32 = 8;
pub const TRANSPORT_SERVICES_PROPERTY_KEEP_ALIVE: i32 = 9;
pub const TRANSPORT_SERVICES_PROPERTY_USE_TEMPORARY_LOCAL_ADDRESS: i32 = 10;
pub const TRANSPORT_SERVICES_PROPERTY_SOFT_ERROR_NOTIFY: i32 = 11;
pub const TRANSPORT_SERVICES_PROPERTY_ACTIVE_READ_BEFORE_SEND: i32 = 12;

} // verus!
