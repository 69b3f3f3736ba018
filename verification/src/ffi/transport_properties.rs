//! Transport property codes as C callers pass them.

use vstd::prelude::*;
use crate::ffi::types::{preference_from_ffi, TransportServicesPreference};
use crate::types::{with_property, PropertyValue, TransportProperties, TransportProperty};

pub mod property_constants;

verus! {

/// The preference property a C caller names by `code`, if any.
pub open spec fn preference_property_of(code: i32) -> Option<TransportProperty> {
    if code == 0 {
        Some(TransportProperty::Reliability)
    } else if code == 1 {
        Some(TransportProperty::PreserveMsgBoundaries)
    } else if code == 2 {
        Some(TransportProperty::PerMsgReliability)
    } else if code == 3 {
        Some(TransportProperty::PreserveOrder)
    } else if code == 4 {
        Some(TransportProperty::ZeroRttMsg)
    } else if code == 5 {
        Some(TransportProperty::Multistreaming)
    } else if code == 6 {
        Some(TransportProperty::FullChecksumSend)
    } else if code == 7 {
        Some(TransportProperty::FullChecksumRecv)
    } else if code == 8 {
        Some(TransportProperty::CongestionControl)
    } else if code == 9 {
        Some(TransportProperty::KeepAlive)
    } else if code == 10 {
        Some(TransportProperty::UseTemporaryLocalAddress)
    } else if code == 11 {
        Some(TransportProperty::SoftErrorNotify)
    } else if code == 12 {
        Some(TransportProperty::ActiveReadBeforeSend)
    } else {
        None
    }
}

/// The preference property a C caller names by `code`, if any.
pub fn preference_property(code: i32) -> (r: Option<TransportProperty>)
    ensures
        r == preference_property_of(code),
{
    match code {
        0 => Some(TransportProperty::Reliability),
        1 => Some(TransportProperty::PreserveMsgBoundaries),
        2 => Some(TransportProperty::PerMsgReliability),
        3 => Some(TransportProperty::PreserveOrder),
        4 => Some(TransportProperty::ZeroRttMsg),
        5 => Some(TransportProperty::Multistreaming),
        6 => Some(TransportProperty::FullChecksumSend),
        7 => Some(TransportProperty::FullChecksumRecv),
        8 => Some(TransportProperty::CongestionControl),
        9 => Some(TransportProperty::KeepAlive),
        10 => Some(TransportProperty::UseTemporaryLocalAddress),
        11 => Some(TransportProperty::SoftErrorNotify),
        12 => Some(TransportProperty::ActiveReadBeforeSend),
        _ => None,
    }
}

/// Sets the preference property that a C caller names by `code`: 0 when it was set, -1
/// (the properties unchanged) when the code names no preference property.
pub fn set_preference_by_code(
    properties: &mut TransportProperties,
    code: i32,
    preference: TransportServicesPreference,
) -> (r: i32)
    ensures
        r == 0 || r == -1,
        r == 0 <==> preference_property_of(code) is Some,
        r == 0 ==> final(properties)@ == with_property(
            old(properties)@,
            preference_property_of(code)->0,
            PropertyValue::Preference(preference_from_ffi(preference)),
        ),
        r == -1 ==> final(properties)@ == old(properties)@,
{
    match preference_property(code) {
        Some(property) => {
            let pref = crate::types::Preference::from(preference);
            properties.set(property, PropertyValue::Preference(pref));
            0
        },
        None => -1,
    }
}

} // verus!
