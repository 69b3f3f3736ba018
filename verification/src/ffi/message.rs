//! Messages as C callers describe them.

use vstd::prelude::*;
use crate::message::{fresh_message, Message, MessageView};
use crate::types::MessageProperties;

verus! {

/// The duration of `ms` milliseconds, as `Duration::from_millis` makes it.
pub uninterp spec fn millis_duration(ms: u64) -> std::time::Duration;

/// `Duration::from_millis`: the result is named by `millis_duration` of the argument; it
/// depends on the argument alone and never panics.
pub assume_specification[ std::time::Duration::from_millis ](millis: u64) -> (r: std::time::Duration)
    ensures
        r == millis_duration(millis),
;

/// The message a C caller describes: the data, a lifetime when `lifetime_ms` is not 0, a
/// priority when `priority` is not 0, and the safely-replayable and final flags when set.
pub open spec fn ffi_message(data: Seq<u8>, lifetime_ms: u64, priority: i32, idempotent: bool, final_message: bool) -> MessageView {
    let base = fresh_message(data);
    let p = base.properties;
    MessageView {
        properties: MessageProperties {
            lifetime: if lifetime_ms > 0 { Some(millis_duration(lifetime_ms)) } else { p.lifetime },
            priority: if priority != 0 { Some(priority) } else { p.priority },
            safely_replayable: idempotent || p.safely_replayable,
            final_message: final_message || p.final_message,
            ..p
        },
        ..base
    }
}

/// The message a C caller describes by its fields (`TransportServicesMessage`): no
/// message for empty data; otherwise the data, with a lifetime when `lifetime_ms` is not
/// 0, a priority when `priority` is not 0, marked safely replayable when `idempotent`, and
/// marked final when `final_message`.
pub fn message_from_ffi(data: Vec<u8>, lifetime_ms: u64, priority: i32, idempotent: bool, final_message: bool)
    -> (r: Option<Message>)
    ensures
        r is None <==> data@.len() == 0,
        r matches Some(m) ==> m@ == ffi_message(data@, lifetime_ms, priority, idempotent, final_message),
{
    if data.len() == 0 {
        return None;
    }
    let mut m = Message::new(data);
    if lifetime_ms > 0 {
        m = m.with_lifetime(std::time::Duration::from_millis(lifetime_ms));
    }
    if priority != 0 {
        m = m.with_priority(priority);
    }
    if idempotent {
        m = m.safely_replayable();
    }
    if final_message {
        m = m.final_message();
    }
    Some(m)
}

} // verus!
