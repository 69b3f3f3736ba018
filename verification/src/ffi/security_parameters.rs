//! Security protocol codes as C callers pass them.

use vstd::prelude::*;
use crate::types::SecurityProtocol;

pub mod security_protocol_constants;

verus! {

/// The security protocol a C caller names by `code`, if any.
pub open spec fn protocol_of(code: i32) -> Option<SecurityProtocol> {
    if code == 0 {
        Some(SecurityProtocol::TLS12)
    } else if code == 1 {
        Some(SecurityProtocol::TLS13)
    } else if code == 2 {
        Some(SecurityProtocol::DTLS12)
    } else if code == 3 {
        Some(SecurityProtocol::DTLS13)
    } else {
        None
    }
}

/// The protocols named by `codes`, in order, codes that name none skipped.
pub open spec fn protocols_of(codes: Seq<i32>) -> Seq<SecurityProtocol>
    decreases codes.len(),
{
    if codes.len() == 0 {
        Seq::empty()
    } else {
        match protocol_of(codes.last()) {
            Some(p) => protocols_of(codes.drop_last()).push(p),
            None => protocols_of(codes.drop_last()),
        }
    }
}

/// The security protocol a C caller names by `code`, if any.
pub fn security_protocol(code: i32) -> (r: Option<SecurityProtocol>)
    ensures
        r == protocol_of(code),
{
    match code {
        0 => Some(SecurityProtocol::TLS12),
        1 => Some(SecurityProtocol::TLS13),
        2 => Some(SecurityProtocol::DTLS12),
        3 => Some(SecurityProtocol::DTLS13),
        _ => None,
    }
}

/// The protocols a C caller names by `codes`, in order; codes that name no protocol are
/// skipped.
pub fn protocols_from_codes(codes: &[i32]) -> (r: Vec<SecurityProtocol>)
    ensures
        r@ == protocols_of(codes@),
{
    let mut out: Vec<SecurityProtocol> = Vec::new();
    let mut i: usize = 0;
    while i < codes.len()
        invariant
            i <= codes@.len(),
            out@ == protocols_of(codes@.take(i as int)),
        decreases codes@.len() - i,
    {
        assert(codes@.take(i + 1).drop_last() =~= codes@.take(i as int));
        assert(codes@.take(i + 1).last() == codes@[i as int]);
        match security_protocol(codes[i]) {
            Some(p) => out.push(p),
            None => {},
        }
        i += 1;
    }
    assert(codes@.take(codes@.len() as int) =~= codes@);
    out
}

} // verus!
