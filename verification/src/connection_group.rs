//! Connection groups (RFC 9622 Section 7.4): connections cloned from one another share
//! properties and are counted together.

use vstd::prelude::*;
use crate::types::{LocalEndpoint, RemoteEndpoint, TransportProperties, TransportPropertiesView};

verus! {

/// The lowercase hexadecimal digit for a value below 16.
pub open spec fn hex_digit(d: int) -> char {
    if d < 10 {
        (48 + d) as char
    } else {
        (87 + d) as char
    }
}

/// The hyphenated lowercase text of a UUID held as a 128-bit number: 32 hexadecimal digits,
/// most significant first, in groups of 8, 4, 4, 4 and 12 separated by hyphens.
pub open spec fn uuid_text(v: u128) -> Seq<char> {
    Seq::new(36, |i: int|
        if i == 8 || i == 13 || i == 18 || i == 23 {
            '-'
        } else {
            let digit_index = if i < 8 { i } else if i < 13 { i - 1 } else if i < 18 { i - 2 } else if i < 23 { i - 3 } else { i - 4 };
            hex_digit(((v as int) / vstd::arithmetic::power2::pow2((4 * (31 - digit_index)) as nat) as int) % 16)
        }
    )
}

/// `uuid::Uuid::new_v4().as_u128()`: a random version-4 UUID as a number (big-endian).
/// The generator fixes the version field (bits 76 to 79) to 4 and the variant field
/// (bits 62 and 63) to binary 10; every other bit is random and is not stated.
#[verifier::external_body]
fn random_uuid_v4() -> (r: u128)
    ensures
        (r / 0x10000000000000000000) % 16 == 4,
        (r / 0x4000000000000000) % 4 == 2,
{
    uuid::Uuid::new_v4().as_u128()
}

/// `uuid::Uuid::from_u128(v).to_string()`: the UUID's `Display` text, its hyphenated
/// lowercase hexadecimal form.
#[verifier::external_body]
fn uuid_to_string(v: u128) -> (r: String)
    ensures
        r@ == uuid_text(v),
{
    uuid::Uuid::from_u128(v).to_string()
}

/// Unique identifier of a connection group: a random version-4 UUID.
#[derive(Debug, Clone, Copy, PartialEq, Eq, Structural, Hash)]
pub struct ConnectionGroupId(u128);

impl ConnectionGroupId {
    /// The identifier's value, as a 128-bit number.
    pub closed spec fn value(&self) -> u128 {
        self.0
    }

    /// A new random identifier.
    pub fn new() -> (r: Self)
        ensures
            (r.value() / 0x10000000000000000000) % 16 == 4,
            (r.value() / 0x4000000000000000) % 4 == 2,
    {
        ConnectionGroupId(random_uuid_v4())
    }

    /// The identifier's text, in hyphenated UUID form (what `Display` prints).
    pub fn to_string(&self) -> (r: String)
        ensures
            r@ == uuid_text(self.value()),
    {
        uuid_to_string(self.0)
    }
}

/// A group of related connections that share transport properties and endpoints.
#[derive(Debug)]
pub struct ConnectionGroup {
    /// Unique identifier of the group.
    pub id: ConnectionGroupId,
    /// Transport properties shared by the group's connections.
    pub transport_properties: TransportProperties,
    /// Local endpoints shared by the group.
    pub local_endpoints: Vec<LocalEndpoint>,
    /// Remote endpoints shared by the group.
    pub remote_endpoints: Vec<RemoteEndpoint>,
    /// Number of active connections in the group.
    pub connection_count: u64,
    /// Whether the group's protocol multiplexes streams (e.g. QUIC).
    pub multistreaming_capable: bool,
}

impl ConnectionGroup {
    /// A new group with a fresh random (version 4) identifier and no connection counted yet.
    pub fn new(
        transport_properties: TransportProperties,
        local_endpoints: Vec<LocalEndpoint>,
        remote_endpoints: Vec<RemoteEndpoint>,
    ) -> (r: Self)
        ensures
            r.transport_properties@ == transport_properties@,
            r.local_endpoints == local_endpoints,
            r.remote_endpoints == remote_endpoints,
            r.connection_count == 0,
            !r.multistreaming_capable,
            (r.id.value() / 0x10000000000000000000) % 16 == 4,
            (r.id.value() / 0x4000000000000000) % 4 == 2,
    {
        ConnectionGroup {
            id: ConnectionGroupId::new(),
            transport_properties,
            local_endpoints,
            remote_endpoints,
            connection_count: 0,
            multistreaming_capable: false,
        }
    }

    /// Counts one more connection (wrapping, as an atomic counter does).
    pub fn add_connection(&mut self)
        ensures
            *final(self) == (ConnectionGroup {
                connection_count: ((old(self).connection_count + 1) % 0x1_0000_0000_0000_0000) as u64,
                ..*old(self)
            }),
    {
        self.connection_count = self.connection_count.wrapping_add(1);
    }

    /// Counts one connection fewer (wrapping, as an atomic counter does).
    pub fn remove_connection(&mut self)
        ensures
            *final(self) == (ConnectionGroup {
                connection_count: ((old(self).connection_count + 0x1_0000_0000_0000_0000 - 1) % 0x1_0000_0000_0000_0000) as u64,
                ..*old(self)
            }),
    {
        self.connection_count = self.connection_count.wrapping_sub(1);
    }

    /// The number of connections in the group.
    pub fn connection_count(&self) -> (r: u64)
        ensures
            r == self.connection_count,
    {
        self.connection_count
    }

    /// Whether the group has any active connection.
    pub fn has_connections(&self) -> (r: bool)
        ensures
            r == (self.connection_count > 0),
    {
        self.connection_count > 0
    }
}

/// The group's count after `k` more connections are counted in, one at a time.
pub open spec fn count_after(count: u64, k: nat) -> u64
    decreases k,
{
    if k == 0 {
        count
    } else {
        ((count_after(count, (k - 1) as nat) + 1) % 0x1_0000_0000_0000_0000) as u64
    }
}

/// Law (cloning several times): a group made for a first clone counts the original
/// connection; each clone that joins it counts one more, so after `k` clones it counts
/// `k + 1` connections (modulo 2^64, as its counter wraps).
pub proof fn lemma_clones_counted(k: nat)
    ensures
        count_after(1, k) == (1 + k) % 0x1_0000_0000_0000_0000,
    decreases k,
{
    if k > 0 {
        lemma_clones_counted((k - 1) as nat);
        assert(((1 + (k - 1)) % 0x1_0000_0000_0000_0000 + 1) % 0x1_0000_0000_0000_0000 == (1 + k) % 0x1_0000_0000_0000_0000)
            by (nonlinear_arith);
    }
}

/// Law: counting a connection in and then out leaves the count as it was.
pub proof fn lemma_add_then_remove(count: u64)
    ensures
        (((count + 1) % 0x1_0000_0000_0000_0000) + 0x1_0000_0000_0000_0000 - 1) % 0x1_0000_0000_0000_0000 == count,
{
}

} // verus!
