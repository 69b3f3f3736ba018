//! Connection properties (RFC 9622 Section 8.1): the property values and the store that
//! holds them by name.

use vstd::prelude::*;
use vstd::string::StringExecFns;
use std::time::Duration;
use crate::error::{Result, TapsError};
use crate::types::ConnectionState;

verus! {

/// Generic and TCP-specific connection properties.
#[derive(Debug, Clone, Copy)]
pub enum ConnectionProperty {
    /// Required minimum corruption protection coverage for receiving (8.1.1).
    RecvChecksumLen(ChecksumCoverage),
    /// Connection priority within its group; lower is more important (8.1.2).
    ConnPriority(u32),
    /// Timeout for aborting the connection (8.1.3).
    ConnTimeout(TimeoutValue),
    /// Timeout for keep-alive packets (8.1.4).
    KeepAliveTimeout(TimeoutValue),
    /// Scheduler used among the connections of a group (8.1.5).
    ConnScheduler(SchedulerType),
    /// Capacity profile (8.1.6).
    ConnCapacityProfile(CapacityProfile),
    /// Policy for multipath transports (8.1.7).
    MultipathPolicy(MultipathPolicy),
    /// Minimum send rate in bits per second; `None` is unlimited (8.1.8).
    MinSendRate(Option<u64>),
    /// Maximum send rate in bits per second; `None` is unlimited (8.1.8).
    MaxSendRate(Option<u64>),
    /// Minimum receive rate in bits per second; `None` is unlimited (8.1.8).
    MinRecvRate(Option<u64>),
    /// Maximum receive rate in bits per second; `None` is unlimited (8.1.8).
    MaxRecvRate(Option<u64>),
    /// Number of connections a peer may add to the group; `None` is unlimited (8.1.9).
    GroupConnLimit(Option<u32>),
    /// Whether to use as little cached information as possible (8.1.10).
    IsolateSession(bool),
    /// Connection state; read-only (8.1.11.1).
    ConnState(ConnectionState),
    /// Whether data can be sent; read-only (8.1.11.2).
    CanSend(bool),
    /// Whether data can be received; read-only (8.1.11.3).
    CanReceive(bool),
    /// Maximum message size before fragmentation; read-only (8.1.11.4).
    SingularTransmissionMsgMaxLen(Option<usize>),
    /// Maximum message size on send; read-only (8.1.11.5).
    SendMsgMaxLen(Option<usize>),
    /// Maximum message size on receive; read-only (8.1.11.6).
    RecvMsgMaxLen(Option<usize>),
    /// TCP advertised user timeout (8.2.1).
    TcpUserTimeoutValue(Option<Duration>),
    /// TCP user timeout enabled (8.2.2).
    TcpUserTimeoutEnabled(bool),
    /// TCP user timeout changeable (8.2.3).
    TcpUserTimeoutChangeable(bool),
}

/// Checksum coverage.
#[derive(Debug, Clone, Copy, PartialEq, Eq)]
pub enum ChecksumCoverage {
    /// The whole message is covered.
    FullCoverage,
    /// At least this many bytes are covered.
    MinBytes(usize),
}

impl Default for ChecksumCoverage {
    fn default() -> (r: Self)
        ensures
            r == ChecksumCoverage::FullCoverage,
    {
        ChecksumCoverage::FullCoverage
    }
}

/// A timeout value.
#[derive(Debug, Clone, Copy, PartialEq, Eq)]
pub enum TimeoutValue {
    /// The timeout is disabled.
    Disabled,
    /// The timeout duration.
    Duration(Duration),
}

impl Default for TimeoutValue {
    fn default() -> (r: Self)
        ensures
            r == TimeoutValue::Disabled,
    {
        TimeoutValue::Disabled
    }
}

/// Connection group transmission schedulers (8.1.5).
#[derive(Debug, Clone, Copy, PartialEq, Eq, Structural)]
pub enum SchedulerType {
    WeightedFairQueueing,
    Fifo,
    RoundRobin,
    ProportionalRate,
}

impl Default for SchedulerType {
    fn default() -> (r: Self)
        ensures
            r == SchedulerType::WeightedFairQueueing,
    {
        SchedulerType::WeightedFairQueueing
    }
}

/// Capacity profiles (8.1.6).
#[derive(Debug, Clone, Copy, PartialEq, Eq, Structural)]
pub enum CapacityProfile {
    Default,
    LowLatencyInteractive,
    LowLatencyNonInteractive,
    ConstantRateStreaming,
    CapacitySeeking,
}

impl Default for CapacityProfile {
    fn default() -> (r: Self)
        ensures
            r == CapacityProfile::Default,
    {
        CapacityProfile::Default
    }
}

/// Multipath policies (8.1.7).
#[derive(Debug, Clone, Copy, PartialEq, Eq, Structural)]
pub enum MultipathPolicy {
    /// One path at a time, with failover.
    Handover,
    /// Several paths at once.
    Active,
    /// Several paths redundantly.
    Redundant,
}

impl Default for MultipathPolicy {
    fn default() -> (r: Self)
        ensures
            r == MultipathPolicy::Handover,
    {
        MultipathPolicy::Handover
    }
}

/// The names of the read-only properties, which `set` refuses.
pub open spec fn is_read_only(key: Seq<char>) -> bool {
    ||| key == "connState"@
    ||| key == "canSend"@
    ||| key == "canReceive"@
    ||| key == "singularTransmissionMsgMaxLen"@
    ||| key == "sendMsgMaxLen"@
    ||| key == "recvMsgMaxLen"@
}

/// The properties a new connection starts with (RFC 9622 defaults; the TCP user timeout
/// value is absent).
pub open spec fn default_properties() -> Map<Seq<char>, ConnectionProperty> {
    map![
        "recvChecksumLen"@ => ConnectionProperty::RecvChecksumLen(ChecksumCoverage::FullCoverage),
        "connPriority"@ => ConnectionProperty::ConnPriority(100),
        "connTimeout"@ => ConnectionProperty::ConnTimeout(TimeoutValue::Disabled),
        "keepAliveTimeout"@ => ConnectionProperty::KeepAliveTimeout(TimeoutValue::Disabled),
        "connScheduler"@ => ConnectionProperty::ConnScheduler(SchedulerType::WeightedFairQueueing),
        "connCapacityProfile"@ => ConnectionProperty::ConnCapacityProfile(CapacityProfile::Default),
        "multipathPolicy"@ => ConnectionProperty::MultipathPolicy(MultipathPolicy::Handover),
        "minSendRate"@ => ConnectionProperty::MinSendRate(None),
        "maxSendRate"@ => ConnectionProperty::MaxSendRate(None),
        "minRecvRate"@ => ConnectionProperty::MinRecvRate(None),
        "maxRecvRate"@ => ConnectionProperty::MaxRecvRate(None),
        "groupConnLimit"@ => ConnectionProperty::GroupConnLimit(None),
        "isolateSession"@ => ConnectionProperty::IsolateSession(false),
        "tcp.userTimeoutEnabled"@ => ConnectionProperty::TcpUserTimeoutEnabled(false),
        "tcp.userTimeoutChangeable"@ => ConnectionProperty::TcpUserTimeoutChangeable(true)
    ]
}

/// The error text for an attempt to set a read-only property.
pub open spec fn read_only_message(key: Seq<char>) -> Seq<char> {
    "Property '"@ + key + "' is read-only"@
}

/// Storage for connection properties, by name.
#[derive(Debug)]
pub struct ConnectionProperties {
    entries: Vec<(String, ConnectionProperty)>,
}

/// Entry `i` of the list has name `k`.
pub open spec fn names_at(s: Seq<(String, ConnectionProperty)>, i: int, k: Seq<char>) -> bool {
    0 <= i < s.len() && s[i].0@ == k
}

/// The map that a list of (name, value) entries with distinct names stands for.
pub open spec fn entries_map(s: Seq<(String, ConnectionProperty)>) -> Map<Seq<char>, ConnectionProperty> {
    Map::new(
        |k: Seq<char>| exists|i: int| names_at(s, i, k),
        |k: Seq<char>| s[choose|i: int| names_at(s, i, k)].1,
    )
}

/// No name occurs twice in the entries.
pub open spec fn distinct_names(s: Seq<(String, ConnectionProperty)>) -> bool {
    forall|i: int, j: int| 0 <= i < s.len() && 0 <= j < s.len() && #[trigger] s[i].0@ == #[trigger] s[j].0@ ==> i == j
}

proof fn lemma_entry_value(s: Seq<(String, ConnectionProperty)>, i: int)
    requires
        distinct_names(s),
        0 <= i < s.len(),
    ensures
        entries_map(s).dom().contains(s[i].0@),
        entries_map(s)[s[i].0@] == s[i].1,
{
    let k = s[i].0@;
    assert(names_at(s, i, k));
    let j = choose|j: int| names_at(s, j, k);
    assert(s[j].0@ == s[i].0@);
}

proof fn lemma_push_new(s: Seq<(String, ConnectionProperty)>, e: (String, ConnectionProperty))
    requires
        distinct_names(s),
        !entries_map(s).dom().contains(e.0@),
    ensures
        distinct_names(s.push(e)),
        entries_map(s.push(e)) == entries_map(s).insert(e.0@, e.1),
{
    let t = s.push(e);
    assert forall|i: int, j: int| 0 <= i < t.len() && 0 <= j < t.len() && #[trigger] t[i].0@ == #[trigger] t[j].0@ implies i == j by {
        if i < s.len() && j == s.len() {
            assert(names_at(s, i, e.0@));
        } else if j < s.len() && i == s.len() {
            assert(names_at(s, j, e.0@));
        }
    }
    assert forall|k: Seq<char>| #[trigger] entries_map(t).dom().contains(k) == entries_map(s).insert(e.0@, e.1).dom().contains(k) by {
        if exists|i: int| names_at(t, i, k) {
            let i = choose|i: int| names_at(t, i, k);
            if i < s.len() {
                assert(names_at(s, i, k));
            }
        }
        if exists|i: int| names_at(s, i, k) {
            let i = choose|i: int| names_at(s, i, k);
            assert(names_at(t, i, k));
        }
        if k == e.0@ {
            assert(names_at(t, s.len() as int, k));
        }
    }
    assert forall|k: Seq<char>| #[trigger] entries_map(t).dom().contains(k) implies entries_map(t)[k] == entries_map(s).insert(e.0@, e.1)[k] by {
        let i = choose|i: int| names_at(t, i, k);
        lemma_entry_value(t, i);
        if i < s.len() {
            lemma_entry_value(s, i);
        }
    }
    assert(entries_map(t) =~= entries_map(s).insert(e.0@, e.1));
}

proof fn lemma_update_at(s: Seq<(String, ConnectionProperty)>, i: int, e: (String, ConnectionProperty))
    requires
        distinct_names(s),
        0 <= i < s.len(),
        s[i].0@ == e.0@,
    ensures
        distinct_names(s.update(i, e)),
        entries_map(s.update(i, e)) == entries_map(s).insert(e.0@, e.1),
{
    let t = s.update(i, e);
    assert forall|a: int, b: int| 0 <= a < t.len() && 0 <= b < t.len() && #[trigger] t[a].0@ == #[trigger] t[b].0@ implies a == b by {
        assert(s[a].0@ == t[a].0@);
        assert(s[b].0@ == t[b].0@);
    }
    assert forall|k: Seq<char>| #[trigger] entries_map(t).dom().contains(k) == entries_map(s).insert(e.0@, e.1).dom().contains(k) by {
        if exists|j: int| names_at(t, j, k) {
            let j = choose|j: int| names_at(t, j, k);
            assert(names_at(s, j, k));
        }
        if exists|j: int| names_at(s, j, k) {
            let j = choose|j: int| names_at(s, j, k);
            assert(names_at(t, j, k));
        }
        if k == e.0@ {
            assert(names_at(t, i, k));
        }
    }
    assert forall|k: Seq<char>| #[trigger] entries_map(t).dom().contains(k) implies entries_map(t)[k] == entries_map(s).insert(e.0@, e.1)[k] by {
        let j = choose|j: int| names_at(t, j, k);
        lemma_entry_value(t, j);
        if j != i {
            lemma_entry_value(s, j);
        }
    }
    assert(entries_map(t) =~= entries_map(s).insert(e.0@, e.1));
}

fn find_entry(entries: &Vec<(String, ConnectionProperty)>, key: &String) -> (r: Option<usize>)
    requires
        distinct_names(entries@),
    ensures
        r is None <==> !entries_map(entries@).dom().contains(key@),
        r matches Some(i) ==> i < entries@.len() && entries@[i as int].0@ == key@,
{
    let mut i: usize = 0;
    while i < entries.len()
        invariant
            i <= entries@.len(),
            forall|j: int| 0 <= j < i ==> !names_at(entries@, j, key@),
        decreases entries@.len() - i,
    {
        if entries[i].0 == *key {
            assert(names_at(entries@, i as int, key@));
            return Some(i);
        }
        i += 1;
    }
    assert(!entries_map(entries@).dom().contains(key@)) by {
        if exists|j: int| names_at(entries@, j, key@) {
            let j = choose|j: int| names_at(entries@, j, key@);
            assert(!names_at(entries@, j, key@));
        }
    }
    None
}

impl View for ConnectionProperties {
    type V = Map<Seq<char>, ConnectionProperty>;

    closed spec fn view(&self) -> Map<Seq<char>, ConnectionProperty> {
        entries_map(self.entries@)
    }
}

impl ConnectionProperties {
    #[verifier::type_invariant]
    spec fn well_formed(self) -> bool {
        distinct_names(self.entries@)
    }

    /// Stores `value` under `key`, whatever the key.
    pub fn put(&mut self, key: &str, value: ConnectionProperty)
        ensures
            final(self)@ == old(self)@.insert(key@, value),
    {
        proof { use_type_invariant(&*self); }
        let name = String::from_str(key);
        match find_entry(&self.entries, &name) {
            Some(i) => {
                proof { lemma_update_at(self.entries@, i as int, (name, value)); }
                let mut entries: Vec<(String, ConnectionProperty)> = Vec::new();
                std::mem::swap(&mut entries, &mut self.entries);
                entries.set(i, (name, value));
                self.entries = entries;
            },
            None => {
                proof { lemma_push_new(self.entries@, (name, value)); }
                let mut entries: Vec<(String, ConnectionProperty)> = Vec::new();
                std::mem::swap(&mut entries, &mut self.entries);
                entries.push((name, value));
                self.entries = entries;
            },
        }
    }

    /// A store holding no property.
    pub fn empty() -> (r: Self)
        ensures
            r@ == Map::<Seq<char>, ConnectionProperty>::empty(),
    {
        let r = ConnectionProperties { entries: Vec::new() };
        assert(r@ =~= Map::<Seq<char>, ConnectionProperty>::empty());
        r
    }

    /// The properties of a new connection, with their default values.
    pub fn new() -> (r: Self)
        ensures
            r@ == default_properties(),
    {
        let mut p = Self::empty();
        p.put("recvChecksumLen", ConnectionProperty::RecvChecksumLen(ChecksumCoverage::default()));
        p.put("connPriority", ConnectionProperty::ConnPriority(100));
        p.put("connTimeout", ConnectionProperty::ConnTimeout(TimeoutValue::default()));
        p.put("keepAliveTimeout", ConnectionProperty::KeepAliveTimeout(TimeoutValue::default()));
        p.put("connScheduler", ConnectionProperty::ConnScheduler(SchedulerType::default()));
        p.put("connCapacityProfile", ConnectionProperty::ConnCapacityProfile(CapacityProfile::default()));
        p.put("multipathPolicy", ConnectionProperty::MultipathPolicy(MultipathPolicy::default()));
        p.put("minSendRate", ConnectionProperty::MinSendRate(None));
        p.put("maxSendRate", ConnectionProperty::MaxSendRate(None));
        p.put("minRecvRate", ConnectionProperty::MinRecvRate(None));
        p.put("maxRecvRate", ConnectionProperty::MaxRecvRate(None));
        p.put("groupConnLimit", ConnectionProperty::GroupConnLimit(None));
        p.put("isolateSession", ConnectionProperty::IsolateSession(false));
        p.put("tcp.userTimeoutEnabled", ConnectionProperty::TcpUserTimeoutEnabled(false));
        p.put("tcp.userTimeoutChangeable", ConnectionProperty::TcpUserTimeoutChangeable(true));
        assert(p@ =~= default_properties());
        p
    }

    /// Sets a property. Read-only properties are refused with `InvalidParameters`, and the
    /// store is then unchanged.
    pub fn set(&mut self, key: &str, value: ConnectionProperty) -> (r: Result<()>)
        ensures
            is_read_only(key@) ==> (r matches Err(TapsError::InvalidParameters(m)) && m@ == read_only_message(key@)
                && final(self)@ == old(self)@),
            !is_read_only(key@) ==> r is Ok && final(self)@ == old(self)@.insert(key@, value),
    {
        if is_read_only_key(key) {
            let msg = String::from_str("Property '").concat(key).concat("' is read-only");
            return Err(TapsError::InvalidParameters(msg));
        }
        self.put(key, value);
        Ok(())
    }

    /// The value of a property, if it is set.
    pub fn get(&self, key: &str) -> (r: Option<&ConnectionProperty>)
        ensures
            r is Some <==> self@.dom().contains(key@),
            r matches Some(v) ==> *v == self@[key@],
    {
        proof { use_type_invariant(self); }
        let name = String::from_str(key);
        match find_entry(&self.entries, &name) {
            Some(i) => {
                proof { lemma_entry_value(self.entries@, i as int); }
                Some(&self.entries[i].1)
            },
            None => None,
        }
    }

    /// Whether a property is set.
    pub fn has(&self, key: &str) -> (r: bool)
        ensures
            r == self@.dom().contains(key@),
    {
        proof { use_type_invariant(self); }
        let name = String::from_str(key);
        find_entry(&self.entries, &name).is_some()
    }

    /// All properties, as (name, value) entries with distinct names.
    pub fn all(&self) -> (r: &Vec<(String, ConnectionProperty)>)
        ensures
            distinct_names(r@),
            entries_map(r@) == self@,
    {
        proof { use_type_invariant(self); }
        &self.entries
    }

    /// Updates the read-only properties that follow from the connection's state.
    pub fn update_readonly(&mut self, state: ConnectionState, can_send: bool, can_receive: bool)
        ensures
            final(self)@ == old(self)@.insert("connState"@, ConnectionProperty::ConnState(state))
                .insert("canSend"@, ConnectionProperty::CanSend(can_send))
                .insert("canReceive"@, ConnectionProperty::CanReceive(can_receive)),
    {
        self.put("connState", ConnectionProperty::ConnState(state));
        self.put("canSend", ConnectionProperty::CanSend(can_send));
        self.put("canReceive", ConnectionProperty::CanReceive(can_receive));
    }
}

impl Default for ConnectionProperties {
    fn default() -> (r: Self)
        ensures
            r@ == Map::<Seq<char>, ConnectionProperty>::empty(),
    {
        Self::empty()
    }
}

impl Clone for ConnectionProperties {
    fn clone(&self) -> (r: Self)
        ensures
            r@ == self@,
    {
        proof { use_type_invariant(self); }
        let mut entries: Vec<(String, ConnectionProperty)> = Vec::new();
        let mut i: usize = 0;
        while i < self.entries.len()
            invariant
                i <= self.entries@.len(),
                entries@ == self.entries@.take(i as int),
            decreases self.entries@.len() - i,
        {
            let (name, value) = &self.entries[i];
            entries.push((name.clone(), *value));
            assert(entries@ =~= self.entries@.take(i + 1));
            i += 1;
        }
        assert(entries@ =~= self.entries@);
        ConnectionProperties { entries }
    }
}

fn string_is(a: &String, lit: &str) -> (r: bool)
    ensures
        r == (a@ == lit@),
{
    *a == String::from_str(lit)
}

/// Whether `key` names a read-only property.
pub fn is_read_only_key(key: &str) -> (r: bool)
    ensures
        r == is_read_only(key@),
{
    let k = String::from_str(key);
    string_is(&k, "connState") || string_is(&k, "canSend") || string_is(&k, "canReceive")
        || string_is(&k, "singularTransmissionMsgMaxLen") || string_is(&k, "sendMsgMaxLen")
        || string_is(&k, "recvMsgMaxLen")
}

/// Law (what a read gives back of a write): once a property that is not read-only is set
/// (`set` stores it as `insert` does), reading it gives the value set, and every other
/// property reads as it did before.
pub proof fn lemma_property_set_then_get(
    m: Map<Seq<char>, ConnectionProperty>,
    key: Seq<char>,
    other: Seq<char>,
    value: ConnectionProperty,
)
    requires
        !is_read_only(key),
    ensures
        m.insert(key, value).dom().contains(key),
        m.insert(key, value)[key] == value,
        other != key ==> m.insert(key, value).dom().contains(other) == m.dom().contains(other),
        other != key && m.dom().contains(other) ==> m.insert(key, value)[other] == m[other],
{
}

} // verus!
