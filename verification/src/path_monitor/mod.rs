//! Network path monitoring: the interfaces a monitor reports, the change events it emits,
//! and how a new list of interfaces is compared with the previous one. The platform
//! monitors that list interfaces and watch for changes are outside this library.

use vstd::prelude::*;
use vstd::string::StringExecFns;
use crate::types::IpAddress;

pub mod android;
pub mod apple;
pub mod integration;
pub mod linux;
pub mod windows;

verus! {

/// The status of an interface.
#[derive(Debug, Clone, Copy, PartialEq, Eq, Structural)]
pub enum Status {
    Up,
    Down,
    Unknown,
}

/// A network interface.
#[derive(Debug)]
pub struct Interface {
    /// Name, e.g. "en0" or "eth0".
    pub name: String,
    /// Interface index.
    pub index: u32,
    /// Assigned addresses.
    pub ips: Vec<IpAddress>,
    /// Up, down or unknown.
    pub status: Status,
    /// Kind, e.g. "wifi", "ethernet", "cellular".
    pub interface_type: String,
    /// Whether the interface is metered (e.g. cellular).
    pub is_expensive: bool,
}

/// The mathematical value of an interface.
pub struct InterfaceView {
    pub name: Seq<char>,
    pub index: u32,
    pub ips: Seq<IpAddress>,
    pub status: Status,
    pub interface_type: Seq<char>,
    pub is_expensive: bool,
}

impl View for Interface {
    type V = InterfaceView;

    open spec fn view(&self) -> InterfaceView {
        InterfaceView {
            name: self.name@,
            index: self.index,
            ips: self.ips@,
            status: self.status,
            interface_type: self.interface_type@,
            is_expensive: self.is_expensive,
        }
    }
}

impl Clone for Interface {
    fn clone(&self) -> (r: Self)
        ensures
            r@ == self@,
    {
        Interface {
            name: self.name.clone(),
            index: self.index,
            ips: vstd::slice::slice_to_vec(self.ips.as_slice()),
            status: self.status,
            interface_type: self.interface_type.clone(),
            is_expensive: self.is_expensive,
        }
    }
}

/// A change in the network.
#[derive(Debug, Clone)]
pub enum ChangeEvent {
    Added(Interface),
    Removed(Interface),
    Modified { old: Interface, new: Interface },
    /// A generic path change, described in words.
    PathChanged { description: String },
}

/// Path monitor errors.
#[derive(Debug)]
pub enum Error {
    PlatformError(String),
    PermissionDenied,
    NotSupported,
}

impl Error {
    /// The error's description, as `Display` formats it.
    pub fn to_string(&self) -> (r: String)
        ensures
            self matches Error::PlatformError(m) ==> r@ == "Platform error: "@ + m@,
            self is PermissionDenied ==> r@ == "Permission denied"@,
            self is NotSupported ==> r@ == "Operation not supported on this platform"@,
    {
        match self {
            Error::PlatformError(m) => String::from_str("Platform error: ").concat(m.as_str()),
            Error::PermissionDenied => String::from_str("Permission denied"),
            Error::NotSupported => String::from_str("Operation not supported on this platform"),
        }
    }
}

/// How often `x` occurs in `s`.
pub open spec fn occurrences(s: Seq<IpAddress>, x: IpAddress) -> nat
    decreases s.len(),
{
    if s.len() == 0 {
        0
    } else {
        occurrences(s.drop_last(), x) + if s.last() == x { 1nat } else { 0nat }
    }
}

/// Two address lists hold the same addresses, each as often, in any order.
pub open spec fn same_addresses(a: Seq<IpAddress>, b: Seq<IpAddress>) -> bool {
    forall|x: IpAddress| occurrences(a, x) == occurrences(b, x)
}

proof fn lemma_occurrences_count(s: Seq<IpAddress>, x: IpAddress)
    ensures
        occurrences(s, x) == s.to_multiset().count(x),
    decreases s.len(),
{
    broadcast use vstd::seq_lib::group_to_multiset_ensures;
    if s.len() > 0 {
        lemma_occurrences_count(s.drop_last(), x);
        assert(s =~= s.drop_last().push(s.last()));
    } else {
        assert(s.to_multiset().len() == 0);
    }
}

/// Law (address lists in any order): two address lists count as holding the same
/// addresses exactly when they are equal as multisets: each address occurs in both equally
/// often.
pub proof fn lemma_same_addresses_multiset(a: Seq<IpAddress>, b: Seq<IpAddress>)
    ensures
        same_addresses(a, b) <==> a.to_multiset() =~= b.to_multiset(),
{
    if same_addresses(a, b) {
        assert forall|x: IpAddress| a.to_multiset().count(x) == b.to_multiset().count(x) by {
            lemma_occurrences_count(a, x);
            lemma_occurrences_count(b, x);
        }
        assert(a.to_multiset() =~= b.to_multiset());
    }
    if a.to_multiset() =~= b.to_multiset() {
        assert forall|x: IpAddress| occurrences(a, x) == occurrences(b, x) by {
            lemma_occurrences_count(a, x);
            lemma_occurrences_count(b, x);
        }
    }
}

proof fn lemma_occurrences_absent(s: Seq<IpAddress>, x: IpAddress)
    requires
        forall|i: int| 0 <= i < s.len() ==> s[i] != x,
    ensures
        occurrences(s, x) == 0,
    decreases s.len(),
{
    if s.len() > 0 {
        lemma_occurrences_absent(s.drop_last(), x);
    }
}

fn count_of(s: &Vec<IpAddress>, x: IpAddress) -> (r: usize)
    ensures
        r == occurrences(s@, x),
{
    let mut c: usize = 0;
    let mut i: usize = 0;
    while i < s.len()
        invariant
            i <= s@.len(),
            c == occurrences(s@.take(i as int), x),
            c <= i,
        decreases s@.len() - i,
    {
        assert(s@.take(i + 1).drop_last() =~= s@.take(i as int));
        if s[i] == x {
            c += 1;
        }
        i += 1;
    }
    assert(s@.take(s@.len() as int) =~= s@);
    c
}

fn all_counts_match(a: &Vec<IpAddress>, b: &Vec<IpAddress>) -> (r: bool)
    ensures
        r == forall|i: int| 0 <= i < a@.len() ==> occurrences(a@, #[trigger] a@[i]) == occurrences(b@, a@[i]),
{
    let mut i: usize = 0;
    while i < a.len()
        invariant
            i <= a@.len(),
            forall|j: int| 0 <= j < i ==> occurrences(a@, #[trigger] a@[j]) == occurrences(b@, a@[j]),
        decreases a@.len() - i,
    {
        if count_of(a, a[i]) != count_of(b, a[i]) {
            return false;
        }
        i += 1;
    }
    true
}

/// Whether two address lists hold the same addresses, each as often, in any order.
pub fn ips_equal(a: &Vec<IpAddress>, b: &Vec<IpAddress>) -> (r: bool)
    ensures
        r == same_addresses(a@, b@),
{
    let ab = all_counts_match(a, b);
    let ba = all_counts_match(b, a);
    proof {
        if ab && ba {
            assert forall|x: IpAddress| occurrences(a@, x) == occurrences(b@, x) by {
                if exists|i: int| 0 <= i < a@.len() && a@[i] == x {
                    let i = choose|i: int| 0 <= i < a@.len() && a@[i] == x;
                    assert(occurrences(a@, a@[i]) == occurrences(b@, a@[i]));
                } else if exists|i: int| 0 <= i < b@.len() && b@[i] == x {
                    let i = choose|i: int| 0 <= i < b@.len() && b@[i] == x;
                    assert(occurrences(b@, b@[i]) == occurrences(a@, b@[i]));
                } else {
                    lemma_occurrences_absent(a@, x);
                    lemma_occurrences_absent(b@, x);
                }
            }
        }
        if !ab {
            let i = choose|i: int| 0 <= i < a@.len() && occurrences(a@, #[trigger] a@[i]) != occurrences(b@, a@[i]);
            assert(!same_addresses(a@, b@));
        }
        if !ba {
            let i = choose|i: int| 0 <= i < b@.len() && occurrences(b@, #[trigger] b@[i]) != occurrences(a@, b@[i]);
            assert(!same_addresses(a@, b@));
        }
    }
    ab && ba
}

fn same_ip_list(a: &Vec<IpAddress>, b: &Vec<IpAddress>) -> (r: bool)
    ensures
        r == (a@ == b@),
{
    if a.len() != b.len() {
        return false;
    }
    let mut i: usize = 0;
    while i < a.len()
        invariant
            a@.len() == b@.len(),
            i <= a@.len(),
            forall|j: int| 0 <= j < i ==> a@[j] == b@[j],
        decreases a@.len() - i,
    {
        if a[i] != b[i] {
            return false;
        }
        i += 1;
    }
    assert(a@ =~= b@);
    true
}

/// Two interfaces are equal field by field, the address lists in order.
pub open spec fn same_interface(a: InterfaceView, b: InterfaceView) -> bool {
    a == b
}

/// Two interfaces are equal field by field, the address lists in any order.
pub open spec fn same_interface_any_order(a: InterfaceView, b: InterfaceView) -> bool {
    &&& a.name == b.name
    &&& a.index == b.index
    &&& a.status == b.status
    &&& a.interface_type == b.interface_type
    &&& a.is_expensive == b.is_expensive
    &&& same_addresses(a.ips, b.ips)
}

/// Law (interfaces compared with addresses in any order): two interfaces count as the
/// same exactly when their names, indices, statuses, kinds and cost flags are equal and
/// their address lists hold the same multiset of addresses; so an interface that gained,
/// lost or changed an address is not the same.
pub proof fn lemma_same_interface_any_order(a: InterfaceView, b: InterfaceView)
    ensures
        same_interface_any_order(a, b) <==> (a.name == b.name && a.index == b.index && a.status == b.status
            && a.interface_type == b.interface_type && a.is_expensive == b.is_expensive
            && a.ips.to_multiset() == b.ips.to_multiset()),
{
    lemma_same_addresses_multiset(a.ips, b.ips);
}

/// Whether two interfaces are equal field by field, the address lists in order.
pub fn interfaces_equal(a: &Interface, b: &Interface) -> (r: bool)
    ensures
        r == same_interface(a@, b@),
{
    a.name == b.name && a.index == b.index && same_ip_list(&a.ips, &b.ips) && a.status == b.status
        && a.interface_type == b.interface_type && a.is_expensive == b.is_expensive
}

/// Whether two interfaces are equal field by field, the address lists in any order.
pub fn interfaces_equal_any_order(a: &Interface, b: &Interface) -> (r: bool)
    ensures
        r == same_interface_any_order(a@, b@),
{
    a.name == b.name && a.index == b.index && a.status == b.status && a.interface_type == b.interface_type
        && a.is_expensive == b.is_expensive && ips_equal(&a.ips, &b.ips)
}

/// How interfaces of two lists are matched with one another.
#[derive(Debug, Clone, Copy, PartialEq, Eq, Structural)]
pub enum InterfaceKey {
    /// By name.
    Name,
    /// By index.
    Index,
}

/// The value by which an interface is matched.
pub enum KeyValue {
    Name(Seq<char>),
    Index(u32),
}

/// The value by which `i` is matched under `k`.
pub open spec fn key_of(k: InterfaceKey, i: InterfaceView) -> KeyValue {
    match k {
        InterfaceKey::Name => KeyValue::Name(i.name),
        InterfaceKey::Index => KeyValue::Index(i.index),
    }
}

/// The views of a list of interfaces.
pub open spec fn interface_views(s: Seq<Interface>) -> Seq<InterfaceView> {
    s.map_values(|i: Interface| i@)
}

/// The last interface of `s` matched by `key` (a list read into a map keeps the last).
pub open spec fn latest(s: Seq<InterfaceView>, k: InterfaceKey, key: KeyValue) -> Option<InterfaceView>
    decreases s.len(),
{
    if s.len() == 0 {
        None
    } else if key_of(k, s.last()) == key {
        Some(s.last())
    } else {
        latest(s.drop_last(), k, key)
    }
}

/// The mathematical value of a change event.
pub enum ChangeView {
    Added(InterfaceView),
    Removed(InterfaceView),
    Modified(InterfaceView, InterfaceView),
    PathChanged(Seq<char>),
}

impl ChangeEvent {
    /// The mathematical value of the event.
    pub open spec fn change(&self) -> ChangeView {
        match self {
            ChangeEvent::Added(i) => ChangeView::Added(i@),
            ChangeEvent::Removed(i) => ChangeView::Removed(i@),
            ChangeEvent::Modified { old, new } => ChangeView::Modified(old@, new@),
            ChangeEvent::PathChanged { description } => ChangeView::PathChanged(description@),
        }
    }
}

/// Whether two interfaces count as unchanged.
pub open spec fn unchanged(a: InterfaceView, b: InterfaceView, any_order: bool) -> bool {
    if any_order {
        same_interface_any_order(a, b)
    } else {
        same_interface(a, b)
    }
}

/// The change for one key between the old and the new list, if any: an interface only in
/// the old list was removed, one only in the new list was added, one in both that differs
/// was modified.
pub open spec fn change_for(
    old: Seq<InterfaceView>,
    new: Seq<InterfaceView>,
    k: InterfaceKey,
    any_order: bool,
    key: KeyValue,
) -> Option<ChangeView> {
    match (latest(old, k, key), latest(new, k, key)) {
        (Some(o), None) => Some(ChangeView::Removed(o)),
        (None, Some(n)) => Some(ChangeView::Added(n)),
        (Some(o), Some(n)) => if unchanged(o, n, any_order) {
            None
        } else {
            Some(ChangeView::Modified(o, n))
        },
        (None, None) => None,
    }
}

/// The key of the interface an event is about.
pub open spec fn event_key(k: InterfaceKey, e: ChangeView) -> KeyValue {
    match e {
        ChangeView::Added(i) => key_of(k, i),
        ChangeView::Removed(i) => key_of(k, i),
        ChangeView::Modified(_, n) => key_of(k, n),
        ChangeView::PathChanged(_) => KeyValue::Index(0),
    }
}

/// `events` are exactly the changes from `old` to `new`: one event for each key that
/// changed, and none for any other key, in no particular order.
pub open spec fn are_changes(
    old: Seq<InterfaceView>,
    new: Seq<InterfaceView>,
    k: InterfaceKey,
    any_order: bool,
    events: Seq<ChangeView>,
) -> bool {
    &&& forall|i: int| 0 <= i < events.len() ==> change_for(old, new, k, any_order, event_key(k, #[trigger] events[i]))
        == Some(events[i])
    &&& forall|key: KeyValue| #[trigger] change_for(old, new, k, any_order, key) is Some ==> exists|i: int|
        0 <= i < events.len() && event_key(k, #[trigger] events[i]) == key
    &&& forall|i: int, j: int| 0 <= i < j < events.len() ==> event_key(k, #[trigger] events[i]) != event_key(k, #[trigger] events[j])
}

/// No later interface of `s` than position `p` has the key of `s[p]`.
pub open spec fn is_last_of_key(s: Seq<InterfaceView>, k: InterfaceKey, p: int) -> bool {
    forall|q: int| p < q < s.len() ==> key_of(k, #[trigger] s[q]) != key_of(k, s[p])
}

proof fn lemma_latest_found(s: Seq<InterfaceView>, k: InterfaceKey, p: int)
    requires
        0 <= p < s.len(),
        is_last_of_key(s, k, p),
    ensures
        latest(s, k, key_of(k, s[p])) == Some(s[p]),
    decreases s.len(),
{
    if p < s.len() - 1 {
        assert(key_of(k, s[s.len() - 1]) != key_of(k, s[p]));
        let t = s.drop_last();
        assert(t[p] == s[p]);
        assert(is_last_of_key(t, k, p)) by {
            assert forall|q: int| p < q < t.len() implies key_of(k, #[trigger] t[q]) != key_of(k, t[p]) by {
                assert(t[q] == s[q]);
            }
        }
        lemma_latest_found(t, k, p);
    }
}

proof fn lemma_latest_position(s: Seq<InterfaceView>, k: InterfaceKey, key: KeyValue)
    ensures
        latest(s, k, key) is None <==> forall|q: int| 0 <= q < s.len() ==> key_of(k, #[trigger] s[q]) != key,
        latest(s, k, key) matches Some(x) ==> exists|p: int| 0 <= p < s.len() && s[p] == x && key_of(k, x) == key
            && is_last_of_key(s, k, p),
    decreases s.len(),
{
    if s.len() > 0 {
        let t = s.drop_last();
        lemma_latest_position(t, k, key);
        if key_of(k, s.last()) == key {
            let p = s.len() - 1;
            assert(s[p] == s.last());
        } else {
            if latest(t, k, key) is None {
                assert forall|q: int| 0 <= q < s.len() implies key_of(k, #[trigger] s[q]) != key by {
                    if q < t.len() {
                        assert(s[q] == t[q]);
                    }
                }
            } else {
                let x = latest(t, k, key)->0;
                let p = choose|p: int| 0 <= p < t.len() && t[p] == x && key_of(k, x) == key && is_last_of_key(t, k, p);
                assert(s[p] == t[p]);
                assert(is_last_of_key(s, k, p)) by {
                    assert forall|q: int| p < q < s.len() implies key_of(k, #[trigger] s[q]) != key_of(k, s[p]) by {
                        if q < t.len() {
                            assert(s[q] == t[q]);
                        }
                    }
                }
            }
            if forall|q: int| 0 <= q < s.len() ==> key_of(k, #[trigger] s[q]) != key {
                assert forall|q: int| 0 <= q < t.len() implies key_of(k, #[trigger] t[q]) != key by {
                    assert(s[q] == t[q]);
                }
            }
        }
    }
}

fn key_matches(k: InterfaceKey, a: &Interface, b: &Interface) -> (r: bool)
    ensures
        r == (key_of(k, a@) == key_of(k, b@)),
{
    match k {
        InterfaceKey::Name => a.name == b.name,
        InterfaceKey::Index => a.index == b.index,
    }
}

fn last_of_key(s: &Vec<Interface>, k: InterfaceKey, p: usize) -> (r: bool)
    requires
        p < s@.len(),
    ensures
        r == is_last_of_key(interface_views(s@), k, p as int),
{
    let ghost sv = interface_views(s@);
    let n = s.len();
    let mut q = p + 1;
    while q < n
        invariant
            n == s@.len(),
            p < q <= s@.len(),
            sv == interface_views(s@),
            forall|j: int| p < j < q ==> key_of(k, #[trigger] sv[j]) != key_of(k, sv[p as int]),
        decreases s@.len() - q,
    {
        if key_matches(k, &s[q], &s[p]) {
            assert(key_of(k, sv[q as int]) == key_of(k, sv[p as int]));
            return false;
        }
        q += 1;
    }
    true
}

fn find_latest(s: &Vec<Interface>, k: InterfaceKey, x: &Interface) -> (r: Option<usize>)
    ensures
        r is None ==> latest(interface_views(s@), k, key_of(k, x@)) is None,
        r matches Some(p) ==> p < s@.len() && latest(interface_views(s@), k, key_of(k, x@)) == Some(s@[p as int]@),
{
    let ghost sv = interface_views(s@);
    let mut q = s.len();
    while q > 0
        invariant
            q <= s@.len(),
            sv == interface_views(s@),
            forall|j: int| q <= j < s@.len() ==> key_of(k, #[trigger] sv[j]) != key_of(k, x@),
        decreases q,
    {
        if key_matches(k, &s[q - 1], x) {
            proof {
                assert(sv[q - 1] == s@[q - 1]@);
                lemma_latest_found(sv, k, q - 1);
            }
            return Some(q - 1);
        }
        q -= 1;
    }
    proof {
        lemma_latest_position(sv, k, key_of(k, x@));
    }
    None
}

fn unchanged_exec(a: &Interface, b: &Interface, any_order: bool) -> (r: bool)
    ensures
        r == unchanged(a@, b@, any_order),
{
    if any_order {
        interfaces_equal_any_order(a, b)
    } else {
        interfaces_equal(a, b)
    }
}

/// Some position below `n` of `s` holds the last interface of `s` with key `kv`.
spec fn last_key_before(s: Seq<InterfaceView>, k: InterfaceKey, n: int, kv: KeyValue) -> bool {
    exists|p: int| 0 <= p < n && key_of(k, s[p]) == kv && #[trigger] is_last_of_key(s, k, p)
}

/// Some event of `out` is about the interface with key `kv`.
spec fn has_event_for(out: Seq<ChangeEvent>, k: InterfaceKey, kv: KeyValue) -> bool {
    exists|a: int| 0 <= a < out.len() && event_key(k, (#[trigger] out[a]).change()) == kv
}

proof fn lemma_last_key_grow(s: Seq<InterfaceView>, k: InterfaceKey, n: int, m: int, kv: KeyValue)
    requires
        n <= m,
        last_key_before(s, k, n, kv),
    ensures
        last_key_before(s, k, m, kv),
{
    let p = choose|p: int| 0 <= p < n && key_of(k, s[p]) == kv && #[trigger] is_last_of_key(s, k, p);
    assert(is_last_of_key(s, k, p));
}

proof fn lemma_event_kept(out: Seq<ChangeEvent>, e: ChangeEvent, k: InterfaceKey, kv: KeyValue)
    requires
        has_event_for(out, k, kv),
    ensures
        has_event_for(out.push(e), k, kv),
{
    let a = choose|a: int| 0 <= a < out.len() && event_key(k, (#[trigger] out[a]).change()) == kv;
    assert(out.push(e)[a] == out[a]);
}

proof fn lemma_event_pushed(out: Seq<ChangeEvent>, e: ChangeEvent, k: InterfaceKey)
    ensures
        has_event_for(out.push(e), k, event_key(k, e.change())),
{
    assert(out.push(e)[out.len() as int] == e);
}

/// The place of an event's kind in the order additions, removals, modifications, path
/// changes.
pub open spec fn kind_rank(e: ChangeView) -> int {
    match e {
        ChangeView::Added(_) => 0,
        ChangeView::Removed(_) => 1,
        ChangeView::Modified(_, _) => 2,
        ChangeView::PathChanged(_) => 3,
    }
}

/// All additions come first, then all removals, then all modifications.
pub open spec fn in_kind_order(events: Seq<ChangeView>) -> bool {
    forall|i: int, j: int| 0 <= i < j < events.len() ==> kind_rank(#[trigger] events[i]) <= kind_rank(#[trigger] events[j])
}

/// Every removal comes before every other event.
pub open spec fn removals_first(events: Seq<ChangeView>) -> bool {
    forall|i: int, j: int| 0 <= i < j < events.len() && (#[trigger] events[j]) is Removed ==> (#[trigger] events[i]) is Removed
}

/// The change events from an old list of interfaces to a new one: an interface (matched by
/// `key`, the last of its key in each list) that is only in the old list was removed, one
/// only in the new list was added, one in both that is no longer equal (address lists
/// compared in order, or in any order) was modified. One event per changed interface; the
/// removals come first.
pub fn interface_changes(old: &Vec<Interface>, new: &Vec<Interface>, key: InterfaceKey, ips_any_order: bool)
    -> (r: Vec<ChangeEvent>)
    ensures
        are_changes(interface_views(old@), interface_views(new@), key, ips_any_order, r@.map_values(|e: ChangeEvent| e.change())),
        removals_first(r@.map_values(|e: ChangeEvent| e.change())),
{
    let ghost ov = interface_views(old@);
    let ghost nv = interface_views(new@);
    let mut out: Vec<ChangeEvent> = Vec::new();
    let mut i: usize = 0;
    while i < old.len()
        invariant
            i <= old@.len(),
            ov == interface_views(old@),
            nv == interface_views(new@),
            forall|a: int| 0 <= a < out@.len() ==> change_for(ov, nv, key, ips_any_order,
                event_key(key, (#[trigger] out@[a]).change())) == Some(out@[a].change()),
            forall|a: int| 0 <= a < out@.len() ==> latest(nv, key, event_key(key, (#[trigger] out@[a]).change())) is None,
            forall|a: int| 0 <= a < out@.len() ==> last_key_before(ov, key, i as int, event_key(key, (#[trigger] out@[a]).change())),
            forall|a: int| 0 <= a < out@.len() ==> (#[trigger] out@[a]).change() is Removed,
            forall|a: int, b: int| 0 <= a < b < out@.len() ==> event_key(key, (#[trigger] out@[a]).change())
                != event_key(key, (#[trigger] out@[b]).change()),
            forall|p: int| 0 <= p < i && #[trigger] is_last_of_key(ov, key, p) && latest(nv, key, key_of(key, ov[p])) is None
                ==> has_event_for(out@, key, key_of(key, ov[p])),
        decreases old@.len() - i,
    {
        let ghost before = out@;
        if last_of_key(old, key, i) {
            match find_latest(new, key, &old[i]) {
                None => {
                    proof {
                        assert(ov[i as int] == old@[i as int]@);
                        lemma_latest_found(ov, key, i as int);
                    }
                    out.push(ChangeEvent::Removed(old[i].clone()));
                    proof {
                        let kv = key_of(key, ov[i as int]);
                        let e = out@[before.len() as int];
                        assert(out@ == before.push(e));
                        assert(e.change() == ChangeView::Removed(ov[i as int]));
                        assert forall|a: int| 0 <= a < before.len() implies event_key(key, (#[trigger] out@[a]).change()) != kv by {
                            assert(out@[a] == before[a]);
                            let ek = event_key(key, before[a].change());
                            let p = choose|p: int| 0 <= p < i && key_of(key, ov[p]) == ek && #[trigger] is_last_of_key(ov, key, p);
                            assert(key_of(key, ov[i as int]) != key_of(key, ov[p]));
                        }
                        assert forall|a: int| 0 <= a < out@.len() implies last_key_before(ov, key, i + 1,
                            event_key(key, (#[trigger] out@[a]).change())) by {
                            if a < before.len() {
                                assert(out@[a] == before[a]);
                                lemma_last_key_grow(ov, key, i as int, i + 1, event_key(key, before[a].change()));
                            } else {
                                assert(is_last_of_key(ov, key, i as int));
                            }
                        }
                        assert forall|p: int| 0 <= p < i + 1 && #[trigger] is_last_of_key(ov, key, p)
                            && latest(nv, key, key_of(key, ov[p])) is None implies has_event_for(out@, key, key_of(key, ov[p])) by {
                            if p < i {
                                lemma_event_kept(before, e, key, key_of(key, ov[p]));
                            } else {
                                lemma_event_pushed(before, e, key);
                            }
                        }
                    }
                },
                Some(_) => {},
            }
        }
        proof {
            if out@.len() == before.len() {
                assert forall|a: int| 0 <= a < out@.len() implies last_key_before(ov, key, i + 1,
                    event_key(key, (#[trigger] out@[a]).change())) by {
                    lemma_last_key_grow(ov, key, i as int, i + 1, event_key(key, out@[a].change()));
                }
            }
        }
        i += 1;
    }
    let ghost removed_count = out@.len();
    let mut j: usize = 0;
    while j < new.len()
        invariant
            j <= new@.len(),
            removed_count <= out@.len(),
            ov == interface_views(old@),
            nv == interface_views(new@),
            forall|a: int| 0 <= a < out@.len() ==> change_for(ov, nv, key, ips_any_order,
                event_key(key, (#[trigger] out@[a]).change())) == Some(out@[a].change()),
            forall|a: int| 0 <= a < removed_count ==> latest(nv, key, event_key(key, (#[trigger] out@[a]).change())) is None,
            forall|a: int| 0 <= a < removed_count ==> (#[trigger] out@[a]).change() is Removed,
            forall|a: int| removed_count <= a < out@.len() ==> !((#[trigger] out@[a]).change() is Removed),
            forall|a: int| removed_count <= a < out@.len() ==> last_key_before(nv, key, j as int,
                event_key(key, (#[trigger] out@[a]).change())),
            forall|a: int, b: int| 0 <= a < b < out@.len() ==> event_key(key, (#[trigger] out@[a]).change())
                != event_key(key, (#[trigger] out@[b]).change()),
            forall|p: int| 0 <= p < ov.len() && #[trigger] is_last_of_key(ov, key, p) && latest(nv, key, key_of(key, ov[p])) is None
                ==> has_event_for(out@, key, key_of(key, ov[p])),
            forall|q: int| 0 <= q < j && #[trigger] is_last_of_key(nv, key, q)
                && change_for(ov, nv, key, ips_any_order, key_of(key, nv[q])) is Some
                ==> has_event_for(out@, key, key_of(key, nv[q])),
        decreases new@.len() - j,
    {
        let ghost before = out@;
        let ghost kv = key_of(key, nv[j as int]);
        let last = last_of_key(new, key, j);
        if last {
            proof {
                assert(nv[j as int] == new@[j as int]@);
                lemma_latest_found(nv, key, j as int);
            }
            match find_latest(old, key, &new[j]) {
                None => {
                    out.push(ChangeEvent::Added(new[j].clone()));
                },
                Some(p) => {
                    if !unchanged_exec(&old[p], &new[j], ips_any_order) {
                        out.push(ChangeEvent::Modified { old: old[p].clone(), new: new[j].clone() });
                    }
                },
            }
            proof {
                if out@.len() > before.len() {
                    let e = out@[before.len() as int];
                    assert(out@ == before.push(e));
                    assert(event_key(key, e.change()) == kv);
                    assert(change_for(ov, nv, key, ips_any_order, kv) == Some(e.change()));
                    assert forall|a: int| 0 <= a < before.len() implies event_key(key, (#[trigger] out@[a]).change()) != kv by {
                        assert(out@[a] == before[a]);
                        let ek = event_key(key, before[a].change());
                        if a < removed_count {
                            assert(latest(nv, key, ek) is None);
                        } else {
                            let q = choose|q: int| 0 <= q < j && key_of(key, nv[q]) == ek && #[trigger] is_last_of_key(nv, key, q);
                            assert(key_of(key, nv[j as int]) != key_of(key, nv[q]));
                        }
                    }
                    assert forall|a: int| removed_count <= a < out@.len() implies last_key_before(nv, key, j + 1,
                        event_key(key, (#[trigger] out@[a]).change())) by {
                        if a < before.len() {
                            assert(out@[a] == before[a]);
                            lemma_last_key_grow(nv, key, j as int, j + 1, event_key(key, before[a].change()));
                        } else {
                            assert(is_last_of_key(nv, key, j as int));
                        }
                    }
                    assert forall|a: int| 0 <= a < removed_count implies latest(nv, key,
                        event_key(key, (#[trigger] out@[a]).change())) is None by {
                        assert(out@[a] == before[a]);
                    }
                    assert forall|p: int| 0 <= p < ov.len() && #[trigger] is_last_of_key(ov, key, p)
                        && latest(nv, key, key_of(key, ov[p])) is None implies has_event_for(out@, key, key_of(key, ov[p])) by {
                        lemma_event_kept(before, e, key, key_of(key, ov[p]));
                    }
                    assert forall|q: int| 0 <= q < j + 1 && #[trigger] is_last_of_key(nv, key, q)
                        && change_for(ov, nv, key, ips_any_order, key_of(key, nv[q])) is Some
                        implies has_event_for(out@, key, key_of(key, nv[q])) by {
                        if q < j {
                            lemma_event_kept(before, e, key, key_of(key, nv[q]));
                        } else {
                            lemma_event_pushed(before, e, key);
                        }
                    }
                } else {
                    assert(out@ == before);
                    assert(change_for(ov, nv, key, ips_any_order, kv) is None);
                    assert forall|a: int| removed_count <= a < out@.len() implies last_key_before(nv, key, j + 1,
                        event_key(key, (#[trigger] out@[a]).change())) by {
                        lemma_last_key_grow(nv, key, j as int, j + 1, event_key(key, out@[a].change()));
                    }
                }
            }
        } else {
            proof {
                assert forall|a: int| removed_count <= a < out@.len() implies last_key_before(nv, key, j + 1,
                    event_key(key, (#[trigger] out@[a]).change())) by {
                    lemma_last_key_grow(nv, key, j as int, j + 1, event_key(key, out@[a].change()));
                }
            }
        }
        j += 1;
    }
    proof {
        let evs = out@.map_values(|e: ChangeEvent| e.change());
        assert forall|kv: KeyValue| #[trigger] change_for(ov, nv, key, ips_any_order, kv) is Some implies exists|a: int|
            0 <= a < evs.len() && event_key(key, #[trigger] evs[a]) == kv by {
            lemma_latest_position(nv, key, kv);
            lemma_latest_position(ov, key, kv);
            if latest(nv, key, kv) is Some {
                let x = latest(nv, key, kv)->0;
                let q = choose|q: int| 0 <= q < nv.len() && nv[q] == x && key_of(key, x) == kv && is_last_of_key(nv, key, q);
                assert(is_last_of_key(nv, key, q));
                assert(has_event_for(out@, key, key_of(key, nv[q])));
                let a = choose|a: int| 0 <= a < out@.len() && event_key(key, (#[trigger] out@[a]).change()) == kv;
                assert(evs[a] == out@[a].change());
            } else {
                let x = latest(ov, key, kv)->0;
                let p = choose|p: int| 0 <= p < ov.len() && ov[p] == x && key_of(key, x) == kv && is_last_of_key(ov, key, p);
                assert(is_last_of_key(ov, key, p));
                assert(has_event_for(out@, key, key_of(key, ov[p])));
                let a = choose|a: int| 0 <= a < out@.len() && event_key(key, (#[trigger] out@[a]).change()) == kv;
                assert(evs[a] == out@[a].change());
            }
        }
        assert forall|a: int| 0 <= a < evs.len() implies change_for(ov, nv, key, ips_any_order, event_key(key, #[trigger] evs[a]))
            == Some(evs[a]) by {
            assert(evs[a] == out@[a].change());
        }
        assert forall|a: int, b: int| 0 <= a < b < evs.len() implies event_key(key, #[trigger] evs[a]) != event_key(key, #[trigger] evs[b]) by {
            assert(evs[a] == out@[a].change());
            assert(evs[b] == out@[b].change());
        }
        assert forall|a: int, b: int| 0 <= a < b < evs.len() && (#[trigger] evs[b]) is Removed implies (#[trigger] evs[a]) is Removed by {
            assert(evs[a] == out@[a].change());
            assert(evs[b] == out@[b].change());
        }
    }
    out
}

/// Law: an address list holds the same addresses as itself, and holding the same
/// addresses goes both ways.
pub proof fn lemma_same_addresses_equivalence(a: Seq<IpAddress>, b: Seq<IpAddress>)
    ensures
        same_addresses(a, a),
        same_addresses(a, b) ==> same_addresses(b, a),
{
}

/// Law: a list of interfaces compared with itself has no changes, whatever the key and the
/// comparison of address lists.
pub proof fn lemma_no_changes_against_itself(
    s: Seq<InterfaceView>,
    k: InterfaceKey,
    any_order: bool,
    events: Seq<ChangeView>,
)
    requires
        are_changes(s, s, k, any_order, events),
    ensures
        events.len() == 0,
{
    if events.len() > 0 {
        let kv = event_key(k, events[0]);
        assert(change_for(s, s, k, any_order, kv) == Some(events[0]));
        match latest(s, k, kv) {
            Some(o) => {
                lemma_same_addresses_equivalence(o.ips, o.ips);
                assert(unchanged(o, o, any_order));
            },
            None => {},
        }
    }
}

/// The interface with key `kv` once `events` are applied to `old`: an event about `kv`
/// decides it (a removal leaves none, an addition or a modification leaves the new
/// interface); without one, the old list's interface stays.
pub open spec fn after_events(old: Seq<InterfaceView>, k: InterfaceKey, events: Seq<ChangeView>, kv: KeyValue) -> Option<InterfaceView> {
    if exists|i: int| 0 <= i < events.len() && event_key(k, #[trigger] events[i]) == kv {
        let i = choose|i: int| 0 <= i < events.len() && event_key(k, #[trigger] events[i]) == kv;
        match events[i] {
            ChangeView::Removed(_) => None,
            ChangeView::Added(n) => Some(n),
            ChangeView::Modified(_, n) => Some(n),
            ChangeView::PathChanged(_) => latest(old, k, kv),
        }
    } else {
        latest(old, k, kv)
    }
}

/// Law (what the changes undo): applying the change events between two lists to the old
/// list gives, for every key, the new list's interface, when address lists are compared
/// in order.
pub proof fn lemma_changes_replay(
    old: Seq<InterfaceView>,
    new: Seq<InterfaceView>,
    k: InterfaceKey,
    events: Seq<ChangeView>,
    kv: KeyValue,
)
    requires
        are_changes(old, new, k, false, events),
    ensures
        after_events(old, k, events, kv) == latest(new, k, kv),
{
    if exists|i: int| 0 <= i < events.len() && event_key(k, #[trigger] events[i]) == kv {
        let i = choose|i: int| 0 <= i < events.len() && event_key(k, #[trigger] events[i]) == kv;
        assert(change_for(old, new, k, false, event_key(k, events[i])) == Some(events[i]));
    } else {
        if change_for(old, new, k, false, kv) is Some {
            let i = choose|i: int| 0 <= i < events.len() && event_key(k, #[trigger] events[i]) == kv;
            assert(false);
        }
    }
}

} // verus!
