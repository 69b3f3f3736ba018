//! Windows network monitoring: interface types and how a new interface list is compared
//! with the previous one. The IP Helper calls are outside this library.

use vstd::prelude::*;
use vstd::string::StringExecFns;
use crate::path_monitor::{
    are_changes, change_for, event_key, in_kind_order, interface_changes, interface_views, is_last_of_key, key_of, kind_rank,
    latest, lemma_latest_found, lemma_same_interface_any_order, same_interface_any_order, unchanged, ChangeEvent, ChangeView, Interface, InterfaceKey,
    InterfaceView, KeyValue, Status,
};
use crate::text::{decimal, decimal_text};
use crate::types::IpAddress;

verus! {

/// The interface kind for a Windows interface type constant.
pub open spec fn windows_interface_type(if_type: u32) -> Seq<char> {
    if if_type == 6 {
        "ethernet"@
    } else if if_type == 71 {
        "wifi"@
    } else if if_type == 243 || if_type == 244 {
        "cellular"@
    } else if if_type == 24 {
        "loopback"@
    } else {
        "unknown"@
    }
}

/// The interface kind for a Windows interface type constant (Ethernet CSMA/CD, IEEE
/// 802.11, WWAN, software loopback; anything else is unknown).
pub fn detect_interface_type(if_type: u32) -> (r: String)
    ensures
        r@ == windows_interface_type(if_type),
{
    let s = if if_type == 6 {
        "ethernet"
    } else if if_type == 71 {
        "wifi"
    } else if if_type == 243 || if_type == 244 {
        "cellular"
    } else if if_type == 24 {
        "loopback"
    } else {
        "unknown"
    };
    String::from_str(s)
}

/// The place of the event's kind in the order additions, removals, modifications.
fn rank_of(e: &ChangeEvent) -> (r: u8)
    ensures
        r == kind_rank(e.change()),
{
    match e {
        ChangeEvent::Added(_) => 0,
        ChangeEvent::Removed(_) => 1,
        ChangeEvent::Modified { .. } => 2,
        ChangeEvent::PathChanged { .. } => 3,
    }
}

/// A copy of an event.
fn copy_event(e: &ChangeEvent) -> (r: ChangeEvent)
    ensures
        r.change() == e.change(),
{
    match e {
        ChangeEvent::Added(i) => ChangeEvent::Added(i.clone()),
        ChangeEvent::Removed(i) => ChangeEvent::Removed(i.clone()),
        ChangeEvent::Modified { old, new } => ChangeEvent::Modified { old: old.clone(), new: new.clone() },
        ChangeEvent::PathChanged { description } => ChangeEvent::PathChanged { description: description.clone() },
    }
}

/// Whether the event at position `j` of `ev` has been placed after `k` full passes and
/// `i` steps of the next.
spec fn placed(ev: Seq<ChangeView>, k: int, i: int, j: int) -> bool {
    kind_rank(ev[j]) < k || (kind_rank(ev[j]) == k && j < i)
}

/// The change events between the previous and the current interface list, interfaces
/// matched by index, address lists compared in any order: all additions first, then all
/// removals, then all modifications.
pub fn interface_list_changes(old: &Vec<Interface>, new: &Vec<Interface>) -> (r: Vec<ChangeEvent>)
    ensures
        are_changes(interface_views(old@), interface_views(new@), InterfaceKey::Index, true, r@.map_values(|e: ChangeEvent| e.change())),
        in_kind_order(r@.map_values(|e: ChangeEvent| e.change())),
{
    let evs = interface_changes(old, new, InterfaceKey::Index, true);
    let ghost ev = evs@.map_values(|e: ChangeEvent| e.change());
    let ghost ov = interface_views(old@);
    let ghost nv = interface_views(new@);
    let mut out: Vec<ChangeEvent> = Vec::new();
    let ghost mut src: Seq<int> = Seq::empty();
    let ghost mut pos: Map<int, int> = Map::empty();
    let mut k: u8 = 0;
    while k < 4
        invariant
            k <= 4,
            ev == evs@.map_values(|e: ChangeEvent| e.change()),
            src.len() == out@.len(),
            forall|a: int| 0 <= a < out@.len() ==> 0 <= #[trigger] src[a] < ev.len() && placed(ev, k as int, 0, src[a]),
            forall|a: int| 0 <= a < out@.len() ==> (#[trigger] out@[a]).change() == ev[src[a]],
            forall|a: int, b: int| 0 <= a < b < out@.len() ==> kind_rank((#[trigger] out@[a]).change())
                <= kind_rank((#[trigger] out@[b]).change()),
            forall|a: int, b: int| 0 <= a < b < out@.len() ==> #[trigger] src[a] != #[trigger] src[b],
            forall|j: int| 0 <= j < ev.len() && #[trigger] placed(ev, k as int, 0, j) ==> pos.dom().contains(j)
                && 0 <= pos[j] < out@.len() && src[pos[j]] == j,
        decreases 4 - k,
    {
        let mut i: usize = 0;
        while i < evs.len()
            invariant
                k < 4,
                i <= evs@.len(),
                ev == evs@.map_values(|e: ChangeEvent| e.change()),
                src.len() == out@.len(),
                forall|a: int| 0 <= a < out@.len() ==> 0 <= #[trigger] src[a] < ev.len() && placed(ev, k as int, i as int, src[a]),
                forall|a: int| 0 <= a < out@.len() ==> (#[trigger] out@[a]).change() == ev[src[a]],
                forall|a: int| 0 <= a < out@.len() ==> kind_rank((#[trigger] out@[a]).change()) <= k,
                forall|a: int, b: int| 0 <= a < b < out@.len() ==> kind_rank((#[trigger] out@[a]).change())
                    <= kind_rank((#[trigger] out@[b]).change()),
                forall|a: int, b: int| 0 <= a < b < out@.len() ==> #[trigger] src[a] != #[trigger] src[b],
                forall|j: int| 0 <= j < ev.len() && #[trigger] placed(ev, k as int, i as int, j) ==> pos.dom().contains(j)
                    && 0 <= pos[j] < out@.len() && src[pos[j]] == j,
            decreases evs@.len() - i,
        {
            proof {
                assert(ev[i as int] == evs@[i as int].change());
            }
            let r = rank_of(&evs[i]);
            if r == k {
                let ghost before = out@;
                let ghost src0 = src;
                out.push(copy_event(&evs[i]));
                proof {
                    src = src.push(i as int);
                    pos = pos.insert(i as int, before.len() as int);
                    assert(ev[i as int] == evs@[i as int].change());
                    assert forall|a: int| 0 <= a < out@.len() implies (#[trigger] out@[a]).change() == ev[src[a]] by {
                        if a < before.len() {
                            assert(out@[a] == before[a]);
                            assert(src[a] == src0[a]);
                        }
                    }
                    assert forall|a: int, b: int| 0 <= a < b < out@.len() implies #[trigger] src[a] != #[trigger] src[b] by {
                        if b < before.len() {
                            assert(src[a] == src0[a] && src[b] == src0[b]);
                        } else {
                            assert(src[a] == src0[a]);
                            assert(placed(ev, k as int, i as int, src0[a]));
                        }
                    }
                    assert(pos.dom().contains(i as int) && pos[i as int] == before.len() && src[pos[i as int]] == i);
                }
            }
            proof {
                assert forall|j: int| 0 <= j < ev.len() && #[trigger] placed(ev, k as int, i + 1, j) implies pos.dom().contains(j)
                    && 0 <= pos[j] < out@.len() && src[pos[j]] == j by {
                    if j != i || kind_rank(ev[j]) < k {
                        assert(placed(ev, k as int, i as int, j));
                    } else {
                        assert(r == k);
                    }
                }
            }
            i += 1;
        }
        proof {
            assert forall|j: int| 0 <= j < ev.len() && #[trigger] placed(ev, k + 1, 0, j) implies pos.dom().contains(j)
                && 0 <= pos[j] < out@.len() && src[pos[j]] == j by {
                assert(placed(ev, k as int, i as int, j));
            }
            assert forall|a: int| 0 <= a < out@.len() implies 0 <= #[trigger] src[a] < ev.len() && placed(ev, k + 1, 0, src[a]) by {
                assert(placed(ev, k as int, i as int, src[a]));
            }
        }
        k += 1;
    }
    proof {
        let rv = out@.map_values(|e: ChangeEvent| e.change());
        assert(are_changes(ov, nv, InterfaceKey::Index, true, ev));
        assert forall|a: int| 0 <= a < rv.len() implies change_for(ov, nv, InterfaceKey::Index, true,
            event_key(InterfaceKey::Index, #[trigger] rv[a])) == Some(rv[a]) by {
            assert(rv[a] == out@[a].change());
            assert(ev[src[a]] == rv[a]);
        }
        assert forall|key| #[trigger] change_for(ov, nv, InterfaceKey::Index, true, key) is Some implies exists|a: int|
            0 <= a < rv.len() && event_key(InterfaceKey::Index, #[trigger] rv[a]) == key by {
            let j = choose|j: int| 0 <= j < ev.len() && event_key(InterfaceKey::Index, #[trigger] ev[j]) == key;
            assert(change_for(ov, nv, InterfaceKey::Index, true, event_key(InterfaceKey::Index, ev[j])) == Some(ev[j]));
            assert(kind_rank(ev[j]) < 3);
            assert(placed(ev, 4, 0, j));
            let a = pos[j];
            assert(rv[a] == out@[a].change());
        }
        assert forall|a: int, b: int| 0 <= a < b < rv.len() implies event_key(InterfaceKey::Index, #[trigger] rv[a])
            != event_key(InterfaceKey::Index, #[trigger] rv[b]) by {
            assert(rv[a] == out@[a].change());
            assert(rv[b] == out@[b].change());
            assert(src[a] != src[b]);
            if src[a] < src[b] {
                assert(event_key(InterfaceKey::Index, ev[src[a]]) != event_key(InterfaceKey::Index, ev[src[b]]));
            } else {
                assert(event_key(InterfaceKey::Index, ev[src[b]]) != event_key(InterfaceKey::Index, ev[src[a]]));
            }
        }
        assert forall|a: int, b: int| 0 <= a < b < rv.len() implies kind_rank(#[trigger] rv[a]) <= kind_rank(#[trigger] rv[b]) by {
            assert(rv[a] == out@[a].change());
            assert(rv[b] == out@[b].change());
        }
    }
    out
}

/// No index occurs twice in the list.
pub open spec fn distinct_indices(s: Seq<InterfaceView>) -> bool {
    forall|i: int, j: int| 0 <= i < j < s.len() ==> #[trigger] s[i].index != #[trigger] s[j].index
}

/// Some interface of the list has index `x`.
pub open spec fn has_index(s: Seq<InterfaceView>, x: u32) -> bool {
    exists|i: int| 0 <= i < s.len() && #[trigger] s[i].index == x
}

/// `e` is an event that the Windows monitor reports from `old` to `new`: the addition of
/// an interface of `new` whose index is not in `old`, the removal of an interface of `old`
/// whose index is not in `new`, or the modification of an interface of `old` into the
/// interface of `new` with the same index that is not equal to it (addresses compared in
/// any order).
pub open spec fn reported_change(old: Seq<InterfaceView>, new: Seq<InterfaceView>, e: ChangeView) -> bool {
    match e {
        ChangeView::Added(n) => (exists|j: int| 0 <= j < new.len() && #[trigger] new[j] == n) && !has_index(old, n.index),
        ChangeView::Removed(o) => (exists|i: int| 0 <= i < old.len() && #[trigger] old[i] == o) && !has_index(new, o.index),
        ChangeView::Modified(o, n) => (exists|i: int| 0 <= i < old.len() && #[trigger] old[i] == o)
            && (exists|j: int| 0 <= j < new.len() && #[trigger] new[j] == n) && o.index == n.index
            && !same_interface_any_order(o, n),
        ChangeView::PathChanged(_) => false,
    }
}

proof fn lemma_latest_member(s: Seq<InterfaceView>, key: KeyValue)
    ensures
        latest(s, InterfaceKey::Index, key) matches Some(x) ==> (exists|i: int| 0 <= i < s.len() && #[trigger] s[i] == x)
            && key_of(InterfaceKey::Index, x) == key,
    decreases s.len(),
{
    if s.len() > 0 {
        if key_of(InterfaceKey::Index, s.last()) == key {
            assert(s[s.len() - 1] == s.last());
        } else {
            lemma_latest_member(s.drop_last(), key);
            if let Some(x) = latest(s.drop_last(), InterfaceKey::Index, key) {
                let i = choose|i: int| 0 <= i < s.drop_last().len() && #[trigger] s.drop_last()[i] == x;
                assert(s[i] == x);
            }
        }
    }
}

proof fn lemma_latest_index_found(s: Seq<InterfaceView>, i: int)
    requires
        distinct_indices(s),
        0 <= i < s.len(),
    ensures
        latest(s, InterfaceKey::Index, KeyValue::Index(s[i].index)) == Some(s[i]),
{
    assert(is_last_of_key(s, InterfaceKey::Index, i)) by {
        assert forall|q: int| i < q < s.len() implies key_of(InterfaceKey::Index, #[trigger] s[q])
            != key_of(InterfaceKey::Index, s[i]) by {
            assert(s[i].index != s[q].index);
        }
    }
    lemma_latest_found(s, InterfaceKey::Index, i);
}

proof fn lemma_latest_index_absent(s: Seq<InterfaceView>, x: u32)
    requires
        !has_index(s, x),
    ensures
        latest(s, InterfaceKey::Index, KeyValue::Index(x)) is None,
    decreases s.len(),
{
    if s.len() > 0 {
        assert(s[s.len() - 1].index != x);
        assert(!has_index(s.drop_last(), x)) by {
            if has_index(s.drop_last(), x) {
                let i = choose|i: int| 0 <= i < s.drop_last().len() && #[trigger] s.drop_last()[i].index == x;
                assert(s[i].index == x);
            }
        }
        lemma_latest_index_absent(s.drop_last(), x);
    }
}

/// Law (what the Windows monitor reports): for lists in which no index occurs twice,
/// change events that are the changes from `old` to `new` (as `interface_list_changes`
/// states of its result) hold an addition for each interface of `new` whose index is not
/// in `old`, a removal for each interface of `old` whose index is not in `new`, and a
/// modification for each interface of `old` and the interface of `new` with its index when
/// the two are not equal (addresses compared in any order); they hold no other event, and
/// none twice.
pub proof fn lemma_index_changes(old: Seq<InterfaceView>, new: Seq<InterfaceView>, events: Seq<ChangeView>)
    requires
        distinct_indices(old),
        distinct_indices(new),
        are_changes(old, new, InterfaceKey::Index, true, events),
    ensures
        forall|j: int| 0 <= j < new.len() && !has_index(old, new[j].index) ==> events.contains(ChangeView::Added(#[trigger] new[j])),
        forall|i: int| 0 <= i < old.len() && !has_index(new, old[i].index) ==> events.contains(ChangeView::Removed(#[trigger] old[i])),
        forall|i: int, j: int| 0 <= i < old.len() && 0 <= j < new.len() && #[trigger] old[i].index == #[trigger] new[j].index
            && !same_interface_any_order(old[i], new[j]) ==> events.contains(ChangeView::Modified(old[i], new[j])),
        forall|a: int| 0 <= a < events.len() ==> reported_change(old, new, #[trigger] events[a]),
        forall|a: int, b: int| 0 <= a < b < events.len() ==> #[trigger] events[a] != #[trigger] events[b],
        forall|i: int, j: int| 0 <= i < old.len() && 0 <= j < new.len() && #[trigger] old[i].index == #[trigger] new[j].index
            && (old[i].name != new[j].name || old[i].status != new[j].status || old[i].interface_type != new[j].interface_type
            || old[i].is_expensive != new[j].is_expensive || old[i].ips.to_multiset() != new[j].ips.to_multiset())
            ==> events.contains(ChangeView::Modified(old[i], new[j])),
        forall|a: int| 0 <= a < events.len() ==> (#[trigger] events[a] matches ChangeView::Modified(o, n) ==> (o.name != n.name
            || o.status != n.status || o.interface_type != n.interface_type || o.is_expensive != n.is_expensive
            || o.ips.to_multiset() != n.ips.to_multiset())),
{
    let k = InterfaceKey::Index;
    assert forall|j: int| 0 <= j < new.len() && !has_index(old, new[j].index) implies events.contains(
        ChangeView::Added(#[trigger] new[j])) by {
        let key = KeyValue::Index(new[j].index);
        lemma_latest_index_absent(old, new[j].index);
        lemma_latest_index_found(new, j);
        assert(change_for(old, new, k, true, key) is Some);
        let a = choose|a: int| 0 <= a < events.len() && event_key(k, #[trigger] events[a]) == key;
        assert(change_for(old, new, k, true, event_key(k, events[a])) == Some(events[a]));
        assert(events[a] == ChangeView::Added(new[j]));
    }
    assert forall|i: int| 0 <= i < old.len() && !has_index(new, old[i].index) implies events.contains(
        ChangeView::Removed(#[trigger] old[i])) by {
        let key = KeyValue::Index(old[i].index);
        lemma_latest_index_absent(new, old[i].index);
        lemma_latest_index_found(old, i);
        assert(change_for(old, new, k, true, key) is Some);
        let a = choose|a: int| 0 <= a < events.len() && event_key(k, #[trigger] events[a]) == key;
        assert(change_for(old, new, k, true, event_key(k, events[a])) == Some(events[a]));
        assert(events[a] == ChangeView::Removed(old[i]));
    }
    assert forall|i: int, j: int| 0 <= i < old.len() && 0 <= j < new.len() && #[trigger] old[i].index == #[trigger] new[j].index
        && !same_interface_any_order(old[i], new[j]) implies events.contains(ChangeView::Modified(old[i], new[j])) by {
        let key = KeyValue::Index(old[i].index);
        lemma_latest_index_found(old, i);
        lemma_latest_index_found(new, j);
        assert(!unchanged(old[i], new[j], true));
        assert(change_for(old, new, k, true, key) is Some);
        let a = choose|a: int| 0 <= a < events.len() && event_key(k, #[trigger] events[a]) == key;
        assert(change_for(old, new, k, true, event_key(k, events[a])) == Some(events[a]));
        assert(events[a] == ChangeView::Modified(old[i], new[j]));
    }
    assert forall|a: int| 0 <= a < events.len() implies reported_change(old, new, #[trigger] events[a]) by {
        let key = event_key(k, events[a]);
        assert(change_for(old, new, k, true, key) == Some(events[a]));
        lemma_latest_member(old, key);
        lemma_latest_member(new, key);
        match events[a] {
            ChangeView::Added(n) => {
                if has_index(old, n.index) {
                    let i = choose|i: int| 0 <= i < old.len() && #[trigger] old[i].index == n.index;
                    lemma_latest_index_found(old, i);
                }
            },
            ChangeView::Removed(o) => {
                if has_index(new, o.index) {
                    let j = choose|j: int| 0 <= j < new.len() && #[trigger] new[j].index == o.index;
                    lemma_latest_index_found(new, j);
                }
            },
            _ => {},
        }
    }
    assert forall|a: int, b: int| 0 <= a < b < events.len() implies #[trigger] events[a] != #[trigger] events[b] by {
        assert(event_key(k, events[a]) != event_key(k, events[b]));
    }
    assert forall|i: int, j: int| 0 <= i < old.len() && 0 <= j < new.len() && #[trigger] old[i].index == #[trigger] new[j].index
        && (old[i].name != new[j].name || old[i].status != new[j].status || old[i].interface_type != new[j].interface_type
        || old[i].is_expensive != new[j].is_expensive || old[i].ips.to_multiset() != new[j].ips.to_multiset())
        implies events.contains(ChangeView::Modified(old[i], new[j])) by {
        lemma_same_interface_any_order(old[i], new[j]);
    }
    assert forall|a: int| 0 <= a < events.len() implies (#[trigger] events[a] matches ChangeView::Modified(o, n) ==> (o.name
        != n.name || o.status != n.status || o.interface_type != n.interface_type || o.is_expensive != n.is_expensive
        || o.ips.to_multiset() != n.ips.to_multiset())) by {
        if let ChangeView::Modified(o, n) = events[a] {
            assert(reported_change(old, new, events[a]));
            lemma_same_interface_any_order(o, n);
        }
    }
}

/// The interface for an adapter of the system's adapter list (what `list_interfaces`
/// makes of one): none for an adapter that is down; otherwise its friendly name (or
/// `Unknown` and its IPv6 interface index when the name cannot be read), that index, its
/// unicast addresses, status up, the kind for its interface type, and not expensive.
pub fn adapter_interface(friendly_name: Option<String>, ipv6_index: u32, down: bool, if_type: u32, ips: Vec<IpAddress>)
    -> (r: Option<Interface>)
    ensures
        r is None <==> down,
        r matches Some(i) ==> i@ == (InterfaceView {
            name: match friendly_name {
                Some(n) => n@,
                None => "Unknown"@ + decimal(ipv6_index as nat),
            },
            index: ipv6_index,
            ips: ips@,
            status: Status::Up,
            interface_type: windows_interface_type(if_type),
            is_expensive: false,
        }),
{
    if down {
        return None;
    }
    let name = match friendly_name {
        Some(n) => n,
        None => String::from_str("Unknown").concat(decimal_text(ipv6_index as usize).as_str()),
    };
    Some(Interface {
        name,
        index: ipv6_index,
        ips,
        status: Status::Up,
        interface_type: detect_interface_type(if_type),
        is_expensive: false,
    })
}

} // verus!
