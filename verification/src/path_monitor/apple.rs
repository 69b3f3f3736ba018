//! Apple network monitoring: interface types and costs from interface names, how the
//! entries of the system's address list make up the interfaces, and how a path change is
//! described. The Network.framework and getifaddrs calls are outside this library.

use vstd::prelude::*;
use vstd::string::StringExecFns;
use crate::path_monitor::{ChangeEvent, Interface, InterfaceView, Status};
use crate::text::{starts_with, str_equal};
use crate::types::IpAddress;

verus! {

/// The interface kind an Apple interface name suggests.
pub open spec fn apple_interface_type(name: Seq<char>) -> Seq<char> {
    if name == "lo0"@ || name == "lo"@ {
        "loopback"@
    } else if name == "en0"@ {
        "wifi"@
    } else if "en"@.is_prefix_of(name) {
        "ethernet"@
    } else if "pdp_ip"@.is_prefix_of(name) {
        "cellular"@
    } else if "bridge"@.is_prefix_of(name) {
        "bridge"@
    } else if "utun"@.is_prefix_of(name) || "ipsec"@.is_prefix_of(name) || "ppp"@.is_prefix_of(name) {
        "vpn"@
    } else if "awdl"@.is_prefix_of(name) {
        "awdl"@
    } else if "fw"@.is_prefix_of(name) {
        "firewire"@
    } else {
        "unknown"@
    }
}

/// The interface kind an Apple interface name suggests: `lo0`/`lo` loopback, `en0` wifi,
/// other `en*` ethernet, `pdp_ip*` cellular, `bridge*` bridge, `utun*`/`ipsec*`/`ppp*` vpn,
/// `awdl*` awdl, `fw*` firewire, anything else unknown.
pub fn detect_interface_type(name: &str) -> (r: String)
    ensures
        r@ == apple_interface_type(name@),
{
    let s = if str_equal(name, "lo0") || str_equal(name, "lo") {
        "loopback"
    } else if str_equal(name, "en0") {
        "wifi"
    } else if starts_with(name, "en") {
        "ethernet"
    } else if starts_with(name, "pdp_ip") {
        "cellular"
    } else if starts_with(name, "bridge") {
        "bridge"
    } else if starts_with(name, "utun") || starts_with(name, "ipsec") || starts_with(name, "ppp") {
        "vpn"
    } else if starts_with(name, "awdl") {
        "awdl"
    } else if starts_with(name, "fw") {
        "firewire"
    } else {
        "unknown"
    };
    String::from_str(s)
}

/// Whether an interface is expensive by default: cellular and VPN interfaces are.
pub fn detect_expensive_interface(name: &str) -> (r: bool)
    ensures
        r == (apple_interface_type(name@) == "cellular"@ || apple_interface_type(name@) == "vpn"@),
{
    let t = detect_interface_type(name);
    str_equal(t.as_str(), "cellular") || str_equal(t.as_str(), "vpn")
}

/// The word for a Network.framework path status: 1 satisfied, 2 unsatisfied,
/// 3 satisfiable, anything else invalid.
pub open spec fn path_status_word(status: i32) -> Seq<char> {
    if status == 1 {
        "satisfied"@
    } else if status == 2 {
        "unsatisfied"@
    } else if status == 3 {
        "satisfiable"@
    } else {
        "invalid"@
    }
}

/// The text of a boolean.
pub open spec fn bool_word(b: bool) -> Seq<char> {
    if b {
        "true"@
    } else {
        "false"@
    }
}

/// The description of a path change with the given status and uses.
pub open spec fn path_change_text(status: i32, expensive: bool, wifi: bool, cellular: bool, wired: bool) -> Seq<char> {
    "Network path changed (status: "@ + path_status_word(status) + ", expensive: "@ + bool_word(expensive)
        + ", wifi: "@ + bool_word(wifi) + ", cellular: "@ + bool_word(cellular) + ", wired: "@ + bool_word(wired)
        + ")"@
}

fn bool_text(b: bool) -> (r: &'static str)
    ensures
        r@ == bool_word(b),
{
    if b {
        "true"
    } else {
        "false"
    }
}

/// The event for a path update: a path change described by the path's status, whether
/// it is expensive, and whether it uses wifi, cellular and wired interfaces.
pub fn path_change_event(status: i32, expensive: bool, wifi: bool, cellular: bool, wired: bool) -> (r: ChangeEvent)
    ensures
        r matches ChangeEvent::PathChanged { description } && description@ == path_change_text(
            status,
            expensive,
            wifi,
            cellular,
            wired,
        ),
{
    let word = if status == 1 {
        "satisfied"
    } else if status == 2 {
        "unsatisfied"
    } else if status == 3 {
        "satisfiable"
    } else {
        "invalid"
    };
    let description = String::from_str("Network path changed (status: ").concat(word).concat(", expensive: ")
        .concat(bool_text(expensive)).concat(", wifi: ").concat(bool_text(wifi)).concat(", cellular: ")
        .concat(bool_text(cellular)).concat(", wired: ").concat(bool_text(wired)).concat(")");
    ChangeEvent::PathChanged { description }
}

/// One entry of the system's interface address list: the interface it belongs to, that
/// interface's index, whether the interface is up, and the entry's address when it is an
/// IPv4 or IPv6 one.
#[derive(Debug)]
pub struct IfaddrEntry {
    pub name: String,
    pub index: u32,
    pub up: bool,
    pub address: Option<IpAddress>,
}

/// No two interfaces of `s` have the same name.
pub open spec fn distinct_names(s: Seq<InterfaceView>) -> bool {
    forall|i: int, j: int| 0 <= i < s.len() && 0 <= j < s.len() && i != j ==> #[trigger] s[i].name != #[trigger] s[j].name
}

/// The status an entry's up flag gives.
pub open spec fn entry_status(up: bool) -> Status {
    if up {
        Status::Up
    } else {
        Status::Down
    }
}

/// The interfaces `s` after one more entry: the interface of the entry's name gets the
/// entry's status and, if the entry has one, its address appended; an entry of a new name
/// adds an interface at the end, with the entry's index, status and address, and the kind
/// and cost its name suggests.
pub open spec fn with_entry(s: Seq<InterfaceView>, e: IfaddrEntry) -> Seq<InterfaceView> {
    if exists|i: int| 0 <= i < s.len() && #[trigger] s[i].name == e.name@ {
        let i = choose|i: int| 0 <= i < s.len() && #[trigger] s[i].name == e.name@;
        s.update(i, InterfaceView {
            status: entry_status(e.up),
            ips: match e.address {
                Some(a) => s[i].ips.push(a),
                None => s[i].ips,
            },
            ..s[i]
        })
    } else {
        s.push(InterfaceView {
            name: e.name@,
            index: e.index,
            ips: match e.address {
                Some(a) => seq![a],
                None => Seq::empty(),
            },
            status: entry_status(e.up),
            interface_type: apple_interface_type(e.name@),
            is_expensive: apple_interface_type(e.name@) == "cellular"@ || apple_interface_type(e.name@) == "vpn"@,
        })
    }
}

/// The interfaces that a list of entries makes up, one per name, in the order in which
/// the names first appear.
pub open spec fn interfaces_of(entries: Seq<IfaddrEntry>) -> Seq<InterfaceView>
    decreases entries.len(),
{
    if entries.len() == 0 {
        Seq::empty()
    } else {
        with_entry(interfaces_of(entries.drop_last()), entries.last())
    }
}

fn position_of(s: &Vec<Interface>, name: &String) -> (r: Option<usize>)
    ensures
        r is None ==> forall|i: int| 0 <= i < s@.len() ==> #[trigger] s@[i]@.name != name@,
        r matches Some(p) ==> p < s@.len() && s@[p as int]@.name == name@,
{
    let mut i: usize = 0;
    while i < s.len()
        invariant
            i <= s@.len(),
            forall|j: int| 0 <= j < i ==> #[trigger] s@[j]@.name != name@,
        decreases s@.len() - i,
    {
        if s[i].name == *name {
            return Some(i);
        }
        i += 1;
    }
    None
}

/// The interfaces that the entries of the system's address list make up (what
/// `list_interfaces` collects): one interface per name, in the order in which the names
/// first appear; each with the index of its first entry, the status of its last entry,
/// the addresses of its entries in order, and the kind and cost its name suggests.
pub fn interfaces_from_entries(entries: &Vec<IfaddrEntry>) -> (r: Vec<Interface>)
    ensures
        r@.map_values(|i: Interface| i@) == interfaces_of(entries@),
        distinct_names(interfaces_of(entries@)),
{
    let mut out: Vec<Interface> = Vec::new();
    let mut k: usize = 0;
    while k < entries.len()
        invariant
            k <= entries@.len(),
            out@.map_values(|i: Interface| i@) == interfaces_of(entries@.take(k as int)),
            distinct_names(interfaces_of(entries@.take(k as int))),
        decreases entries@.len() - k,
    {
        let ghost before = out@.map_values(|i: Interface| i@);
        let e = &entries[k];
        assert(entries@.take(k + 1).drop_last() =~= entries@.take(k as int));
        assert(entries@.take(k + 1).last() == entries@[k as int]);
        assert(interfaces_of(entries@.take(k + 1)) == with_entry(before, *e));
        match position_of(&out, &e.name) {
            Some(p) => {
                assert(before[p as int].name == e.name@);
                let ghost c = choose|i: int| 0 <= i < before.len() && #[trigger] before[i].name == e.name@;
                assert(c == p) by {
                    if c != p {
                        assert(before[c].name != before[p as int].name);
                    }
                }
                let mut updated = out[p].clone();
                updated.status = if e.up { Status::Up } else { Status::Down };
                match e.address {
                    Some(a) => updated.ips.push(a),
                    None => {},
                }
                out.set(p, updated);
                assert(out@.map_values(|i: Interface| i@) =~= with_entry(before, *e));
                assert(distinct_names(with_entry(before, *e))) by {
                    let t = with_entry(before, *e);
                    assert forall|i: int, j: int| 0 <= i < t.len() && 0 <= j < t.len() && i != j implies
                        #[trigger] t[i].name != #[trigger] t[j].name by {
                        assert(t[i].name == before[i].name);
                        assert(t[j].name == before[j].name);
                    }
                }
            },
            None => {
                assert forall|i: int| 0 <= i < before.len() implies #[trigger] before[i].name != e.name@ by {
                    assert(before[i] == out@[i]@);
                }
                let kind = detect_interface_type(e.name.as_str());
                let expensive = detect_expensive_interface(e.name.as_str());
                let mut ips: Vec<IpAddress> = Vec::new();
                match e.address {
                    Some(a) => ips.push(a),
                    None => {},
                }
                let iface = Interface {
                    name: e.name.clone(),
                    index: e.index,
                    ips,
                    status: if e.up { Status::Up } else { Status::Down },
                    interface_type: kind,
                    is_expensive: expensive,
                };
                out.push(iface);
                assert(out@.map_values(|i: Interface| i@) =~= with_entry(before, *e));
                assert(distinct_names(with_entry(before, *e))) by {
                    let t = with_entry(before, *e);
                    assert forall|i: int, j: int| 0 <= i < t.len() && 0 <= j < t.len() && i != j implies
                        #[trigger] t[i].name != #[trigger] t[j].name by {
                        if i < before.len() && j < before.len() {
                            assert(t[i] == before[i]);
                            assert(t[j] == before[j]);
                        } else if i < before.len() {
                            assert(t[i] == before[i]);
                        } else {
                            assert(t[j] == before[j]);
                        }
                    }
                }
            },
        }
        k += 1;
    }
    assert(entries@.take(entries@.len() as int) =~= entries@);
    out
}

} // verus!
