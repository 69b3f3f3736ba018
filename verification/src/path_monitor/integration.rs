//! Path selection for connections: which interface suits a connection best.

use vstd::prelude::*;
use vstd::string::StringExecFns;
use crate::path_monitor::{Interface, InterfaceView, Status};

verus! {

/// Multipath modes.
#[derive(Debug, Clone, Copy, PartialEq, Eq, Structural)]
pub enum MultipathMode {
    /// Use one path only.
    Disabled,
    /// Use several paths actively.
    Active,
    /// Use several paths if the peer asks.
    Passive,
}

/// Path selection preferences.
#[derive(Debug)]
pub struct PathPreferences {
    /// Preferred interface kinds.
    pub preferred_types: Vec<String>,
    /// Avoid metered interfaces.
    pub avoid_expensive: bool,
    /// Minimum number of paths to keep.
    pub min_paths: usize,
    /// Maximum number of paths to use.
    pub max_paths: usize,
}

impl Default for PathPreferences {
    fn default() -> (r: Self)
        ensures
            r.preferred_types@.len() == 2,
            r.preferred_types@[0]@ == "wifi"@,
            r.preferred_types@[1]@ == "ethernet"@,
            r.avoid_expensive,
            r.min_paths == 1,
            r.max_paths == 2,
    {
        let mut types: Vec<String> = Vec::new();
        types.push(String::from_str("wifi"));
        types.push(String::from_str("ethernet"));
        PathPreferences { preferred_types: types, avoid_expensive: true, min_paths: 1, max_paths: 2 }
    }
}

/// An interface can carry a connection: up, with an address, not loopback, and not
/// expensive when expensive ones are avoided.
pub open spec fn usable(i: InterfaceView, avoid_expensive: bool) -> bool {
    &&& i.status == Status::Up
    &&& i.ips.len() > 0
    &&& i.interface_type != "loopback"@
    &&& !(avoid_expensive && i.is_expensive)
}

/// The interface is usable and, when wifi is preferred and some usable interface is
/// wifi, is wifi.
pub open spec fn acceptable(s: Seq<InterfaceView>, i: InterfaceView, prefer_wifi: bool, avoid_expensive: bool) -> bool {
    &&& usable(i, avoid_expensive)
    &&& (prefer_wifi && (exists|j: int| 0 <= j < s.len() && usable(#[trigger] s[j], avoid_expensive)
        && s[j].interface_type == "wifi"@) ==> i.interface_type == "wifi"@)
}

/// The best path among `s`: the first acceptable interface, in list order (a stable sort
/// that puts wifi first, then the first candidate).
pub open spec fn best_path(s: Seq<InterfaceView>, prefer_wifi: bool, avoid_expensive: bool) -> Option<int> {
    if exists|i: int| 0 <= i < s.len() && acceptable(s, #[trigger] s[i], prefer_wifi, avoid_expensive) {
        Some(choose|i: int| 0 <= i < s.len() && acceptable(s, #[trigger] s[i], prefer_wifi, avoid_expensive)
            && forall|j: int| 0 <= j < i ==> !acceptable(s, #[trigger] s[j], prefer_wifi, avoid_expensive))
    } else {
        None
    }
}

/// Some usable interface of `s` is wifi.
pub open spec fn usable_wifi_exists(s: Seq<InterfaceView>, avoid_expensive: bool) -> bool {
    exists|j: int| 0 <= j < s.len() && usable(#[trigger] s[j], avoid_expensive) && s[j].interface_type == "wifi"@
}

proof fn lemma_first_acceptable(s: Seq<InterfaceView>, prefer_wifi: bool, avoid_expensive: bool, i: int) -> (k: int)
    requires
        0 <= i < s.len(),
        acceptable(s, s[i], prefer_wifi, avoid_expensive),
    ensures
        0 <= k <= i,
        acceptable(s, s[k], prefer_wifi, avoid_expensive),
        forall|j: int| 0 <= j < k ==> !acceptable(s, #[trigger] s[j], prefer_wifi, avoid_expensive),
    decreases i,
{
    if exists|j: int| 0 <= j < i && acceptable(s, #[trigger] s[j], prefer_wifi, avoid_expensive) {
        let j = choose|j: int| 0 <= j < i && acceptable(s, #[trigger] s[j], prefer_wifi, avoid_expensive);
        lemma_first_acceptable(s, prefer_wifi, avoid_expensive, j)
    } else {
        i
    }
}

/// Law (which path is best): there is a best path exactly when some interface is usable.
/// The best path is usable; when wifi is preferred and some usable interface is wifi, it is
/// the first usable wifi interface in list order, and otherwise the first usable interface.
pub proof fn lemma_best_path_is_first(s: Seq<InterfaceView>, prefer_wifi: bool, avoid_expensive: bool)
    ensures
        best_path(s, prefer_wifi, avoid_expensive) is None <==> forall|j: int| 0 <= j < s.len() ==> !usable(#[trigger] s[j], avoid_expensive),
        best_path(s, prefer_wifi, avoid_expensive) matches Some(k) ==> {
            &&& 0 <= k < s.len()
            &&& usable(s[k], avoid_expensive)
            &&& if prefer_wifi && usable_wifi_exists(s, avoid_expensive) {
                &&& s[k].interface_type == "wifi"@
                &&& forall|j: int| 0 <= j < k ==> !(usable(#[trigger] s[j], avoid_expensive) && s[j].interface_type == "wifi"@)
            } else {
                forall|j: int| 0 <= j < k ==> !usable(#[trigger] s[j], avoid_expensive)
            }
        },
{
    if exists|j: int| 0 <= j < s.len() && usable(#[trigger] s[j], avoid_expensive) {
        let u = choose|j: int| 0 <= j < s.len() && usable(#[trigger] s[j], avoid_expensive);
        let a = if prefer_wifi && usable_wifi_exists(s, avoid_expensive) {
            choose|j: int| 0 <= j < s.len() && usable(#[trigger] s[j], avoid_expensive) && s[j].interface_type == "wifi"@
        } else {
            u
        };
        assert(acceptable(s, s[a], prefer_wifi, avoid_expensive));
        let m = lemma_first_acceptable(s, prefer_wifi, avoid_expensive, a);
        assert(exists|i: int| 0 <= i < s.len() && acceptable(s, #[trigger] s[i], prefer_wifi, avoid_expensive)
            && forall|j: int| 0 <= j < i ==> !acceptable(s, #[trigger] s[j], prefer_wifi, avoid_expensive)) by {
            assert(acceptable(s, s[m], prefer_wifi, avoid_expensive));
        }
        let k = best_path(s, prefer_wifi, avoid_expensive)->0;
        assert(acceptable(s, s[k], prefer_wifi, avoid_expensive));
        if prefer_wifi && usable_wifi_exists(s, avoid_expensive) {
            assert forall|j: int| 0 <= j < k implies !(usable(#[trigger] s[j], avoid_expensive) && s[j].interface_type == "wifi"@) by {
                assert(!acceptable(s, s[j], prefer_wifi, avoid_expensive));
            }
        } else {
            assert forall|j: int| 0 <= j < k implies !usable(#[trigger] s[j], avoid_expensive) by {
                assert(!acceptable(s, s[j], prefer_wifi, avoid_expensive));
            }
        }
    } else {
        assert(!exists|i: int| 0 <= i < s.len() && acceptable(s, #[trigger] s[i], prefer_wifi, avoid_expensive));
    }
}

/// Law (what the best path is): the best path is an interface that is up, has an
/// address, is not loopback, and is not expensive when expensive ones are avoided. There
/// is none exactly when no interface is all of these. When wifi is preferred and some
/// such interface is wifi, the best path is wifi and no earlier such interface is wifi;
/// otherwise no earlier interface is such an interface.
pub proof fn lemma_best_path_candidates(s: Seq<InterfaceView>, prefer_wifi: bool, avoid_expensive: bool)
    ensures
        best_path(s, prefer_wifi, avoid_expensive) is None <==> forall|j: int| 0 <= j < s.len() ==> !(
            #[trigger] s[j].status == Status::Up && s[j].ips.len() > 0 && s[j].interface_type != "loopback"@
            && !(avoid_expensive && s[j].is_expensive)),
        best_path(s, prefer_wifi, avoid_expensive) matches Some(k) ==> {
            &&& 0 <= k < s.len()
            &&& s[k].status == Status::Up
            &&& s[k].ips.len() > 0
            &&& s[k].interface_type != "loopback"@
            &&& !(avoid_expensive && s[k].is_expensive)
            &&& if prefer_wifi && exists|j: int| 0 <= j < s.len() && #[trigger] s[j].status == Status::Up
                && s[j].ips.len() > 0 && s[j].interface_type != "loopback"@ && !(avoid_expensive && s[j].is_expensive)
                && s[j].interface_type == "wifi"@ {
                &&& s[k].interface_type == "wifi"@
                &&& forall|j: int| 0 <= j < k ==> !(#[trigger] s[j].status == Status::Up && s[j].ips.len() > 0
                    && s[j].interface_type != "loopback"@ && !(avoid_expensive && s[j].is_expensive)
                    && s[j].interface_type == "wifi"@)
            } else {
                forall|j: int| 0 <= j < k ==> !(#[trigger] s[j].status == Status::Up && s[j].ips.len() > 0
                    && s[j].interface_type != "loopback"@ && !(avoid_expensive && s[j].is_expensive))
            }
        },
{
    lemma_best_path_is_first(s, prefer_wifi, avoid_expensive);
    assert(usable_wifi_exists(s, avoid_expensive) <==> exists|j: int| 0 <= j < s.len() && #[trigger] s[j].status == Status::Up
        && s[j].ips.len() > 0 && s[j].interface_type != "loopback"@ && !(avoid_expensive && s[j].is_expensive)
        && s[j].interface_type == "wifi"@) by {
        if usable_wifi_exists(s, avoid_expensive) {
            let j = choose|j: int| 0 <= j < s.len() && usable(#[trigger] s[j], avoid_expensive) && s[j].interface_type == "wifi"@;
            assert(s[j].status == Status::Up);
        }
        if exists|j: int| 0 <= j < s.len() && #[trigger] s[j].status == Status::Up
            && s[j].ips.len() > 0 && s[j].interface_type != "loopback"@ && !(avoid_expensive && s[j].is_expensive)
            && s[j].interface_type == "wifi"@ {
            let j = choose|j: int| 0 <= j < s.len() && #[trigger] s[j].status == Status::Up
                && s[j].ips.len() > 0 && s[j].interface_type != "loopback"@ && !(avoid_expensive && s[j].is_expensive)
                && s[j].interface_type == "wifi"@;
            assert(usable(s[j], avoid_expensive));
        }
    }
}

fn is_usable(i: &Interface, avoid_expensive: bool) -> (r: bool)
    ensures
        r == usable(i@, avoid_expensive),
{
    let up = match i.status {
        Status::Up => true,
        _ => false,
    };
    up && i.ips.len() > 0 && i.interface_type != String::from_str("loopback") && !(avoid_expensive && i.is_expensive)
}

fn is_wifi(i: &Interface) -> (r: bool)
    ensures
        r == (i@.interface_type == "wifi"@),
{
    i.interface_type == String::from_str("wifi")
}

/// The best path among the interfaces (`select_best_path`): among interfaces that are up,
/// have an address and are not loopback (and are not expensive, if expensive ones are
/// avoided), the first wifi interface when wifi is preferred and there is one, otherwise
/// the first of them; none if there is none.
pub fn select_best_path(interfaces: &Vec<Interface>, prefer_wifi: bool, avoid_expensive: bool) -> (r: Option<Interface>)
    ensures
        ({
            let s = interfaces@.map_values(|i: Interface| i@);
            match best_path(s, prefer_wifi, avoid_expensive) {
                None => r is None,
                Some(k) => r matches Some(x) && x@ == s[k],
            }
        }),
{
    let ghost s = interfaces@.map_values(|i: Interface| i@);
    let mut first_usable: Option<usize> = None;
    let mut first_wifi: Option<usize> = None;
    let mut i: usize = 0;
    while i < interfaces.len()
        invariant
            i <= interfaces@.len(),
            s == interfaces@.map_values(|i: Interface| i@),
            first_usable matches Some(u) ==> u < i && usable(s[u as int], avoid_expensive)
                && forall|j: int| 0 <= j < u ==> !usable(#[trigger] s[j], avoid_expensive),
            first_usable is None ==> forall|j: int| 0 <= j < i ==> !usable(#[trigger] s[j], avoid_expensive),
            first_wifi matches Some(w) ==> w < i && usable(s[w as int], avoid_expensive) && s[w as int].interface_type == "wifi"@
                && forall|j: int| 0 <= j < w ==> !(usable(#[trigger] s[j], avoid_expensive) && s[j].interface_type == "wifi"@),
            first_wifi is None ==> forall|j: int| 0 <= j < i ==> !(usable(#[trigger] s[j], avoid_expensive) && s[j].interface_type == "wifi"@),
        decreases interfaces@.len() - i,
    {
        if is_usable(&interfaces[i], avoid_expensive) {
            if first_usable.is_none() {
                first_usable = Some(i);
            }
            if first_wifi.is_none() && is_wifi(&interfaces[i]) {
                first_wifi = Some(i);
            }
        }
        i += 1;
    }
    let chosen = if prefer_wifi && first_wifi.is_some() {
        first_wifi
    } else {
        first_usable
    };
    proof {
        let wifi_exists = exists|j: int| 0 <= j < s.len() && usable(#[trigger] s[j], avoid_expensive)
            && s[j].interface_type == "wifi"@;
        if first_wifi is Some {
            let w = first_wifi->0 as int;
            assert(usable(s[w], avoid_expensive) && s[w].interface_type == "wifi"@);
        }
        match chosen {
            Some(c) => {
                let c = c as int;
                assert(acceptable(s, s[c], prefer_wifi, avoid_expensive));
                assert forall|j: int| 0 <= j < c implies !acceptable(s, #[trigger] s[j], prefer_wifi, avoid_expensive) by {}
                let k = best_path(s, prefer_wifi, avoid_expensive)->0;
                assert(k == c) by {
                    if k < c {
                        assert(!acceptable(s, s[k], prefer_wifi, avoid_expensive));
                    } else if k > c {
                        assert(!acceptable(s, s[c], prefer_wifi, avoid_expensive));
                    }
                }
            },
            None => {
                assert forall|j: int| 0 <= j < s.len() implies !acceptable(s, #[trigger] s[j], prefer_wifi, avoid_expensive) by {}
            },
        }
    }
    match chosen {
        Some(c) => Some(interfaces[c].clone()),
        None => None,
    }
}

} // verus!
