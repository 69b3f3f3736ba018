//! Linux network monitoring: interface types from interface names. The netlink calls are
//! outside this library.

use vstd::prelude::*;
use vstd::string::{StrSliceExecFns, StringExecFns};
use crate::path_monitor::{Interface, InterfaceView, Status};
use crate::text::starts_with;
use crate::types::IpAddress;

verus! {

/// The interface kind a Linux interface name suggests.
pub open spec fn linux_interface_type(name: Seq<char>) -> Seq<char> {
    if "eth"@.is_prefix_of(name) {
        "ethernet"@
    } else if "wlan"@.is_prefix_of(name) || "wlp"@.is_prefix_of(name) {
        "wifi"@
    } else if "wwan"@.is_prefix_of(name) {
        "cellular"@
    } else if "lo"@.is_prefix_of(name) {
        "loopback"@
    } else {
        "unknown"@
    }
}

/// The interface kind a Linux interface name suggests: `eth*` ethernet, `wlan*` and `wlp*`
/// wifi, `wwan*` cellular, `lo*` loopback, anything else unknown.
pub fn detect_interface_type(name: &str) -> (r: String)
    ensures
        r@ == linux_interface_type(name@),
{
    let s = if starts_with(name, "eth") {
        "ethernet"
    } else if starts_with(name, "wlan") || starts_with(name, "wlp") {
        "wifi"
    } else if starts_with(name, "wwan") {
        "cellular"
    } else if starts_with(name, "lo") {
        "loopback"
    } else {
        "unknown"
    };
    String::from_str(s)
}

/// The operational state a link reports, as far as interface listing tells states apart.
#[derive(Debug, Clone, Copy, PartialEq, Eq, Structural)]
pub enum OperState {
    Up,
    Down,
    Other,
}

/// One attribute of a netlink link message, as far as interface listing reads it.
#[derive(Debug)]
pub enum LinkAttr {
    /// The interface name.
    IfName(String),
    /// The operational state.
    OperState(OperState),
    /// Any other attribute.
    Other,
}

/// One attribute of a netlink address message, as far as interface listing reads it.
#[derive(Debug, Clone, Copy)]
pub enum AddressAttr {
    /// The address.
    Address(IpAddress),
    /// Any other attribute.
    Other,
}

/// The name a link's attributes give: the last name attribute's, or empty.
pub open spec fn link_name(attrs: Seq<LinkAttr>) -> Seq<char>
    decreases attrs.len(),
{
    if attrs.len() == 0 {
        Seq::empty()
    } else {
        match attrs.last() {
            LinkAttr::IfName(n) => n@,
            _ => link_name(attrs.drop_last()),
        }
    }
}

/// The status a link's attributes give: from the last state attribute (up, down, or
/// unknown for any other state); unknown without one.
pub open spec fn link_status(attrs: Seq<LinkAttr>) -> Status
    decreases attrs.len(),
{
    if attrs.len() == 0 {
        Status::Unknown
    } else {
        match attrs.last() {
            LinkAttr::OperState(OperState::Up) => Status::Up,
            LinkAttr::OperState(OperState::Down) => Status::Down,
            LinkAttr::OperState(OperState::Other) => Status::Unknown,
            _ => link_status(attrs.drop_last()),
        }
    }
}

/// The first address among an address message's attributes.
pub open spec fn first_address(attrs: Seq<AddressAttr>) -> Option<IpAddress>
    decreases attrs.len(),
{
    if attrs.len() == 0 {
        None
    } else {
        match attrs[0] {
            AddressAttr::Address(a) => Some(a),
            AddressAttr::Other => first_address(attrs.skip(1)),
        }
    }
}

/// The interface a link message describes: none when it names no interface; otherwise
/// its name, index and status, no address yet, the kind its name suggests, not expensive.
pub fn parse_link_message(index: u32, attrs: &Vec<LinkAttr>) -> (r: Option<Interface>)
    ensures
        r is None <==> link_name(attrs@).len() == 0,
        r matches Some(i) ==> i@ == (InterfaceView {
            name: link_name(attrs@),
            index,
            ips: Seq::empty(),
            status: link_status(attrs@),
            interface_type: linux_interface_type(link_name(attrs@)),
            is_expensive: false,
        }),
{
    let mut name = String::new();
    let mut status = Status::Unknown;
    let mut i: usize = 0;
    while i < attrs.len()
        invariant
            i <= attrs@.len(),
            name@ == link_name(attrs@.take(i as int)),
            status == link_status(attrs@.take(i as int)),
        decreases attrs@.len() - i,
    {
        assert(attrs@.take(i + 1).drop_last() =~= attrs@.take(i as int));
        assert(attrs@.take(i + 1).last() == attrs@[i as int]);
        match &attrs[i] {
            LinkAttr::IfName(n) => name = n.clone(),
            LinkAttr::OperState(OperState::Up) => status = Status::Up,
            LinkAttr::OperState(OperState::Down) => status = Status::Down,
            LinkAttr::OperState(OperState::Other) => status = Status::Unknown,
            LinkAttr::Other => {},
        }
        i += 1;
    }
    assert(attrs@.take(attrs@.len() as int) =~= attrs@);
    if name.as_str().unicode_len() == 0 {
        return None;
    }
    let kind = detect_interface_type(name.as_str());
    let r = Interface { name, index, ips: Vec::new(), status, interface_type: kind, is_expensive: false };
    assert(r@.ips =~= Seq::<IpAddress>::empty());
    Some(r)
}

/// The address an address message gives for the interface `if_index`: none when the
/// message is about another interface; otherwise its first address, if any.
pub fn parse_address_message(msg_index: u32, if_index: u32, attrs: &Vec<AddressAttr>) -> (r: Option<IpAddress>)
    ensures
        r == (if msg_index != if_index { None } else { first_address(attrs@) }),
{
    if msg_index != if_index {
        return None;
    }
    let mut i: usize = 0;
    assert(attrs@.skip(0) =~= attrs@);
    while i < attrs.len()
        invariant
            i <= attrs@.len(),
            msg_index == if_index,
            first_address(attrs@) == first_address(attrs@.skip(i as int)),
        decreases attrs@.len() - i,
    {
        let ghost rest = attrs@.skip(i as int);
        assert(rest.len() > 0 && rest[0] == attrs@[i as int]);
        assert(rest.skip(1) =~= attrs@.skip(i + 1));
        assert(first_address(rest) == match rest[0] {
            AddressAttr::Address(a) => Some(a),
            AddressAttr::Other => first_address(rest.skip(1)),
        });
        match attrs[i] {
            AddressAttr::Address(a) => return Some(a),
            AddressAttr::Other => {},
        }
        i += 1;
    }
    None
}

} // verus!
