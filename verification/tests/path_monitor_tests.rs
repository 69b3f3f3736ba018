use tapsrs::path_monitor::integration::{select_best_path, MultipathMode, PathPreferences};
use tapsrs::path_monitor::{apple, linux, windows};
use tapsrs::path_monitor::{
    interface_changes, interfaces_equal, interfaces_equal_any_order, ips_equal, ChangeEvent, Error, Interface,
    InterfaceKey, Status,
};
use tapsrs::IpAddress;

fn iface(name: &str, index: u32, ips: Vec<IpAddress>, kind: &str, status: Status, expensive: bool) -> Interface {
    Interface {
        name: name.to_string(),
        index,
        ips,
        status,
        interface_type: kind.to_string(),
        is_expensive: expensive,
    }
}

fn v4(a: u8, b: u8, c: u8, d: u8) -> IpAddress {
    IpAddress::V4(u32::from_be_bytes([a, b, c, d]))
}

#[test]
fn ips_compare_as_multisets() {
    let a = vec![v4(10, 0, 0, 1), v4(10, 0, 0, 2)];
    let b = vec![v4(10, 0, 0, 2), v4(10, 0, 0, 1)];
    assert!(ips_equal(&a, &b));
    let c = vec![v4(10, 0, 0, 1), v4(10, 0, 0, 1)];
    assert!(!ips_equal(&a, &c));
    assert!(!ips_equal(&a, &vec![v4(10, 0, 0, 1)]));
    assert!(ips_equal(&vec![], &vec![]));
}

#[test]
fn interfaces_compare_in_and_out_of_order() {
    let a = iface("eth0", 1, vec![v4(1, 1, 1, 1), v4(2, 2, 2, 2)], "ethernet", Status::Up, false);
    let b = iface("eth0", 1, vec![v4(2, 2, 2, 2), v4(1, 1, 1, 1)], "ethernet", Status::Up, false);
    assert!(!interfaces_equal(&a, &b));
    assert!(interfaces_equal_any_order(&a, &b));
    assert!(interfaces_equal(&a, &a.clone()));
}

#[test]
fn changes_report_added_removed_modified() {
    let old = vec![
        iface("eth0", 1, vec![v4(10, 0, 0, 1)], "ethernet", Status::Up, false),
        iface("wlan0", 2, vec![], "wifi", Status::Up, false),
        iface("lo", 3, vec![v4(127, 0, 0, 1)], "loopback", Status::Up, false),
    ];
    let new = vec![
        iface("eth0", 1, vec![v4(10, 0, 0, 1)], "ethernet", Status::Up, false),
        iface("wlan0", 2, vec![], "wifi", Status::Down, false),
        iface("wwan0", 4, vec![], "cellular", Status::Up, true),
    ];
    let events = interface_changes(&old, &new, InterfaceKey::Name, false);
    assert_eq!(events.len(), 3);
    let mut removed = 0;
    let mut added = 0;
    let mut modified = 0;
    for e in &events {
        match e {
            ChangeEvent::Removed(i) => {
                assert_eq!(i.name, "lo");
                removed += 1;
            },
            ChangeEvent::Added(i) => {
                assert_eq!(i.name, "wwan0");
                added += 1;
            },
            ChangeEvent::Modified { old, new } => {
                assert_eq!(old.name, "wlan0");
                assert_eq!(old.status, Status::Up);
                assert_eq!(new.status, Status::Down);
                modified += 1;
            },
            ChangeEvent::PathChanged { .. } => panic!("unexpected"),
        }
    }
    assert_eq!((removed, added, modified), (1, 1, 1));
}

fn kind(e: &ChangeEvent) -> u8 {
    match e {
        ChangeEvent::Added(_) => 0,
        ChangeEvent::Removed(_) => 1,
        ChangeEvent::Modified { .. } => 2,
        ChangeEvent::PathChanged { .. } => 3,
    }
}

#[test]
fn windows_reports_additions_then_removals_then_modifications() {
    let old = vec![
        iface("a", 1, vec![], "ethernet", Status::Up, false),
        iface("b", 2, vec![], "wifi", Status::Up, false),
        iface("c", 3, vec![], "ethernet", Status::Up, false),
    ];
    let new = vec![
        iface("d", 4, vec![], "cellular", Status::Up, true),
        iface("b", 2, vec![], "wifi", Status::Down, false),
        iface("e", 5, vec![], "ethernet", Status::Up, false),
    ];
    let events = windows::interface_list_changes(&old, &new);
    let kinds: Vec<u8> = events.iter().map(kind).collect();
    assert_eq!(kinds, vec![0, 0, 1, 1, 2]);
}

#[test]
fn android_reports_removals_first() {
    let old = vec![
        iface("a", 1, vec![], "ethernet", Status::Up, false),
        iface("b", 2, vec![], "wifi", Status::Up, false),
    ];
    let new = vec![
        iface("c", 3, vec![], "cellular", Status::Up, true),
        iface("b", 2, vec![], "wifi", Status::Down, false),
    ];
    let events = tapsrs::path_monitor::android::network_changes(&old, &new);
    assert_eq!(events.len(), 3);
    assert_eq!(kind(&events[0]), 1);
}

#[test]
fn no_changes_against_the_same_list() {
    let list = vec![
        iface("eth0", 1, vec![v4(10, 0, 0, 1)], "ethernet", Status::Up, false),
        iface("wlan0", 2, vec![], "wifi", Status::Up, false),
    ];
    assert!(interface_changes(&list, &list, InterfaceKey::Name, false).is_empty());
    assert!(interface_changes(&list, &list, InterfaceKey::Index, true).is_empty());
}

#[test]
fn index_keyed_changes_ignore_address_order() {
    let old = vec![iface("eth0", 1, vec![v4(1, 1, 1, 1), v4(2, 2, 2, 2)], "ethernet", Status::Up, false)];
    let new = vec![iface("eth0", 1, vec![v4(2, 2, 2, 2), v4(1, 1, 1, 1)], "ethernet", Status::Up, false)];
    assert!(tapsrs::path_monitor::windows::interface_list_changes(&old, &new).is_empty());
    assert_eq!(tapsrs::path_monitor::android::network_changes(&old, &new).len(), 1);
}

#[test]
fn renamed_interface_by_index_is_modified() {
    let old = vec![iface("eth0", 1, vec![], "ethernet", Status::Up, false)];
    let new = vec![iface("eth1", 1, vec![], "ethernet", Status::Up, false)];
    let by_index = interface_changes(&old, &new, InterfaceKey::Index, true);
    assert_eq!(by_index.len(), 1);
    assert!(matches!(by_index[0], ChangeEvent::Modified { .. }));
    let by_name = interface_changes(&old, &new, InterfaceKey::Name, false);
    assert_eq!(by_name.len(), 2);
}

#[test]
fn linux_interface_types() {
    assert_eq!(linux::detect_interface_type("eth0"), "ethernet");
    assert_eq!(linux::detect_interface_type("wlan0"), "wifi");
    assert_eq!(linux::detect_interface_type("wlp3s0"), "wifi");
    assert_eq!(linux::detect_interface_type("wwan0"), "cellular");
    assert_eq!(linux::detect_interface_type("lo"), "loopback");
    assert_eq!(linux::detect_interface_type("docker0"), "unknown");
}

#[test]
fn windows_interface_types() {
    assert_eq!(windows::detect_interface_type(6), "ethernet");
    assert_eq!(windows::detect_interface_type(71), "wifi");
    assert_eq!(windows::detect_interface_type(243), "cellular");
    assert_eq!(windows::detect_interface_type(244), "cellular");
    assert_eq!(windows::detect_interface_type(24), "loopback");
    assert_eq!(windows::detect_interface_type(1), "unknown");
}

#[test]
fn apple_interface_types() {
    assert_eq!(apple::detect_interface_type("en0"), "wifi");
    assert_eq!(apple::detect_interface_type("en1"), "ethernet");
    assert_eq!(apple::detect_interface_type("lo0"), "loopback");
    assert_eq!(apple::detect_interface_type("pdp_ip0"), "cellular");
    assert_eq!(apple::detect_interface_type("bridge0"), "bridge");
    assert_eq!(apple::detect_interface_type("utun2"), "vpn");
    assert_eq!(apple::detect_interface_type("awdl0"), "awdl");
    assert_eq!(apple::detect_interface_type("fw0"), "firewire");
    assert_eq!(apple::detect_interface_type("xyz"), "unknown");
    assert!(apple::detect_expensive_interface("pdp_ip0"));
    assert!(apple::detect_expensive_interface("ipsec0"));
    assert!(!apple::detect_expensive_interface("en0"));
}

#[test]
fn best_path_prefers_wifi_and_skips_unusable() {
    let list = vec![
        iface("lo", 1, vec![v4(127, 0, 0, 1)], "loopback", Status::Up, false),
        iface("eth0", 2, vec![v4(10, 0, 0, 2)], "ethernet", Status::Up, false),
        iface("wwan0", 3, vec![v4(10, 0, 0, 3)], "cellular", Status::Up, true),
        iface("wlan0", 4, vec![v4(10, 0, 0, 4)], "wifi", Status::Up, false),
        iface("wlan1", 5, vec![], "wifi", Status::Up, false),
    ];
    assert_eq!(select_best_path(&list, true, true).unwrap().name, "wlan0");
    assert_eq!(select_best_path(&list, false, true).unwrap().name, "eth0");
    let only_cell = vec![iface("wwan0", 3, vec![v4(10, 0, 0, 3)], "cellular", Status::Up, true)];
    assert!(select_best_path(&only_cell, true, true).is_none());
    assert_eq!(select_best_path(&only_cell, true, false).unwrap().name, "wwan0");
    assert!(select_best_path(&vec![], true, true).is_none());
}

#[test]
fn path_preferences_default() {
    let p = PathPreferences::default();
    assert_eq!(p.preferred_types, vec!["wifi".to_string(), "ethernet".to_string()]);
    assert!(p.avoid_expensive);
    assert_eq!((p.min_paths, p.max_paths), (1, 2));
    assert_ne!(MultipathMode::Active, MultipathMode::Passive);
}

#[test]
fn path_monitor_error_texts() {
    assert_eq!(Error::PlatformError("boom".to_string()).to_string(), "Platform error: boom");
    assert_eq!(Error::PermissionDenied.to_string(), "Permission denied");
    assert_eq!(Error::NotSupported.to_string(), "Operation not supported on this platform");
}

#[test]
fn linux_link_messages() {
    use_linux_parsers();
}

fn use_linux_parsers() {
    let attrs = vec![
        linux::LinkAttr::IfName("eth0".to_string()),
        linux::LinkAttr::Other,
        linux::LinkAttr::OperState(linux::OperState::Down),
        linux::LinkAttr::OperState(linux::OperState::Up),
    ];
    let i = linux::parse_link_message(2, &attrs).unwrap();
    assert_eq!(i.name, "eth0");
    assert_eq!(i.index, 2);
    assert_eq!(i.status, Status::Up);
    assert_eq!(i.interface_type, "ethernet");
    assert!(i.ips.is_empty());
    assert!(!i.is_expensive);
    let unnamed = vec![linux::LinkAttr::OperState(linux::OperState::Other)];
    assert!(linux::parse_link_message(3, &unnamed).is_none());
    let odd = vec![linux::LinkAttr::IfName("wlan0".to_string()), linux::LinkAttr::OperState(linux::OperState::Other)];
    assert_eq!(linux::parse_link_message(4, &odd).unwrap().status, Status::Unknown);
    let addrs = vec![linux::AddressAttr::Other, linux::AddressAttr::Address(v4(10, 0, 0, 9)), linux::AddressAttr::Address(v4(10, 0, 0, 8))];
    assert_eq!(linux::parse_address_message(2, 2, &addrs), Some(v4(10, 0, 0, 9)));
    assert_eq!(linux::parse_address_message(1, 2, &addrs), None);
    assert_eq!(linux::parse_address_message(2, 2, &vec![linux::AddressAttr::Other]), None);
}

#[test]
fn apple_entries_make_interfaces() {
    let entries = vec![
        apple::IfaddrEntry { name: "en0".to_string(), index: 4, up: true, address: None },
        apple::IfaddrEntry { name: "lo0".to_string(), index: 1, up: true, address: Some(v4(127, 0, 0, 1)) },
        apple::IfaddrEntry { name: "en0".to_string(), index: 4, up: true, address: Some(v4(192, 168, 1, 2)) },
        apple::IfaddrEntry { name: "pdp_ip0".to_string(), index: 7, up: false, address: Some(v4(10, 1, 1, 1)) },
        apple::IfaddrEntry { name: "en0".to_string(), index: 4, up: false, address: Some(IpAddress::V6(1)) },
    ];
    let list = apple::interfaces_from_entries(&entries);
    assert_eq!(list.len(), 3);
    assert_eq!(list[0].name, "en0");
    assert_eq!(list[0].ips, vec![v4(192, 168, 1, 2), IpAddress::V6(1)]);
    assert_eq!(list[0].status, Status::Down);
    assert_eq!(list[0].interface_type, "wifi");
    assert_eq!(list[1].name, "lo0");
    assert_eq!(list[1].interface_type, "loopback");
    assert_eq!(list[2].name, "pdp_ip0");
    assert!(list[2].is_expensive);
    assert_eq!(list[2].status, Status::Down);
}

#[test]
fn apple_path_change_description() {
    match apple::path_change_event(1, false, true, false, true) {
        ChangeEvent::PathChanged { description } => assert_eq!(
            description,
            "Network path changed (status: satisfied, expensive: false, wifi: true, cellular: false, wired: true)"
        ),
        _ => panic!("expected a path change"),
    }
    match apple::path_change_event(9, true, false, true, false) {
        ChangeEvent::PathChanged { description } => assert_eq!(
            description,
            "Network path changed (status: invalid, expensive: true, wifi: false, cellular: true, wired: false)"
        ),
        _ => panic!("expected a path change"),
    }
}

#[test]
fn windows_adapters_make_interfaces() {
    let i = windows::adapter_interface(Some("Ethernet 2".to_string()), 12, false, 6, vec![v4(10, 0, 0, 5)]).unwrap();
    assert_eq!(i.name, "Ethernet 2");
    assert_eq!(i.index, 12);
    assert_eq!(i.status, Status::Up);
    assert_eq!(i.interface_type, "ethernet");
    assert_eq!(i.ips, vec![v4(10, 0, 0, 5)]);
    let unnamed = windows::adapter_interface(None, 7, false, 71, vec![]).unwrap();
    assert_eq!(unnamed.name, "Unknown7");
    assert_eq!(unnamed.interface_type, "wifi");
    assert!(windows::adapter_interface(None, 7, true, 71, vec![]).is_none());
}
