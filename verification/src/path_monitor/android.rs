//! Android network monitoring: how a new interface list is compared with the previous one.
//! The Java bridge that lists interfaces and reports changes is outside this library.

use vstd::prelude::*;
use crate::path_monitor::{are_changes, interface_changes, interface_views, removals_first, ChangeEvent, ChangeView, Interface, InterfaceKey};

verus! {

/// The Android monitor.
pub struct AndroidMonitor;

/// The handle of one watcher registered with the Android monitor.
pub struct AndroidWatchHandle {
    pub id: usize,
}

/// The change events between the previous and the current interface list, interfaces
/// matched by name, address lists compared in order; the removals come before the other events.
pub fn network_changes(old: &Vec<Interface>, new: &Vec<Interface>) -> (r: Vec<ChangeEvent>)
    ensures
        are_changes(interface_views(old@), interface_views(new@), InterfaceKey::Name, false, r@.map_values(|e: ChangeEvent| e.change())),
        removals_first(r@.map_values(|e: ChangeEvent| e.change())),
{
    interface_changes(old, new, InterfaceKey::Name, false)
}

} // verus!
