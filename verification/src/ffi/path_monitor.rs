//! Path monitor values as C callers see them.

use vstd::prelude::*;
use crate::path_monitor::{ChangeEvent, Status};

verus! {

/// An interface status as C callers see it.
#[derive(Debug, Clone, Copy, PartialEq, Eq, Structural)]
pub enum TransportServicesInterfaceStatus {
    Up,
    Down,
    Unknown,
}

/// The C interface status for a library interface status.
pub open spec fn status_to_ffi(s: Status) -> TransportServicesInterfaceStatus {
    match s {
        Status::Up => TransportServicesInterfaceStatus::Up,
        Status::Down => TransportServicesInterfaceStatus::Down,
        Status::Unknown => TransportServicesInterfaceStatus::Unknown,
    }
}

impl TransportServicesInterfaceStatus {
    /// The number by which C callers see the status.
    pub open spec fn code_of(self) -> int {
        match self {
            TransportServicesInterfaceStatus::Up => 0,
            TransportServicesInterfaceStatus::Down => 1,
            TransportServicesInterfaceStatus::Unknown => 2,
        }
    }

    /// The number by which C callers see the status.
    pub fn code(&self) -> (r: i32)
        ensures
            r == self.code_of(),
    {
        match self {
            TransportServicesInterfaceStatus::Up => 0,
            TransportServicesInterfaceStatus::Down => 1,
            TransportServicesInterfaceStatus::Unknown => 2,
        }
    }
}

impl From<Status> for TransportServicesInterfaceStatus {
    fn from(status: Status) -> (r: Self) {
        match status {
            Status::Up => TransportServicesInterfaceStatus::Up,
            Status::Down => TransportServicesInterfaceStatus::Down,
            Status::Unknown => TransportServicesInterfaceStatus::Unknown,
        }
    }
}

impl vstd::std_specs::convert::FromSpecImpl<Status> for TransportServicesInterfaceStatus {
    open spec fn obeys_from_spec() -> bool {
        true
    }

    open spec fn from_spec(status: Status) -> Self {
        status_to_ffi(status)
    }
}

/// The kind of a change event as C callers see it.
#[derive(Debug, Clone, Copy, PartialEq, Eq, Structural)]
pub enum TransportServicesChangeEventType {
    Added,
    Removed,
    Modified,
    PathChanged,
}

impl TransportServicesChangeEventType {
    /// The number by which C callers see the kind.
    pub open spec fn code_of(self) -> int {
        match self {
            TransportServicesChangeEventType::Added => 0,
            TransportServicesChangeEventType::Removed => 1,
            TransportServicesChangeEventType::Modified => 2,
            TransportServicesChangeEventType::PathChanged => 3,
        }
    }

    /// The number by which C callers see the kind.
    pub fn code(&self) -> (r: i32)
        ensures
            r == self.code_of(),
    {
        match self {
            TransportServicesChangeEventType::Added => 0,
            TransportServicesChangeEventType::Removed => 1,
            TransportServicesChangeEventType::Modified => 2,
            TransportServicesChangeEventType::PathChanged => 3,
        }
    }
}

/// The kind of a change event, as reported to C callers.
pub fn change_event_type(e: &ChangeEvent) -> (r: TransportServicesChangeEventType)
    ensures
        e is Added <==> r == TransportServicesChangeEventType::Added,
        e is Removed <==> r == TransportServicesChangeEventType::Removed,
        e is Modified <==> r == TransportServicesChangeEventType::Modified,
        e is PathChanged <==> r == TransportServicesChangeEventType::PathChanged,
{
    match e {
        ChangeEvent::Added(_) => TransportServicesChangeEventType::Added,
        ChangeEvent::Removed(_) => TransportServicesChangeEventType::Removed,
        ChangeEvent::Modified { .. } => TransportServicesChangeEventType::Modified,
        ChangeEvent::PathChanged { .. } => TransportServicesChangeEventType::PathChanged,
    }
}

} // verus!
