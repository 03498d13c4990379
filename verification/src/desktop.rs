//! Workspaces: a desktop carries a layout mode and its ordered client
//! membership.
//!
//! Clients live in an arena owned by the window manager; a desktop
//! names its members by window id, in insertion order (the head of the
//! membership list is the first entry), together with references to the
//! active and the previously active client.

use vstd::prelude::*;

verus! {

/// Layout mode of a desktop.  Tiling is the only mode so far; layout
/// geometry itself is a placeholder to be designed later.
#[derive(Clone, Copy, Debug, PartialEq, Eq, Structural)]
pub enum DesktopMode {
    Tile,
}

/// A workspace on a monitor.
pub struct Desktop {
    /// Layout mode.
    pub mode: DesktopMode,
    /// Window ids of the member clients, in insertion order; the head
    /// of the membership list is the first entry.
    pub clients: Vec<u32>,
    /// Window id of the active client, if any.
    pub current: Option<u32>,
    /// Window id of the previously active client, if any.
    pub previous: Option<u32>,
}

/// A desktop as `Desktop::new` leaves it: the given mode, no members.
pub open spec fn fresh_desktop(d: Desktop, mode: DesktopMode) -> bool {
    &&& d.mode == mode
    &&& d.clients@.len() == 0
    &&& d.current is None
    &&& d.previous is None
}

impl Desktop {
    /// Create an empty desktop with the given layout mode.
    pub fn new(mode: DesktopMode) -> (r: Desktop)
        ensures
            fresh_desktop(r, mode),
    {
        Desktop { mode, clients: Vec::new(), current: None, previous: None }
    }
}

} // verus!
