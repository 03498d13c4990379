//! A managed window's identity at the window-management level.
//!
//! Clients are kept in an arena, and a desktop's membership list names
//! its members by their window id, a stable identifier, so no client
//! links to another directly.  The window id is also the back-reference
//! to the window's record.

use vstd::prelude::*;

verus! {

/// WM-level identity of a managed window.
#[derive(Clone, Copy, Debug, PartialEq, Eq, Structural)]
pub struct Client {
    /// Whether the client demands attention.
    pub is_urgent: bool,
    /// Whether the client floats above the tiled layout.
    pub is_float: bool,
    /// Whether the window is transient for another window.
    pub is_transient: bool,
    /// The original window id; the window record with this id belongs
    /// to this client.
    pub window: u32,
}

impl Client {
    /// A freshly managed window's client: no flag set.
    pub fn new(window: u32) -> (r: Client)
        ensures
            r.window == window,
            !r.is_urgent,
            !r.is_float,
            !r.is_transient,
    {
        Client { is_urgent: false, is_float: false, is_transient: false, window }
    }
}

} // verus!
