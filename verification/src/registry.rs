//! The window/frame lifecycle: records of managed windows and the
//! decisions driving manage, unmap and configure handling.
//!
//! Managing a window records the pairing of the client's original
//! window with its manager-created frame and pushes the reparent
//! request's sequence number to the event sequencer, so the synthetic
//! notifications that request produces are not reprocessed.  Unmapping
//! removes the record and hands it back so the embedding binary can
//! reparent the window onto the root and destroy the frame; an unmap
//! for an untracked window is a no-op.

use vstd::prelude::*;

use crate::sequencer::EventSequencer;

verus! {

/// A window's position and size.
#[derive(Clone, Copy, Debug, PartialEq, Eq, Structural)]
pub struct Geometry {
    pub x: i16,
    pub y: i16,
    pub width: u16,
    pub height: u16,
}

/// A managed top-level window: the client's original window, the frame
/// it was reparented into, and its last known geometry.
#[derive(Clone, Copy, Debug, PartialEq, Eq, Structural)]
pub struct WindowRecord {
    pub window: u32,
    pub frame: u32,
    pub geometry: Geometry,
}

/// Index of the first record for `window`, if the window is tracked.
pub open spec fn record_index(rs: Seq<WindowRecord>, window: u32) -> Option<int>
    decreases rs.len(),
{
    if rs.len() == 0 {
        None
    } else if rs[0].window == window {
        Some(0int)
    } else {
        match record_index(rs.drop_first(), window) {
            Some(i) => Some(i + 1),
            None => None,
        }
    }
}

/// The mapping between managed windows and their frames.
pub struct FrameRegistry {
    records: Vec<WindowRecord>,
}

impl View for FrameRegistry {
    type V = Seq<WindowRecord>;

    closed spec fn view(&self) -> Seq<WindowRecord> {
        self.records@
    }
}

impl FrameRegistry {
    /// Create a registry tracking no window.
    pub fn new() -> (r: FrameRegistry)
        ensures
            r@ == Seq::<WindowRecord>::empty(),
    {
        FrameRegistry { records: Vec::new() }
    }

    /// Number of tracked windows.
    pub fn len(&self) -> (r: usize)
        ensures
            r == self@.len(),
    {
        self.records.len()
    }

    /// Whether `window` is tracked.
    pub fn is_tracked(&self, window: u32) -> (r: bool)
        ensures
            r == (record_index(self@, window) is Some),
    {
        self.position(window).is_some()
    }

    /// Record a newly managed window: its frame, its geometry as found,
    /// and the sequence number of the reparent request, pushed to the
    /// sequencer so the self-caused notifications are suppressed.
    pub fn manage_window(
        &mut self,
        window: u32,
        frame: u32,
        geometry: Geometry,
        sequencer: &mut EventSequencer,
        reparent_seqno: u16,
    )
        ensures
            final(self)@ == old(self)@.push(
                (WindowRecord { window, frame, geometry }),
            ),
            final(sequencer)@ == old(sequencer)@.push(reparent_seqno),
    {
        sequencer.push(reparent_seqno);
        self.records.push(WindowRecord { window, frame, geometry });
    }

    /// Remove the record of `window` and hand it back, so the caller
    /// can reparent the window onto the root at its last known
    /// coordinates and destroy the frame.  Unmap of an untracked window
    /// is a no-op.
    pub fn on_unmap_notify(&mut self, window: u32) -> (r: Option<WindowRecord>)
        ensures
            match record_index(old(self)@, window) {
                Some(i) => {
                    &&& r == Some(old(self)@[i])
                    &&& final(self)@ == old(self)@.remove(i)
                },
                None => {
                    &&& r is None
                    &&& *final(self) == *old(self)
                },
            },
    {
        proof {
            lemma_record_index_characterizes(self@, window);
        }
        match self.position(window) {
            Some(i) => Some(self.records.remove(i)),
            None => None,
        }
    }

    /// Index of the first record for `window` in the backing order.
    fn position(&self, window: u32) -> (r: Option<usize>)
        ensures
            match r {
                Some(i) => record_index(self@, window) == Some(i as int),
                None => record_index(self@, window) is None,
            },
    {
        let n = self.records.len();
        let mut i: usize = 0;
        while i < n
            invariant
                n == self.records@.len(),
                0 <= i <= n,
                forall|j: int| 0 <= j < i ==> self.records@[j].window != window,
            decreases n - i,
        {
            if self.records[i].window == window {
                proof {
                    lemma_record_first_match(self.records@, window, i as int);
                }
                return Some(i);
            }
            i = i + 1;
        }
        proof {
            lemma_record_index_characterizes(self.records@, window);
        }
        None
    }
}

/// `record_index` finds the first record of the window and nothing
/// else.
pub proof fn lemma_record_index_characterizes(rs: Seq<WindowRecord>, window: u32)
    ensures
        match record_index(rs, window) {
            Some(i) => {
                &&& 0 <= i < rs.len()
                &&& rs[i].window == window
                &&& forall|j: int| 0 <= j < i ==> rs[j].window != window
            },
            None => forall|j: int| 0 <= j < rs.len() ==> rs[j].window != window,
        },
    decreases rs.len(),
{
    if rs.len() > 0 && rs[0].window != window {
        let rest = rs.drop_first();
        lemma_record_index_characterizes(rest, window);
        match record_index(rest, window) {
            Some(i) => {
                assert(rs[i + 1] == rest[i]);
                assert forall|j: int| 0 <= j < i + 1 implies rs[j].window != window by {
                    if j > 0 {
                        assert(rs[j] == rest[j - 1]);
                    }
                }
            },
            None => {
                assert forall|j: int| 0 <= j < rs.len() implies rs[j].window != window by {
                    if j > 0 {
                        assert(rs[j] == rest[j - 1]);
                    }
                }
            },
        }
    }
}

/// The first record of the window is the one found.
pub proof fn lemma_record_first_match(rs: Seq<WindowRecord>, window: u32, i: int)
    requires
        0 <= i < rs.len(),
        rs[i].window == window,
        forall|j: int| 0 <= j < i ==> rs[j].window != window,
    ensures
        record_index(rs, window) == Some(i),
    decreases i,
{
    if i > 0 {
        let rest = rs.drop_first();
        assert(forall|j: int| 0 <= j < rest.len() ==> rest[j] == rs[j + 1]);
        lemma_record_first_match(rest, window, i - 1);
    }
}

/// The law of the manage/unmap round trip: managing a window that was
/// not tracked and then unmapping it removes exactly the new record and
/// leaves the registry as it was before management began.
pub proof fn lemma_manage_then_unmap(rs: Seq<WindowRecord>, rec: WindowRecord)
    requires
        record_index(rs, rec.window) is None,
    ensures
        record_index(rs.push(rec), rec.window) == Some(rs.len() as int),
        rs.push(rec).remove(rs.len() as int) =~= rs,
{
    lemma_record_index_characterizes(rs, rec.window);
    lemma_record_first_match(rs.push(rec), rec.window, rs.len() as int);
}

/// Mask bits naming the geometry fields present in a configure
/// request, as the display protocol defines them.
pub const CONFIGURE_X: u16 = 0x1;

pub const CONFIGURE_Y: u16 = 0x2;

pub const CONFIGURE_WIDTH: u16 = 0x4;

pub const CONFIGURE_HEIGHT: u16 = 0x8;

/// A client's configure request: the requested geometry and the mask
/// saying which of the four fields the client actually supplied.
#[derive(Clone, Copy, Debug, PartialEq, Eq, Structural)]
pub struct ConfigureRequest {
    pub window: u32,
    pub x: i16,
    pub y: i16,
    pub width: u16,
    pub height: u16,
    pub mask: u16,
}

/// What is forwarded to the server: exactly the fields present in the
/// request's mask, each carrying the requested value.
#[derive(Clone, Copy, Debug, PartialEq, Eq, Structural)]
pub struct ConfigureForward {
    pub x: Option<i16>,
    pub y: Option<i16>,
    pub width: Option<u16>,
    pub height: Option<u16>,
}

/// The pass-through policy for configure requests: for each geometry
/// field present in the mask, exactly that field, with the requested
/// value; fields absent from the mask are left untouched.
pub open spec fn configure_forward_spec(req: ConfigureRequest) -> ConfigureForward {
    ConfigureForward {
        x: if req.mask & CONFIGURE_X != 0 { Some(req.x) } else { None },
        y: if req.mask & CONFIGURE_Y != 0 { Some(req.y) } else { None },
        width: if req.mask & CONFIGURE_WIDTH != 0 { Some(req.width) } else { None },
        height: if req.mask & CONFIGURE_HEIGHT != 0 { Some(req.height) } else { None },
    }
}

/// Apply the pass-through policy to one configure request.  (No layout
/// engine overrides this yet.)
pub fn plan_configure(req: &ConfigureRequest) -> (r: ConfigureForward)
    ensures
        r == configure_forward_spec(*req),
{
    ConfigureForward {
        x: if req.mask & CONFIGURE_X != 0 { Some(req.x) } else { None },
        y: if req.mask & CONFIGURE_Y != 0 { Some(req.y) } else { None },
        width: if req.mask & CONFIGURE_WIDTH != 0 { Some(req.width) } else { None },
        height: if req.mask & CONFIGURE_HEIGHT != 0 { Some(req.height) } else { None },
    }
}

/// Lifecycle states of a window as the manager sees it.  Reparenting
/// happens as part of becoming managed, so no separate state stands for
/// it.
#[derive(Clone, Copy, Debug, PartialEq, Eq, Structural)]
pub enum WindowState {
    Unmanaged,
    Managed,
    GracefullyClosing,
    Destroyed,
}

/// Lifecycle events a window can see.
#[derive(Clone, Copy, Debug, PartialEq, Eq, Structural)]
pub enum WindowEvent {
    /// The manage attempt succeeded (startup scan or map request).
    ManageSucceeded,
    /// The manage attempt failed; it is not retried.
    ManageFailed,
    /// The cooperative close handshake was initiated.
    GracefulCloseRequested,
    /// The window was unmapped or destroyed.
    UnmapOrDestroy,
}

/// The lifecycle transition table: unmanaged windows become managed
/// only by a successful manage attempt (a failed one leaves the window
/// untracked); managed windows either enter the cooperative close
/// handshake or are destroyed; a closing window ends destroyed; nothing
/// leaves the destroyed state.
pub open spec fn next_state_spec(s: WindowState, e: WindowEvent) -> WindowState {
    match (s, e) {
        (WindowState::Unmanaged, WindowEvent::ManageSucceeded) => WindowState::Managed,
        (WindowState::Managed, WindowEvent::GracefulCloseRequested) => (
            WindowState::GracefullyClosing
        ),
        (WindowState::Managed, WindowEvent::UnmapOrDestroy) => WindowState::Destroyed,
        (WindowState::GracefullyClosing, WindowEvent::UnmapOrDestroy) => WindowState::Destroyed,
        (_, _) => s,
    }
}

/// Apply one lifecycle event.
pub fn next_state(s: WindowState, e: WindowEvent) -> (r: WindowState)
    ensures
        r == next_state_spec(s, e),
{
    match (s, e) {
        (WindowState::Unmanaged, WindowEvent::ManageSucceeded) => WindowState::Managed,
        (WindowState::Managed, WindowEvent::GracefulCloseRequested) => (
            WindowState::GracefullyClosing
        ),
        (WindowState::Managed, WindowEvent::UnmapOrDestroy) => WindowState::Destroyed,
        (WindowState::GracefullyClosing, WindowEvent::UnmapOrDestroy) => WindowState::Destroyed,
        (_, _) => s,
    }
}

} // verus!
