//! The manager's state and its event handling: every incoming display
//! event is first held against the sequencer, then dispatched; the
//! handler mutates the tracked state and hands back the display action
//! the embedding binary must perform.
//!
//! Managing a window is split in two, because a frame window must be
//! created on the display first: a map request yields a manage action,
//! and once the embedding binary has created the frame and issued the
//! reparent it records the outcome with `manage_window`, handing over
//! the reparent request's sequence number for suppression.

use vstd::prelude::*;

use crate::client::Client;
use crate::desktop::{fresh_desktop, Desktop, DesktopMode};
use crate::kvstore::KvStore;
use crate::monitors::Monitors;
use crate::registry::{
    configure_forward_spec, plan_configure, record_index, ConfigureForward, ConfigureRequest,
    FrameRegistry, Geometry, WindowRecord,
};
use crate::sequencer::{process, EventSequencer};

verus! {

/// A display event as the manager's logic sees it: plain values read
/// out of the wire event, each carrying its 16-bit sequence number.
#[derive(Clone, Copy, Debug, PartialEq, Eq, Structural)]
pub enum DisplayEvent {
    /// A client asks to be mapped.
    MapRequest { seqno: u16, window: u32, geometry: Geometry },
    /// A client asks for a new geometry.
    ConfigureRequest { seqno: u16, request: ConfigureRequest },
    /// A window was unmapped.
    UnmapNotify { seqno: u16, window: u32 },
    /// Any event the manager does not handle.
    Other { seqno: u16 },
}

/// The sequence number an event carries.
pub open spec fn event_seqno(e: DisplayEvent) -> u16 {
    match e {
        DisplayEvent::MapRequest { seqno, .. } => seqno,
        DisplayEvent::ConfigureRequest { seqno, .. } => seqno,
        DisplayEvent::UnmapNotify { seqno, .. } => seqno,
        DisplayEvent::Other { seqno } => seqno,
    }
}

/// What the embedding binary must perform on the display in response
/// to an event.
#[derive(Clone, Copy, Debug, PartialEq, Eq, Structural)]
pub enum DisplayAction {
    /// Create a frame sized to the window's geometry, select input on
    /// it, and — under a server grab — add the window to the save-set,
    /// reparent it into the frame and map both; then record the
    /// outcome with `manage_window`.
    ManageWindow { window: u32, geometry: Geometry },
    /// Reparent the window back onto the root at its last known
    /// coordinates, destroy the frame, and remove the window from the
    /// save-set.
    UnmanageWindow { record: WindowRecord },
    /// Forward exactly the masked geometry fields to the server.
    ForwardConfigure { window: u32, forward: ConfigureForward },
}

/// Membership predicate used when a window disappears: every client of
/// a different window survives.
pub open spec fn not_client_of(window: u32) -> spec_fn(Client) -> bool {
    |c: Client| c.window != window
}

/// Membership predicate on window-id lists: every other window
/// survives.
pub open spec fn not_window(window: u32) -> spec_fn(u32) -> bool {
    |w: u32| w != window
}

/// What a desktop looks like after a window is gone: the membership
/// list without that window, the references to it cleared, the mode
/// kept.
pub open spec fn desktop_cleaned(d0: Desktop, window: u32, d1: Desktop) -> bool {
    &&& d1.mode == d0.mode
    &&& d1.clients@ == d0.clients@.filter(not_window(window))
    &&& d1.current == (if d0.current == Some(window) {
        None::<u32>
    } else {
        d0.current
    })
    &&& d1.previous == (if d0.previous == Some(window) {
        None::<u32>
    } else {
        d0.previous
    })
}

/// The state touched only by commands is untouched by events.
pub open spec fn same_command_state(w0: WindowManager, w1: WindowManager) -> bool {
    &&& w1.monitors@ == w0.monitors@
    &&& w1.global_config@ == w0.global_config@
    &&& w1.rules@ == w0.rules@
}

/// The state touched only by events is untouched by commands.
pub open spec fn same_window_state(w0: WindowManager, w1: WindowManager) -> bool {
    &&& w1.registry@ == w0.registry@
    &&& w1.sequencer@ == w0.sequencer@
    &&& w1.clients@ == w0.clients@
    &&& w1.desktops@ == w0.desktops@
    &&& w1.active_desktop == w0.active_desktop
}

/// The runtime state of the manager: the topology, the window records,
/// the suppression sequencer, and the command-visible stores.
pub struct WindowManager {
    /// The monitors, mutated by commands.
    pub monitors: Monitors,
    /// The manager's own desktops (the startup default, before any
    /// monitor exists).
    pub desktops: Vec<Desktop>,
    /// Index of the active desktop.
    pub active_desktop: usize,
    /// The client arena: one entry per managed window.
    pub clients: Vec<Client>,
    /// Sequence numbers of requests whose self-caused events must be
    /// suppressed.
    pub sequencer: EventSequencer,
    /// The window/frame records.
    pub registry: FrameRegistry,
    /// Configuration keys of the global scope.
    pub global_config: KvStore,
    /// Registered placement rules, in registration order.
    pub rules: Vec<crate::cli::Rule>,
}

impl WindowManager {
    /// The manager's structural invariant: the active desktop exists.
    pub open spec fn wf(&self) -> bool {
        self.active_desktop < self.desktops@.len()
    }

    /// Create a manager with four default tiling desktops and nothing
    /// tracked yet.
    pub fn new() -> (r: WindowManager)
        ensures
            r.wf(),
            r.monitors@.len() == 0,
            r.desktops@.len() == 4,
            forall|k: int| 0 <= k < 4 ==> fresh_desktop(r.desktops@[k], DesktopMode::Tile),
            r.active_desktop == 0,
            r.clients@.len() == 0,
            r.sequencer@.len() == 0,
            r.registry@.len() == 0,
            r.global_config@.len() == 0,
            r.rules@.len() == 0,
    {
        let mut desktops: Vec<Desktop> = Vec::new();
        let mut k: usize = 0;
        while k < 4
            invariant
                0 <= k <= 4,
                desktops@.len() == k,
                forall|j: int| 0 <= j < k ==> fresh_desktop(desktops@[j], DesktopMode::Tile),
            decreases 4 - k,
        {
            desktops.push(Desktop::new(DesktopMode::Tile));
            k = k + 1;
        }
        WindowManager {
            monitors: Monitors::new(),
            desktops,
            active_desktop: 0,
            clients: Vec::new(),
            sequencer: EventSequencer::new(),
            registry: FrameRegistry::new(),
            global_config: KvStore::new(),
            rules: Vec::new(),
        }
    }

    /// Record a successfully managed window: the frame pairing, the
    /// reparent request's sequence number for suppression, a fresh
    /// client in the arena, and membership at the end of the active
    /// desktop's list, which becomes the desktop's current client.
    pub fn manage_window(&mut self, window: u32, frame: u32, geometry: Geometry, reparent_seqno: u16)
        requires
            old(self).wf(),
        ensures
            final(self).wf(),
            same_command_state(*old(self), *final(self)),
            final(self).active_desktop == old(self).active_desktop,
            final(self).registry@ == old(self).registry@.push(
                (WindowRecord { window, frame, geometry }),
            ),
            final(self).sequencer@ == old(self).sequencer@.push(reparent_seqno),
            final(self).clients@ == old(self).clients@.push(
                (Client { is_urgent: false, is_float: false, is_transient: false, window }),
            ),
            final(self).desktops@.len() == old(self).desktops@.len(),
            forall|k: int|
                0 <= k < old(self).desktops@.len() && k != old(self).active_desktop
                    ==> final(self).desktops@[k] == old(self).desktops@[k],
            ({
                let d0 = old(self).desktops@[old(self).active_desktop as int];
                let d1 = final(self).desktops@[old(self).active_desktop as int];
                &&& d1.mode == d0.mode
                &&& d1.clients@ == d0.clients@.push(window)
                &&& d1.current == Some(window)
                &&& d1.previous == d0.current
            }),
    {
        self.registry.manage_window(window, frame, geometry, &mut self.sequencer, reparent_seqno);
        self.clients.push(Client::new(window));
        let a = self.active_desktop;
        let d = &mut self.desktops[a];
        d.clients.push(window);
        d.previous = d.current;
        d.current = Some(window);
    }

    /// Remove every trace of a window: its record (handed back so the
    /// caller can undo the reparenting), its client, its desktop
    /// membership and the references to it.  Unmap of an untracked
    /// window leaves the records untouched and hands back nothing.
    pub fn on_unmap_notify(&mut self, window: u32) -> (r: Option<WindowRecord>)
        ensures
            same_command_state(*old(self), *final(self)),
            final(self).active_desktop == old(self).active_desktop,
            final(self).sequencer@ == old(self).sequencer@,
            (match record_index(old(self).registry@, window) {
                Some(i) => {
                    &&& r == Some(old(self).registry@[i])
                    &&& final(self).registry@ == old(self).registry@.remove(i)
                },
                None => {
                    &&& r is None
                    &&& final(self).registry@ == old(self).registry@
                },
            }),
            final(self).clients@ == old(self).clients@.filter(not_client_of(window)),
            final(self).desktops@.len() == old(self).desktops@.len(),
            forall|k: int|
                0 <= k < old(self).desktops@.len() ==> desktop_cleaned(
                    old(self).desktops@[k],
                    window,
                    final(self).desktops@[k],
                ),
            old(self).wf() ==> final(self).wf(),
    {
        let r = self.registry.on_unmap_notify(window);
        remove_client(&mut self.clients, window);
        clean_desktops(&mut self.desktops, window);
        r
    }

    /// Handle one display event: the sequencer discards entries that
    /// have passed and decides suppression; a suppressed event does
    /// nothing further.  A map request asks for a frame; an unmap
    /// removes the window's traces and asks for the teardown; a
    /// configure request is passed through by the mask; anything else
    /// is left alone.
    pub fn handle_event(&mut self, event: &DisplayEvent) -> (r: Option<DisplayAction>)
        ensures
            same_command_state(*old(self), *final(self)),
            final(self).active_desktop == old(self).active_desktop,
            final(self).sequencer@ == process(old(self).sequencer@, event_seqno(*event)).0,
            old(self).wf() ==> final(self).wf(),
            ({
                let suppressed = process(old(self).sequencer@, event_seqno(*event)).1;
                if suppressed {
                    &&& r is None
                    &&& final(self).registry@ == old(self).registry@
                    &&& final(self).clients@ == old(self).clients@
                    &&& final(self).desktops@ == old(self).desktops@
                } else {
                    match *event {
                        DisplayEvent::MapRequest { seqno, window, geometry } => {
                            &&& r == Some(DisplayAction::ManageWindow { window, geometry })
                            &&& final(self).registry@ == old(self).registry@
                            &&& final(self).clients@ == old(self).clients@
                            &&& final(self).desktops@ == old(self).desktops@
                        },
                        DisplayEvent::ConfigureRequest { seqno, request } => {
                            &&& r == Some(
                                DisplayAction::ForwardConfigure {
                                    window: request.window,
                                    forward: configure_forward_spec(request),
                                },
                            )
                            &&& final(self).registry@ == old(self).registry@
                            &&& final(self).clients@ == old(self).clients@
                            &&& final(self).desktops@ == old(self).desktops@
                        },
                        DisplayEvent::UnmapNotify { seqno, window } => {
                            &&& (match record_index(old(self).registry@, window) {
                                Some(i) => {
                                    &&& r == Some(
                                        DisplayAction::UnmanageWindow {
                                            record: old(self).registry@[i],
                                        },
                                    )
                                    &&& final(self).registry@ == old(self).registry@.remove(i)
                                },
                                None => {
                                    &&& r is None
                                    &&& final(self).registry@ == old(self).registry@
                                },
                            })
                            &&& final(self).clients@ == old(self).clients@.filter(
                                not_client_of(window),
                            )
                            &&& final(self).desktops@.len() == old(self).desktops@.len()
                            &&& forall|k: int|
                                0 <= k < old(self).desktops@.len() ==> desktop_cleaned(
                                    old(self).desktops@[k],
                                    window,
                                    final(self).desktops@[k],
                                )
                        },
                        DisplayEvent::Other { seqno } => {
                            &&& r is None
                            &&& final(self).registry@ == old(self).registry@
                            &&& final(self).clients@ == old(self).clients@
                            &&& final(self).desktops@ == old(self).desktops@
                        },
                    }
                }
            }),
    {
        let seqno = seqno_of(event);
        let suppressed = self.sequencer.should_ignore(seqno);
        if suppressed {
            return None;
        }
        match event {
            DisplayEvent::MapRequest { window, geometry, .. } => Some(
                DisplayAction::ManageWindow { window: *window, geometry: *geometry },
            ),
            DisplayEvent::ConfigureRequest { request, .. } => {
                let forward = plan_configure(request);
                Some(DisplayAction::ForwardConfigure { window: request.window, forward })
            },
            DisplayEvent::UnmapNotify { window, .. } => {
                match self.on_unmap_notify(*window) {
                    Some(record) => Some(DisplayAction::UnmanageWindow { record }),
                    None => None,
                }
            },
            DisplayEvent::Other { .. } => None,
        }
    }
}

impl WindowManager {
    /// One line of state per desktop, for diagnostics: how many clients
    /// it holds, its mode, and whether it is the active one.
    pub fn desktop_summaries(&self) -> (r: Vec<(usize, DesktopMode, bool)>)
        ensures
            r@.len() == self.desktops@.len(),
            forall|k: int|
                0 <= k < self.desktops@.len() ==> #[trigger] r@[k] == (
                self.desktops@[k].clients@.len() as usize,
                self.desktops@[k].mode,
                k == self.active_desktop as int,
                ),
    {
        let n = self.desktops.len();
        let mut summaries: Vec<(usize, DesktopMode, bool)> = Vec::new();
        let mut k: usize = 0;
        while k < n
            invariant
                n == self.desktops@.len(),
                0 <= k <= n,
                summaries@.len() == k,
                forall|j: int|
                    0 <= j < k ==> #[trigger] summaries@[j] == (
                    self.desktops@[j].clients@.len() as usize,
                    self.desktops@[j].mode,
                    j == self.active_desktop as int,
                    ),
            decreases n - k,
        {
            let count = self.desktops[k].clients.len();
            summaries.push((count, self.desktops[k].mode, k == self.active_desktop));
            k = k + 1;
        }
        summaries
    }

    /// Apply a user command received over the control channel.
    pub fn handle_command(&mut self, command: crate::cli::SubCommand) -> (r: Result<
        Option<String>,
        crate::command_executor::ExecError,
    >)
        ensures
            crate::command_executor::execute_post(*old(self), command, *final(self), r),
    {
        crate::command_executor::CommandExecutor::new().execute(self, command)
    }
}

/// The sequence number an event carries, executable form.
fn seqno_of(e: &DisplayEvent) -> (r: u16)
    ensures
        r == event_seqno(*e),
{
    match e {
        DisplayEvent::MapRequest { seqno, .. } => *seqno,
        DisplayEvent::ConfigureRequest { seqno, .. } => *seqno,
        DisplayEvent::UnmapNotify { seqno, .. } => *seqno,
        DisplayEvent::Other { seqno } => *seqno,
    }
}

/// Drop every occurrence of `window` from a membership list.
fn remove_window_from_list(list: &mut Vec<u32>, window: u32)
    ensures
        final(list)@ == old(list)@.filter(not_window(window)),
{
    let n = list.len();
    let mut out: Vec<u32> = Vec::new();
    let mut i: usize = 0;
    proof {
        reveal(Seq::filter);
        assert(list@.take(0).filter(not_window(window)) =~= Seq::<u32>::empty());
    }
    while i < n
        invariant
            *list == *old(list),
            n == list@.len(),
            0 <= i <= n,
            out@ == list@.take(i as int).filter(not_window(window)),
        decreases n - i,
    {
        let ghost prefix = list@.take(i as int);
        let ghost longer = list@.take(i as int + 1);
        proof {
            reveal(Seq::filter);
            assert(longer.drop_last() =~= prefix);
            assert(longer.last() == list@[i as int]);
            assert(longer.filter(not_window(window)) == (if not_window(window)(longer.last()) {
                prefix.filter(not_window(window)).push(longer.last())
            } else {
                prefix.filter(not_window(window))
            }));
        }
        let x = list[i];
        if x != window {
            out.push(x);
        }
        i = i + 1;
    }
    proof {
        assert(list@.take(n as int) =~= list@);
    }
    *list = out;
}

/// Drop every client of `window` from the arena.
fn remove_client(clients: &mut Vec<Client>, window: u32)
    ensures
        final(clients)@ == old(clients)@.filter(not_client_of(window)),
{
    let n = clients.len();
    let mut out: Vec<Client> = Vec::new();
    let mut i: usize = 0;
    proof {
        reveal(Seq::filter);
        assert(clients@.take(0).filter(not_client_of(window)) =~= Seq::<Client>::empty());
    }
    while i < n
        invariant
            *clients == *old(clients),
            n == clients@.len(),
            0 <= i <= n,
            out@ == clients@.take(i as int).filter(not_client_of(window)),
        decreases n - i,
    {
        let ghost prefix = clients@.take(i as int);
        let ghost longer = clients@.take(i as int + 1);
        proof {
            reveal(Seq::filter);
            assert(longer.drop_last() =~= prefix);
            assert(longer.last() == clients@[i as int]);
            assert(longer.filter(not_client_of(window)) == (if not_client_of(window)(
                longer.last(),
            ) {
                prefix.filter(not_client_of(window)).push(longer.last())
            } else {
                prefix.filter(not_client_of(window))
            }));
        }
        let c = clients[i];
        if c.window != window {
            out.push(c);
        }
        i = i + 1;
    }
    proof {
        assert(clients@.take(n as int) =~= clients@);
    }
    *clients = out;
}

/// Clean every desktop of a vanished window.
fn clean_desktops(desktops: &mut Vec<Desktop>, window: u32)
    ensures
        final(desktops)@.len() == old(desktops)@.len(),
        forall|k: int|
            0 <= k < old(desktops)@.len() ==> desktop_cleaned(
                old(desktops)@[k],
                window,
                final(desktops)@[k],
            ),
{
    let n = desktops.len();
    let mut k: usize = 0;
    while k < n
        invariant
            n == desktops@.len(),
            0 <= k <= n,
            forall|j: int| 0 <= j < k ==> desktop_cleaned(old(desktops)@[j], window, desktops@[j]),
            forall|j: int| k <= j < n ==> desktops@[j] == old(desktops)@[j],
        decreases n - k,
    {
        let d = &mut desktops[k];
        remove_window_from_list(&mut d.clients, window);
        if let Some(w) = d.current {
            if w == window {
                d.current = None;
            }
        }
        if let Some(w) = d.previous {
            if w == window {
                d.previous = None;
            }
        }
        k = k + 1;
    }
}

} // verus!
