use ibswm::display::{
    classify_startup_reply, close_action, supported_atom_names, AtomCache, CloseAction,
    StartupCheck, ACCESS_ERROR_CODE,
};
use ibswm::registry::{
    plan_configure, ConfigureForward, ConfigureRequest, FrameRegistry, Geometry, WindowRecord,
    CONFIGURE_HEIGHT, CONFIGURE_WIDTH, CONFIGURE_X, CONFIGURE_Y,
};
use ibswm::desktop::DesktopMode;
use ibswm::registry::{next_state, WindowEvent, WindowState};
use ibswm::sequencer::EventSequencer;
use ibswm::window_manager::{DisplayAction, DisplayEvent, WindowManager};

fn geometry() -> Geometry {
    Geometry { x: 10, y: 20, width: 300, height: 200 }
}

#[test]
fn the_atom_cache_memoizes_the_first_interning() {
    let mut cache = AtomCache::new();
    assert_eq!(None, cache.lookup("_NET_WM_STATE"));

    cache.record("_NET_WM_STATE", 47);
    assert_eq!(Some(47), cache.lookup("_NET_WM_STATE"));
    assert_eq!(None, cache.lookup("_NET_SUPPORTED"));

    cache.record("_NET_SUPPORTED", 3);
    assert_eq!(Some(3), cache.lookup("_NET_SUPPORTED"));
    assert_eq!(Some(47), cache.lookup("_NET_WM_STATE"));
}

#[test]
fn the_supported_protocol_set_is_fixed() {
    let names = supported_atom_names();
    assert_eq!(
        vec![
            "_NET_SUPPORTED",
            "_NET_WM_STATE",
            "_NET_ACTIVE_WINDOW",
            "_NET_WM_STATE_FULLSCREEN",
        ],
        names
    );
}

#[test]
fn an_access_error_means_another_manager_runs() {
    assert_eq!(StartupCheck::Ready, classify_startup_reply(None));
    assert_eq!(
        StartupCheck::AnotherWmRunning,
        classify_startup_reply(Some(ACCESS_ERROR_CODE))
    );
    assert_eq!(StartupCheck::OtherError, classify_startup_reply(Some(3)));
}

#[test]
fn a_window_advertising_the_delete_protocol_is_asked_to_close() {
    let protocols = vec![12, 58, 91];
    assert_eq!(CloseAction::SendDeleteMessage, close_action(&protocols, 58));
}

#[test]
fn a_window_without_the_delete_protocol_is_destroyed() {
    let protocols = vec![12, 91];
    assert_eq!(CloseAction::Destroy, close_action(&protocols, 58));
    assert_eq!(CloseAction::Destroy, close_action(&Vec::new(), 58));
}

#[test]
fn configure_requests_forward_exactly_the_masked_fields() {
    let request = ConfigureRequest {
        window: 7,
        x: -5,
        y: 40,
        width: 800,
        height: 600,
        mask: CONFIGURE_X | CONFIGURE_HEIGHT,
    };
    assert_eq!(
        ConfigureForward { x: Some(-5), y: None, width: None, height: Some(600) },
        plan_configure(&request)
    );

    let all = ConfigureRequest {
        mask: CONFIGURE_X | CONFIGURE_Y | CONFIGURE_WIDTH | CONFIGURE_HEIGHT,
        ..request
    };
    assert_eq!(
        ConfigureForward { x: Some(-5), y: Some(40), width: Some(800), height: Some(600) },
        plan_configure(&all)
    );
}

#[test]
fn managing_then_unmapping_restores_the_registry_size() {
    let mut registry = FrameRegistry::new();
    let mut sequencer = EventSequencer::new();
    let before = registry.len();

    registry.manage_window(7, 1007, geometry(), &mut sequencer, 42);
    assert!(registry.is_tracked(7));

    let record = registry.on_unmap_notify(7);
    assert_eq!(
        Some(WindowRecord { window: 7, frame: 1007, geometry: geometry() }),
        record
    );
    assert_eq!(before, registry.len());
}

#[test]
fn unmap_of_an_untracked_window_is_a_no_op() {
    let mut registry = FrameRegistry::new();
    let mut sequencer = EventSequencer::new();
    registry.manage_window(7, 1007, geometry(), &mut sequencer, 42);

    assert_eq!(None, registry.on_unmap_notify(99));
    assert_eq!(1, registry.len());
}

#[test]
fn the_lifecycle_moves_only_forward() {
    assert_eq!(
        WindowState::Managed,
        next_state(WindowState::Unmanaged, WindowEvent::ManageSucceeded)
    );
    assert_eq!(
        WindowState::Unmanaged,
        next_state(WindowState::Unmanaged, WindowEvent::ManageFailed)
    );
    assert_eq!(
        WindowState::GracefullyClosing,
        next_state(WindowState::Managed, WindowEvent::GracefulCloseRequested)
    );
    assert_eq!(
        WindowState::Destroyed,
        next_state(WindowState::Managed, WindowEvent::UnmapOrDestroy)
    );
    assert_eq!(
        WindowState::Destroyed,
        next_state(WindowState::GracefullyClosing, WindowEvent::UnmapOrDestroy)
    );
    assert_eq!(
        WindowState::Destroyed,
        next_state(WindowState::Destroyed, WindowEvent::ManageSucceeded)
    );
}

#[test]
fn a_map_request_asks_for_a_frame() {
    let mut wm = WindowManager::new();
    let action = wm.handle_event(&DisplayEvent::MapRequest {
        seqno: 1,
        window: 7,
        geometry: geometry(),
    });
    assert_eq!(
        Some(DisplayAction::ManageWindow { window: 7, geometry: geometry() }),
        action
    );
}

#[test]
fn managing_a_window_populates_the_active_desktop() {
    let mut wm = WindowManager::new();
    wm.manage_window(7, 1007, geometry(), 42);

    assert_eq!(1, wm.clients.len());
    assert_eq!(7, wm.clients[0].window);
    assert_eq!(vec![7], wm.desktops[0].clients);
    assert_eq!(Some(7), wm.desktops[0].current);
    assert_eq!(None, wm.desktops[0].previous);
}

#[test]
fn the_self_caused_unmap_of_a_reparent_is_suppressed() {
    let mut wm = WindowManager::new();
    wm.manage_window(7, 1007, geometry(), 42);

    // The unmap notification produced by the manager's own reparent
    // request carries that request's sequence number: suppressed, and
    // the window stays managed.
    let action = wm.handle_event(&DisplayEvent::UnmapNotify { seqno: 42, window: 7 });
    assert_eq!(None, action);
    assert_eq!(1, wm.clients.len());

    // A genuine unmap later carries a fresh sequence number.
    let action = wm.handle_event(&DisplayEvent::UnmapNotify { seqno: 43, window: 7 });
    assert_eq!(
        Some(DisplayAction::UnmanageWindow {
            record: WindowRecord { window: 7, frame: 1007, geometry: geometry() },
        }),
        action
    );
    assert_eq!(0, wm.clients.len());
    assert!(wm.desktops[0].clients.is_empty());
    assert_eq!(None, wm.desktops[0].current);
}

#[test]
fn managing_then_unmapping_leaves_the_manager_as_before() {
    let mut wm = WindowManager::new();
    let clients_before = wm.clients.len();

    wm.manage_window(7, 1007, geometry(), 42);
    let record = wm.on_unmap_notify(7);

    assert_eq!(
        Some(WindowRecord { window: 7, frame: 1007, geometry: geometry() }),
        record
    );
    assert_eq!(clients_before, wm.clients.len());
    assert_eq!(None, wm.on_unmap_notify(7));
}

#[test]
fn desktop_summaries_count_members_and_mark_the_active_desktop() {
    let mut wm = WindowManager::new();
    wm.manage_window(7, 1007, geometry(), 42);

    let summaries = wm.desktop_summaries();
    assert_eq!(4, summaries.len());
    assert_eq!((1, DesktopMode::Tile, true), summaries[0]);
    assert_eq!((0, DesktopMode::Tile, false), summaries[1]);
}

#[test]
fn a_configure_request_event_is_passed_through() {
    let mut wm = WindowManager::new();
    let request = ConfigureRequest {
        window: 7,
        x: 1,
        y: 2,
        width: 3,
        height: 4,
        mask: CONFIGURE_WIDTH,
    };
    let action = wm.handle_event(&DisplayEvent::ConfigureRequest { seqno: 9, request });
    assert_eq!(
        Some(DisplayAction::ForwardConfigure {
            window: 7,
            forward: ConfigureForward { x: None, y: None, width: Some(3), height: None },
        }),
        action
    );

    let action = wm.handle_event(&DisplayEvent::Other { seqno: 10 });
    assert_eq!(None, action);
}
