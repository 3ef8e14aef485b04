use pokemmo_companion::focus::FocusState;
use pokemmo_companion::viewport::{
    BackgroundColor, DisplayHandleKind, FrameInput, ViewportCommand, ViewportManager,
    WindowHandleKind,
};
use pokemmo_companion::wayland::{
    daemon_launch_script, elevation_command, notice_command, FallbackReason,
    NativeViewportManagerWayland, SetupEvent, WaylandSetup, CONNECT_RETRY_MILLIS, DAEMON_FILE_NAME,
};

#[test]
fn launch_script_passes_the_ids_and_detaches() {
    assert_eq!(
        daemon_launch_script("/opt/app/./hotkey-daemon", 1000, 1000),
        "setsid /opt/app/./hotkey-daemon --drop-uid 1000 --drop-gid 1000 </dev/null >/dev/null 2>&1 &"
    );
    assert_eq!(
        daemon_launch_script("d", 0, 4294967295),
        "setsid d --drop-uid 0 --drop-gid 4294967295 </dev/null >/dev/null 2>&1 &"
    );
}

#[test]
fn commands_for_notice_and_elevation() {
    assert_eq!(
        elevation_command("echo hi".to_string()),
        vec!["pkexec".to_string(), "sh".to_string(), "-c".to_string(), "echo hi".to_string()]
    );
    let notice = notice_command();
    assert_eq!(notice.len(), 3);
    assert_eq!(notice[0], "zenity");
    assert_eq!(notice[1], "--info");
    assert!(notice[2].starts_with("--text=On some linux desktop environments"));
    assert_eq!(DAEMON_FILE_NAME, "./hotkey-daemon");
    assert_eq!(CONNECT_RETRY_MILLIS, 1000);
}

fn run(events: &[SetupEvent]) -> WaylandSetup {
    let mut state = WaylandSetup::new();
    for e in events {
        state = state.advance(*e);
    }
    state
}

const WAYLAND: SetupEvent = SetupEvent::Handles(WindowHandleKind::Wayland, DisplayHandleKind::Wayland);

#[test]
fn a_setup_in_which_all_goes_well_ends_in_the_native_backend() {
    let mut state = WaylandSetup::new();
    assert_eq!(state, WaylandSetup::ReadHandles);
    let steps = [
        (WAYLAND, WaylandSetup::InformUser),
        (SetupEvent::NoticeShown(true), WaylandSetup::LocateDaemon),
        (SetupEvent::DaemonLocated(true), WaylandSetup::LaunchDaemon),
        (SetupEvent::DaemonLaunched(true), WaylandSetup::AwaitElevation),
        (SetupEvent::ElevationEnded(Some(true)), WaylandSetup::StartListener),
        (SetupEvent::ListenerStarted(true), WaylandSetup::Native),
    ];
    for (event, expected) in steps {
        assert!(!state.is_final());
        state = state.advance(event);
        assert_eq!(state, expected);
    }
    assert!(state.is_final());
    assert!(state.holds_daemon());
}

#[test]
fn every_failure_ends_in_the_default_backend() {
    assert_eq!(
        run(&[SetupEvent::Handles(WindowHandleKind::Xlib, DisplayHandleKind::Wayland)]),
        WaylandSetup::Fallback(FallbackReason::NotAWaylandWindow)
    );
    assert_eq!(
        run(&[SetupEvent::Handles(WindowHandleKind::Wayland, DisplayHandleKind::Xlib)]),
        WaylandSetup::Fallback(FallbackReason::NotAWaylandDisplay)
    );
    assert_eq!(
        run(&[WAYLAND, SetupEvent::NoticeShown(false), SetupEvent::DaemonLocated(false)]),
        WaylandSetup::Fallback(FallbackReason::DaemonNotFound)
    );
    let located = [WAYLAND, SetupEvent::NoticeShown(true), SetupEvent::DaemonLocated(true)];
    let mut e = located.to_vec();
    e.push(SetupEvent::DaemonLaunched(false));
    assert_eq!(run(&e), WaylandSetup::Fallback(FallbackReason::ElevationNotStarted));
    let mut e = located.to_vec();
    e.extend([SetupEvent::DaemonLaunched(true), SetupEvent::ElevationEnded(Some(false))]);
    assert_eq!(run(&e), WaylandSetup::Fallback(FallbackReason::ElevationDeclined));
    assert!(!run(&e).holds_daemon());
    let mut e = located.to_vec();
    e.extend([
        SetupEvent::DaemonLaunched(true),
        SetupEvent::ElevationEnded(None),
        SetupEvent::ListenerStarted(false),
    ]);
    assert_eq!(run(&e), WaylandSetup::Fallback(FallbackReason::ListenerFailed));
    assert!(run(&e).holds_daemon());
}

#[test]
fn a_declined_request_is_not_asked_again() {
    let declined = WaylandSetup::Fallback(FallbackReason::ElevationDeclined);
    for event in [
        WAYLAND,
        SetupEvent::NoticeShown(true),
        SetupEvent::DaemonLocated(true),
        SetupEvent::DaemonLaunched(true),
        SetupEvent::ElevationEnded(Some(true)),
        SetupEvent::ListenerStarted(true),
    ] {
        assert_eq!(declined.advance(event), declined);
        assert_eq!(WaylandSetup::Native.advance(event), WaylandSetup::Native);
    }
}

#[test]
fn events_out_of_turn_change_nothing() {
    assert_eq!(
        WaylandSetup::ReadHandles.advance(SetupEvent::ListenerStarted(true)),
        WaylandSetup::ReadHandles
    );
    assert_eq!(
        WaylandSetup::LocateDaemon.advance(SetupEvent::ElevationEnded(Some(true))),
        WaylandSetup::LocateDaemon
    );
}

#[test]
fn only_a_finished_setup_gives_the_wayland_backend() {
    assert!(NativeViewportManagerWayland::try_new(WaylandSetup::Native).is_some());
    assert!(NativeViewportManagerWayland::try_new(WaylandSetup::StartListener).is_none());
    assert!(NativeViewportManagerWayland::try_new(WaylandSetup::ReadHandles).is_none());
    assert!(NativeViewportManagerWayland::try_new(WaylandSetup::Fallback(
        FallbackReason::ElevationDeclined
    ))
    .is_none());
}

#[test]
fn wayland_backend_hides_the_gui_while_hidden_and_unmaximises() {
    let mut m = NativeViewportManagerWayland::try_new(WaylandSetup::Native).unwrap();
    assert_eq!(m.current_focus_state(), FocusState::Focused);
    assert!(m.should_draw_gui());
    assert_eq!(m.window_background_color(), BackgroundColor::Transparent);
    let c = m.update_viewport(&FrameInput {
        pending: vec![FocusState::Unfocused, FocusState::Hidden],
        now_millis: 1,
        window_maximized: true,
    });
    assert_eq!(c, Some(ViewportCommand::Unmaximize));
    assert_eq!(m.current_focus_state(), FocusState::Hidden);
    assert!(!m.should_draw_gui());
    let c = m.update_viewport(&FrameInput {
        pending: vec![FocusState::Unfocused],
        now_millis: 2,
        window_maximized: false,
    });
    assert_eq!(c, None);
    assert!(m.should_draw_gui());
}

#[test]
fn the_key_reader_is_ended_once_at_teardown() {
    let mut m = NativeViewportManagerWayland::try_new(WaylandSetup::Native).unwrap();
    assert!(m.shutdown());
    assert!(!m.shutdown());
    assert_eq!(m.current_focus_state(), FocusState::Focused);
}
