use pokemmo_companion::focus::FocusState;
use pokemmo_companion::viewport::{
    BackgroundColor, FrameInput, ViewportCommand, ViewportManager, WindowHandleKind,
};
use pokemmo_companion::win32::{
    convert_cyrillic_string, find_target_window, hotkey_registrations, is_target_title,
    is_target_title_lowered, with_click_through, without_click_through, FollowStep,
    NativeViewportManagerWin32, Win32Listener, WindowOp, WindowSnapshot, WorkArea,
    RECHECK_INTERVAL_MILLIS, WM_HOTKEY, WS_EX_LAYERED, WS_EX_TRANSPARENT,
};

#[test]
fn three_hotkeys_with_alt() {
    let r = hotkey_registrations();
    assert_eq!(r.len(), 3);
    assert_eq!((r[0].id, r[0].modifiers, r[0].virtual_key), (1, 1, 0x46));
    assert_eq!((r[1].id, r[1].modifiers, r[1].virtual_key), (2, 1, 0x43));
    assert_eq!((r[2].id, r[2].modifiers, r[2].virtual_key), (3, 1, 0x56));
}

#[test]
fn focus_hotkey_shows_the_overlay_and_takes_input() {
    let l = Win32Listener::new(700, Some(900));
    let r = l.on_message(WM_HOTKEY, 1).expect("a hotkey");
    assert_eq!(r.state, FocusState::Focused);
    assert_eq!(r.ops, vec![WindowOp::ShowMaximized(700), WindowOp::DisableClickThrough(700)]);
}

#[test]
fn close_hotkey_hides_the_overlay() {
    let l = Win32Listener::new(700, Some(900));
    let r = l.on_message(WM_HOTKEY, 2).expect("a hotkey");
    assert_eq!(r.state, FocusState::Hidden);
    assert_eq!(r.ops, vec![WindowOp::Hide(700)]);
}

#[test]
fn visible_hotkey_lets_input_through_and_shows_the_game() {
    let l = Win32Listener::new(700, Some(900));
    let r = l.on_message(WM_HOTKEY, 3).expect("a hotkey");
    assert_eq!(r.state, FocusState::Unfocused);
    assert_eq!(
        r.ops,
        vec![
            WindowOp::ShowMaximized(700),
            WindowOp::EnableClickThrough(700),
            WindowOp::Show(900)
        ]
    );
    let alone = Win32Listener::new(700, None);
    let r = alone.on_message(WM_HOTKEY, 3).expect("a hotkey");
    assert_eq!(r.ops, vec![WindowOp::ShowMaximized(700), WindowOp::EnableClickThrough(700)]);
}

#[test]
fn other_messages_and_ids_do_nothing() {
    let l = Win32Listener::new(700, Some(900));
    assert!(l.on_message(WM_HOTKEY, 0).is_none());
    assert!(l.on_message(WM_HOTKEY, 4).is_none());
    assert!(l.on_message(0x0100, 1).is_none());
}

#[test]
fn listener_takes_the_newest_target() {
    let mut l = Win32Listener::new(700, Some(900));
    l.on_target_updates(&vec![]);
    assert_eq!(l.on_message(WM_HOTKEY, 3).unwrap().ops.len(), 3);
    l.on_target_updates(&vec![Some(5), None]);
    assert_eq!(l.on_message(WM_HOTKEY, 3).unwrap().ops.len(), 2);
    l.on_target_updates(&vec![None, Some(42)]);
    assert_eq!(l.on_message(WM_HOTKEY, 3).unwrap().ops[2], WindowOp::Show(42));
}

#[test]
fn click_through_sets_and_clears_its_bits() {
    assert_eq!(WS_EX_LAYERED, 0x80000);
    assert_eq!(WS_EX_TRANSPARENT, 0x20);
    assert_eq!(with_click_through(0), 0x80020);
    assert_eq!(with_click_through(0x100), 0x80120);
    assert_eq!(with_click_through(0x80020), 0x80020);
    assert_eq!(without_click_through(0x80020), 0x80000);
    assert_eq!(without_click_through(0x100), 0x100);
    assert_eq!(without_click_through(with_click_through(0x8)), 0x80008);
    // the sign bit is a style bit like the others
    assert_eq!(with_click_through(i32::MIN), i32::MIN | 0x80020);
    assert_eq!(without_click_through(-1), -1 & !0x20);
}

#[test]
fn cyrillic_look_alikes_become_latin() {
    assert_eq!(convert_cyrillic_string("\u{440}\u{43e}\u{43a}\u{435}\u{43c}\u{43c}\u{43e}"), "pokemmo");
    assert_eq!(convert_cyrillic_string("p\u{43e}kemm\u{43e}"), "pokemmo");
    assert_eq!(convert_cyrillic_string("\u{420}\u{41e}\u{41a}\u{415}\u{41c}\u{41c}\u{41e}"), "POKEMMO");
    assert_eq!(convert_cyrillic_string("plain text 123"), "plain text 123");
    assert_eq!(convert_cyrillic_string("\u{436}"), "\u{436}");
    assert_eq!(convert_cyrillic_string(""), "");
}

#[test]
fn the_games_title_is_matched_whole_and_without_case() {
    assert!(is_target_title("PokeMMO"));
    assert!(is_target_title("pokemmo"));
    assert!(is_target_title("POKEMMO"));
    assert!(is_target_title("\u{420}\u{43e}k\u{435}MM\u{41e}"));
    assert!(!is_target_title("PokeMMO Companion"));
    assert!(!is_target_title("pokemmo-companion"));
    assert!(!is_target_title(" pokemmo"));
    assert!(!is_target_title(""));
    assert!(is_target_title_lowered("pokemmo"));
    assert!(is_target_title_lowered("PoKeMmO"));
    assert!(!is_target_title_lowered("pokemm"));
}

fn window(handle: isize, visible: bool, title: &str) -> WindowSnapshot {
    WindowSnapshot { handle, visible, title: title.to_string() }
}

#[test]
fn the_first_visible_window_with_the_title_is_taken() {
    let windows = vec![
        window(1, true, "Explorer"),
        window(2, false, "PokeMMO"),
        window(3, true, ""),
        window(4, true, "pokemmo-companion"),
        window(5, true, "\u{420}okeMMO"),
        window(6, true, "PokeMMO"),
    ];
    assert_eq!(find_target_window(&windows), Some(5));
    assert_eq!(find_target_window(&windows[..4].to_vec()), None);
    assert_eq!(find_target_window(&vec![]), None);
}

fn frame(pending: Vec<FocusState>, now_millis: u64) -> FrameInput {
    FrameInput { pending, now_millis, window_maximized: false }
}

#[test]
fn without_a_win32_handle_the_backend_stays_focused() {
    let mut m = NativeViewportManagerWin32::new(WindowHandleKind::Xlib, 700, Some(900), 0);
    assert!(m.listener().is_none());
    assert_eq!(m.current_focus_state(), FocusState::Focused);
    m.update_viewport(&frame(vec![FocusState::Hidden], 10));
    assert_eq!(m.current_focus_state(), FocusState::Focused);
    assert_eq!(m.window_background_color(), BackgroundColor::Transparent);
    assert!(m.should_draw_gui());
    // no target is kept either
    assert_eq!(m.on_target_checked(true), FollowStep::ScanWindows);
}

#[test]
fn win32_backend_reports_the_newest_state() {
    let mut m = NativeViewportManagerWin32::new(WindowHandleKind::Win32, 700, Some(900), 0);
    assert!(m.listener().is_some());
    let c = m.update_viewport(&frame(vec![FocusState::Unfocused, FocusState::Hidden], 5));
    assert_eq!(c, None);
    assert_eq!(m.current_focus_state(), FocusState::Hidden);
    assert!(m.should_draw_gui());
}

#[test]
fn the_games_window_is_looked_at_once_per_interval() {
    assert_eq!(RECHECK_INTERVAL_MILLIS, 1000);
    let mut m = NativeViewportManagerWin32::new(WindowHandleKind::Win32, 700, Some(900), 100);
    assert_eq!(m.update_viewport(&frame(vec![], 1099)), None);
    assert_eq!(
        m.update_viewport(&frame(vec![], 1100)),
        Some(ViewportCommand::CheckTargetWindow(Some(900)))
    );
    assert_eq!(m.update_viewport(&frame(vec![], 1101)), None);
    assert_eq!(m.update_viewport(&frame(vec![], 2099)), None);
    assert_eq!(
        m.update_viewport(&frame(vec![], 5000)),
        Some(ViewportCommand::CheckTargetWindow(Some(900)))
    );
    // a clock that ran backwards is no reason to look
    assert_eq!(m.update_viewport(&frame(vec![], 0)), None);
}

#[test]
fn an_alive_target_has_its_monitor_compared() {
    let m = NativeViewportManagerWin32::new(WindowHandleKind::Win32, 700, Some(900), 0);
    assert_eq!(
        m.on_target_checked(true),
        FollowStep::CompareMonitors { target: 900, overlay: 700 }
    );
    assert_eq!(m.on_target_checked(false), FollowStep::ScanWindows);
    let none = NativeViewportManagerWin32::new(WindowHandleKind::Win32, 700, None, 0);
    assert_eq!(none.on_target_checked(true), FollowStep::ScanWindows);
}

#[test]
fn the_overlay_moves_once_per_change_of_monitor() {
    let m = NativeViewportManagerWin32::new(WindowHandleKind::Win32, 700, Some(900), 0);
    let (monitor_a, monitor_b) = (11isize, 22isize);
    // the game went from A to B; the overlay is still on A
    let mut overlay_monitor = monitor_a;
    let mut moves = 0;
    for _look in 0..5 {
        if let Some(to) = m.on_monitors(monitor_b, overlay_monitor) {
            moves += 1;
            overlay_monitor = to;
        }
    }
    assert_eq!(moves, 1);
    assert_eq!(overlay_monitor, monitor_b);
    assert_eq!(m.on_monitors(monitor_a, monitor_a), None);
    assert_eq!(m.on_monitors(monitor_a, monitor_b), Some(monitor_a));
}

#[test]
fn a_scan_result_is_published_only_when_it_differs() {
    let mut m = NativeViewportManagerWin32::new(WindowHandleKind::Win32, 700, Some(900), 0);
    assert_eq!(m.on_scan(Some(900)), None);
    assert_eq!(m.on_scan(Some(901)), Some(Some(901)));
    assert_eq!(m.on_target_checked(true), FollowStep::CompareMonitors { target: 901, overlay: 700 });
    // a scan that finds nothing is kept, and nothing is sent
    assert_eq!(m.on_scan(None), None);
    assert_eq!(m.on_scan(None), None);
    assert_eq!(m.on_target_checked(true), FollowStep::ScanWindows);
    // the window that comes back is new to the listener
    assert_eq!(m.on_scan(Some(901)), Some(Some(901)));
}

#[test]
fn repositioning_restores_moves_and_maximises() {
    let m = NativeViewportManagerWin32::new(WindowHandleKind::Win32, 700, Some(900), 0);
    let ops = m.reposition_ops(WorkArea { left: 1920, top: 0, right: 3840, bottom: 1040 });
    assert_eq!(
        ops,
        vec![
            WindowOp::Restore(700),
            WindowOp::MoveTo { window: 700, x: 1920, y: 0, width: 1920, height: 1040 },
            WindowOp::Maximize(700)
        ]
    );
    let left = m.reposition_ops(WorkArea { left: -1280, top: -20, right: 0, bottom: 1004 });
    assert_eq!(left[1], WindowOp::MoveTo { window: 700, x: -1280, y: -20, width: 1280, height: 1024 });
}
