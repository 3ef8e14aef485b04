use pokemmo_companion::focus::FocusState;
use pokemmo_companion::hotkey::HotkeyEvent;
use pokemmo_companion::viewport::{
    BackgroundColor, FrameInput, ViewportManager, WindowHandleKind,
};
use pokemmo_companion::x11::{
    grab_outcome, is_x11_window, keycode_count, lock_masks, HotkeyKeycodes, KeyGrab,
    KeyboardMapping,
    NativeViewportManagerX11, X11SetupError, KEYSYM_C, KEYSYM_F, KEYSYM_V, MOD_ALT,
    MOD_CAPS_LOCK, MOD_NUM_LOCK,
};

// a small keyboard: key codes from 8, two symbols per key code
fn mapping() -> KeyboardMapping {
    let keysyms = vec![
        0x61, 0x41, // 8: a A
        0x63, 0x43, // 9: c C
        0x66, 0x46, // 10: f F
        0x00, 0x00, // 11
        0x76, 0x56, // 12: v V
        0x66, 0x46, // 13: f F again
    ];
    KeyboardMapping::new(8, 2, keysyms).expect("a mapping that fits")
}

#[test]
fn constants_are_those_of_the_protocol() {
    assert_eq!((KEYSYM_F, KEYSYM_C, KEYSYM_V), (0x66, 0x63, 0x76));
    assert_eq!((MOD_ALT, MOD_CAPS_LOCK, MOD_NUM_LOCK), (8, 2, 16));
    assert_eq!(lock_masks(), [0, 2, 16, 18]);
}

#[test]
fn keycode_of_the_first_key_that_carries_the_symbol() {
    let m = mapping();
    assert_eq!(m.keysym_to_keycode(0x66), Ok(10));
    assert_eq!(m.keysym_to_keycode(0x46), Ok(10));
    assert_eq!(m.keysym_to_keycode(0x63), Ok(9));
    assert_eq!(m.keysym_to_keycode(0x76), Ok(12));
    assert_eq!(m.keysym_to_keycode(0x61), Ok(8));
    assert_eq!(m.keysym_to_keycode(0x7a), Err(X11SetupError::NoKeycode(0x7a)));
}

#[test]
fn a_last_row_that_is_not_full_still_counts() {
    let m = KeyboardMapping::new(8, 4, vec![1, 2, 3, 4, 5, 6]).unwrap();
    assert_eq!(m.keysym_to_keycode(4), Ok(8));
    assert_eq!(m.keysym_to_keycode(5), Ok(9));
    assert_eq!(m.keysym_to_keycode(6), Ok(9));
}

#[test]
fn malformed_mappings_are_refused() {
    assert_eq!(KeyboardMapping::new(8, 0, vec![1, 2]).err(), Some(X11SetupError::MalformedMapping));
    assert_eq!(KeyboardMapping::new(8, 0, vec![]).err(), Some(X11SetupError::MalformedMapping));
    // 249 rows from key code 8 would end at 256
    assert_eq!(
        KeyboardMapping::new(8, 1, vec![0; 249]).err(),
        Some(X11SetupError::MalformedMapping)
    );
    assert!(KeyboardMapping::new(8, 1, vec![0; 248]).is_ok());
    assert!(KeyboardMapping::new(255, 7, vec![]).is_ok());
    let last = KeyboardMapping::new(8, 1, {
        let mut v = vec![0; 248];
        v[247] = 0x66;
        v
    })
    .unwrap();
    assert_eq!(last.keysym_to_keycode(0x66), Ok(255));
}

#[test]
fn keycode_counts() {
    assert_eq!(keycode_count(8, 255), Some(248));
    assert_eq!(keycode_count(8, 8), Some(1));
    assert_eq!(keycode_count(1, 255), Some(255));
    assert_eq!(keycode_count(0, 255), None);
    assert_eq!(keycode_count(9, 8), None);
}

#[test]
fn f_c_v_on_a_keyboard_that_has_them_give_three_distinct_keycodes() {
    let keys = HotkeyKeycodes::resolve(&mapping()).expect("f, c and v are on the keyboard");
    assert_eq!(keys, HotkeyKeycodes { focus: 10, close: 9, visible: 12 });
    assert!(keys.focus != keys.close && keys.focus != keys.visible && keys.close != keys.visible);
}

#[test]
fn a_missing_symbol_is_named() {
    let no_c = KeyboardMapping::new(8, 1, vec![0x66, 0x76]).unwrap();
    assert_eq!(HotkeyKeycodes::resolve(&no_c), Err(X11SetupError::NoKeycode(0x63)));
    let none = KeyboardMapping::new(8, 1, vec![]).unwrap();
    assert_eq!(HotkeyKeycodes::resolve(&none), Err(X11SetupError::NoKeycode(0x66)));
    let no_v = KeyboardMapping::new(8, 1, vec![0x66, 0x63]).unwrap();
    assert_eq!(HotkeyKeycodes::resolve(&no_v), Err(X11SetupError::NoKeycode(0x76)));
}

#[test]
fn twelve_grabs_four_lock_states_per_key() {
    let keys = HotkeyKeycodes { focus: 41, close: 54, visible: 55 };
    let plan = keys.grab_plan();
    assert_eq!(plan.len(), 12);
    let expected: Vec<KeyGrab> = [41u8, 54, 55]
        .iter()
        .flat_map(|kc| {
            [8u16, 10, 24, 26].iter().map(move |m| KeyGrab { keycode: *kc, modifiers: *m })
        })
        .collect();
    assert_eq!(plan, expected);
    for kc in [41u8, 54, 55] {
        assert_eq!(plan.iter().filter(|g| g.keycode == kc).count(), 4);
    }
}

#[test]
fn one_refused_grab_fails_the_setup() {
    let plan = HotkeyKeycodes { focus: 41, close: 54, visible: 55 }.grab_plan();
    assert_eq!(grab_outcome(&plan, &vec![true; 12]), Ok(()));
    let mut granted = vec![true; 12];
    granted[5] = false;
    granted[9] = false;
    assert_eq!(
        grab_outcome(&plan, &granted),
        Err(X11SetupError::GrabRefused(KeyGrab { keycode: 54, modifiers: 10 }))
    );
    assert_eq!(
        grab_outcome(&plan, &vec![true; 3]),
        Err(X11SetupError::GrabRefused(KeyGrab { keycode: 41, modifiers: 26 }))
    );
    assert_eq!(grab_outcome(&vec![], &vec![]), Ok(()));
}

#[test]
fn key_presses_stand_for_their_hotkeys() {
    let keys = HotkeyKeycodes { focus: 41, close: 54, visible: 55 };
    assert_eq!(keys.hotkey_for(41), Some(HotkeyEvent::Focus));
    assert_eq!(keys.hotkey_for(54), Some(HotkeyEvent::Close));
    assert_eq!(keys.hotkey_for(55), Some(HotkeyEvent::Visible));
    assert_eq!(keys.hotkey_for(56), None);
    let same = HotkeyKeycodes { focus: 41, close: 41, visible: 41 };
    assert_eq!(same.hotkey_for(41), Some(HotkeyEvent::Focus));
}

fn frame(pending: Vec<FocusState>) -> FrameInput {
    FrameInput { pending, now_millis: 0, window_maximized: true }
}

#[test]
fn x11_backend_needs_an_xlib_window_and_a_listener() {
    assert_eq!(
        NativeViewportManagerX11::new(WindowHandleKind::Wayland, Ok(())).err(),
        Some(X11SetupError::NotAnX11Window)
    );
    assert_eq!(
        NativeViewportManagerX11::new(WindowHandleKind::Xcb, Ok(())).err(),
        Some(X11SetupError::NotAnX11Window)
    );
    assert_eq!(
        NativeViewportManagerX11::new(WindowHandleKind::Xlib, Err(X11SetupError::ConnectionFailed)).err(),
        Some(X11SetupError::ConnectionFailed)
    );
    assert_eq!(
        NativeViewportManagerX11::new(WindowHandleKind::Win32, Err(X11SetupError::ConnectionFailed)).err(),
        Some(X11SetupError::NotAnX11Window)
    );
    assert!(NativeViewportManagerX11::new(WindowHandleKind::Xlib, Ok(())).is_ok());
}

#[test]
fn only_an_xlib_window_is_served() {
    assert!(is_x11_window(WindowHandleKind::Xlib));
    assert!(!is_x11_window(WindowHandleKind::Xcb));
    assert!(!is_x11_window(WindowHandleKind::Wayland));
    assert!(!is_x11_window(WindowHandleKind::Win32));
    assert!(!is_x11_window(WindowHandleKind::Other));
}

#[test]
fn x11_backend_reports_the_newest_state() {
    let mut m = NativeViewportManagerX11::new(WindowHandleKind::Xlib, Ok(())).unwrap();
    assert_eq!(m.current_focus_state(), FocusState::Focused);
    assert_eq!(m.window_background_color(), BackgroundColor::Transparent);
    assert!(m.should_draw_gui());
    let command = m.update_viewport(&frame(vec![
        FocusState::Focused,
        FocusState::Unfocused,
        FocusState::Hidden,
    ]));
    assert_eq!(command, None);
    assert_eq!(m.current_focus_state(), FocusState::Hidden);
    assert!(m.should_draw_gui());
    m.update_viewport(&frame(vec![]));
    assert_eq!(m.current_focus_state(), FocusState::Hidden);
}
