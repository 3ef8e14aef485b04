use pokemmo_companion::focus::FocusState;
use pokemmo_companion::viewport::{
    choose_backend, clear_color, plan_frame, BackendChoice, BackendKind, BackgroundColor,
    DefaultViewportManager, FrameInput, FramePlan, Platform, SessionProbe, ViewportCommand,
    ViewportManager,
};

#[test]
fn default_backend_stays_focused_and_opaque() {
    let mut m = DefaultViewportManager::default();
    assert_eq!(m.current_focus_state(), FocusState::Focused);
    assert_eq!(m.window_background_color(), BackgroundColor::Opaque);
    assert!(m.should_draw_gui());
    let frame = FrameInput {
        pending: vec![FocusState::Hidden, FocusState::Unfocused],
        now_millis: 0,
        window_maximized: true,
    };
    assert_eq!(m.update_viewport(&frame), Some(ViewportCommand::ShowDecorations));
    assert_eq!(m.update_viewport(&frame), None);
    assert_eq!(m.update_viewport(&frame), None);
    assert_eq!(m.current_focus_state(), FocusState::Focused);
}

fn probe(platform: Platform, wayland_display: Option<&str>) -> SessionProbe {
    SessionProbe {
        platform,
        has_window: true,
        overlay_disabled: false,
        wayland_display: wayland_display.map(|s| s.to_string()),
        window_handle_ok: true,
        display_handle_ok: true,
    }
}

#[test]
fn backend_by_platform_and_session() {
    assert_eq!(
        choose_backend(&probe(Platform::Windows, None)),
        BackendChoice::Construct(BackendKind::Win32)
    );
    assert_eq!(
        choose_backend(&probe(Platform::Unix, Some("wayland-0"))),
        BackendChoice::Construct(BackendKind::Wayland)
    );
    assert_eq!(
        choose_backend(&probe(Platform::Unix, None)),
        BackendChoice::Construct(BackendKind::X11)
    );
    assert_eq!(
        choose_backend(&probe(Platform::Unix, Some(""))),
        BackendChoice::Construct(BackendKind::X11)
    );
    assert_eq!(
        choose_backend(&probe(Platform::Unix, Some("WAYLAND-0"))),
        BackendChoice::Construct(BackendKind::X11)
    );
    // the variable is not looked at on Windows
    assert_eq!(
        choose_backend(&probe(Platform::Windows, Some("wayland-0"))),
        BackendChoice::Construct(BackendKind::Win32)
    );
}

#[test]
fn no_window_or_a_disabled_overlay_mean_the_default_backend() {
    for platform in [Platform::Windows, Platform::Unix] {
        let mut p = probe(platform, Some("wayland-0"));
        p.has_window = false;
        assert_eq!(choose_backend(&p), BackendChoice::Construct(BackendKind::Default));
        let mut p = probe(platform, Some("wayland-0"));
        p.overlay_disabled = true;
        assert_eq!(choose_backend(&p), BackendChoice::Construct(BackendKind::Default));
    }
}

#[test]
fn missing_handles_never_give_a_native_backend() {
    let mut p = probe(Platform::Windows, None);
    p.window_handle_ok = false;
    assert_eq!(choose_backend(&p), BackendChoice::Keep);
    let mut p = probe(Platform::Unix, None);
    p.window_handle_ok = false;
    assert_eq!(choose_backend(&p), BackendChoice::Construct(BackendKind::Default));
    let mut p = probe(Platform::Unix, Some("wayland-1"));
    p.display_handle_ok = false;
    assert_eq!(choose_backend(&p), BackendChoice::Construct(BackendKind::Default));
    let mut p = probe(Platform::Unix, Some("wayland-1"));
    p.window_handle_ok = false;
    assert_eq!(choose_backend(&p), BackendChoice::Construct(BackendKind::Default));
    // on X11 the display handle is not needed
    let mut p = probe(Platform::Unix, None);
    p.display_handle_ok = false;
    assert_eq!(choose_backend(&p), BackendChoice::Construct(BackendKind::X11));
}

#[test]
fn frame_plans() {
    assert_eq!(
        plan_frame(false, false, false, FocusState::Focused, true),
        FramePlan { restart_backend: false, clear_ui_data: false, handle_feature_input: true, draw_gui: true }
    );
    assert_eq!(
        plan_frame(true, true, false, FocusState::Unfocused, true),
        FramePlan { restart_backend: true, clear_ui_data: true, handle_feature_input: false, draw_gui: true }
    );
    assert_eq!(
        plan_frame(false, false, true, FocusState::Hidden, false),
        FramePlan { restart_backend: false, clear_ui_data: true, handle_feature_input: false, draw_gui: false }
    );
}

#[test]
fn clear_colour_follows_setting_then_backend() {
    assert_eq!(clear_color(true, BackgroundColor::Opaque), BackgroundColor::Transparent);
    assert_eq!(clear_color(false, BackgroundColor::Opaque), BackgroundColor::Opaque);
    assert_eq!(clear_color(false, BackgroundColor::Transparent), BackgroundColor::Transparent);
}
