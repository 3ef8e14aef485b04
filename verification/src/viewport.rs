//! What every backend of the overlay offers to the host application, the
//! backend that does nothing, and the choice of a backend at start-up.

use crate::focus::{latest_focus, FocusState};
use crate::text::{contains_text, contains_text_spec};
use vstd::prelude::*;

verus! {

/// The colour behind the panels.
#[derive(PartialEq, Eq, Structural, Hash, Debug, Clone, Copy)]
pub enum BackgroundColor {
    /// Fully transparent: what lies under the overlay shows through.
    Transparent,
    /// The opaque colour of an ordinary window.
    Opaque,
}

/// What kind of native window a window handle refers to.
#[derive(PartialEq, Eq, Structural, Hash, Debug, Clone, Copy)]
pub enum WindowHandleKind {
    Win32,
    Xlib,
    Xcb,
    Wayland,
    Other,
}

/// What kind of display server a display handle refers to.
#[derive(PartialEq, Eq, Structural, Hash, Debug, Clone, Copy)]
pub enum DisplayHandleKind {
    Windows,
    Xlib,
    Xcb,
    Wayland,
    Other,
}

/// What the host knows at the start of a frame.
#[derive(Debug, Clone)]
pub struct FrameInput {
    /// The focus states that the listener produced since the last frame,
    /// oldest first, taken from its queue without waiting.
    pub pending: Vec<FocusState>,
    /// The time of this frame on a clock that never runs backwards, in
    /// milliseconds.
    pub now_millis: u64,
    /// Whether the window is maximised at the moment.
    pub window_maximized: bool,
}

/// Something the host is to do to the window on behalf of the backend.
#[derive(PartialEq, Eq, Structural, Hash, Debug, Clone, Copy)]
pub enum ViewportCommand {
    /// Give the window its title bar and borders.
    ShowDecorations,
    /// Take the window out of its maximised state.
    Unmaximize,
    /// Find out whether the window with this handle still exists, and hand
    /// the answer to the backend.
    CheckTargetWindow(Option<isize>),
}

/// The capabilities of a backend. The host owns one backend at a time and
/// calls `update_viewport` once per frame.
pub trait ViewportManager {
    /// The focus state that the backend reports.
    spec fn focus(&self) -> FocusState;

    /// Whether a listener feeds this backend with focus states.
    spec fn listening(&self) -> bool;

    /// Whether the host is to draw the panels in this state.
    spec fn draws_gui(&self) -> bool;

    /// The colour behind the panels.
    spec fn background(&self) -> BackgroundColor;

    /// Advances the backend by one frame. It never waits: it takes over what
    /// the listener has produced, keeps the newest state, and may ask the
    /// host for one thing.
    fn update_viewport(&mut self, frame: &FrameInput) -> (command: Option<ViewportCommand>)
        ensures
            final(self).listening() == old(self).listening(),
            final(self).focus() == (if old(self).listening() {
                latest_focus(old(self).focus(), frame.pending@)
            } else {
                old(self).focus()
            }),
    ;

    fn current_focus_state(&self) -> (state: FocusState)
        ensures
            state == self.focus(),
    ;

    fn window_background_color(&self) -> (color: BackgroundColor)
        ensures
            color == self.background(),
    ;

    fn should_draw_gui(&self) -> (draw: bool)
        ensures
            draw == self.draws_gui(),
    ;
}

/// The backend that manages nothing: the window is an ordinary one, stays
/// focused for ever and has an opaque background.
#[derive(Debug, Clone, Copy)]
pub struct DefaultViewportManager {
    initialized: bool,
}

impl DefaultViewportManager {
    /// Whether the window was already asked to show its decorations.
    pub closed spec fn initialized(&self) -> bool {
        self.initialized
    }
}

impl Default for DefaultViewportManager {
    fn default() -> (manager: Self)
        ensures
            !manager.initialized(),
    {
        DefaultViewportManager { initialized: false }
    }
}

impl ViewportManager for DefaultViewportManager {
    open spec fn focus(&self) -> FocusState {
        FocusState::Focused
    }

    open spec fn listening(&self) -> bool {
        false
    }

    open spec fn draws_gui(&self) -> bool {
        true
    }

    open spec fn background(&self) -> BackgroundColor {
        BackgroundColor::Opaque
    }

    /// Asks for the decorations once, at the first frame, so that the user
    /// can move and resize the window; nothing after that.
    fn update_viewport(&mut self, frame: &FrameInput) -> (command: Option<ViewportCommand>)
        ensures
            final(self).initialized(),
            command == (if old(self).initialized() {
                None
            } else {
                Some(ViewportCommand::ShowDecorations)
            }),
    {
        if !self.initialized {
            self.initialized = true;
            Some(ViewportCommand::ShowDecorations)
        } else {
            None
        }
    }

    fn current_focus_state(&self) -> (state: FocusState) {
        FocusState::Focused
    }

    fn window_background_color(&self) -> (color: BackgroundColor) {
        BackgroundColor::Opaque
    }

    fn should_draw_gui(&self) -> (draw: bool) {
        true
    }
}

// ---------------------------------------------------------------------------
// Which backend
// ---------------------------------------------------------------------------

/// The family of the operating system the application was built for.
#[derive(PartialEq, Eq, Structural, Hash, Debug, Clone, Copy)]
pub enum Platform {
    Windows,
    Unix,
}

/// The backends there are.
#[derive(PartialEq, Eq, Structural, Hash, Debug, Clone, Copy)]
pub enum BackendKind {
    Default,
    Win32,
    X11,
    Wayland,
}

/// What to do with the backend at (re)start.
#[derive(PartialEq, Eq, Structural, Hash, Debug, Clone, Copy)]
pub enum BackendChoice {
    /// Tear the present backend down and construct one of this kind. A
    /// native backend may still fall back to the default one while it is
    /// constructed.
    Construct(BackendKind),
    /// Leave the present backend in place.
    Keep,
}

/// What start-up found out about the window and the session.
#[derive(Debug, Clone)]
pub struct SessionProbe {
    pub platform: Platform,
    /// Whether the native window is there at all.
    pub has_window: bool,
    /// Whether the user switched the overlay off in the settings.
    pub overlay_disabled: bool,
    /// The value of `WAYLAND_DISPLAY`, where it is set and readable.
    pub wayland_display: Option<String>,
    /// Whether the window gave out its native window handle.
    pub window_handle_ok: bool,
    /// Whether the window gave out its native display handle.
    pub display_handle_ok: bool,
}

/// The word that tells a Wayland session by the value of `WAYLAND_DISPLAY`.
pub const WAYLAND_MARKER: &'static str = "wayland";

pub open spec fn is_wayland_session(probe: SessionProbe) -> bool {
    probe.wayland_display matches Some(value) && contains_text_spec(value@, WAYLAND_MARKER@)
}

pub open spec fn choose_backend_spec(probe: SessionProbe) -> BackendChoice {
    if !probe.has_window || probe.overlay_disabled {
        BackendChoice::Construct(BackendKind::Default)
    } else {
        match probe.platform {
            Platform::Windows => if probe.window_handle_ok {
                BackendChoice::Construct(BackendKind::Win32)
            } else {
                BackendChoice::Keep
            },
            Platform::Unix => if is_wayland_session(probe) {
                if probe.window_handle_ok && probe.display_handle_ok {
                    BackendChoice::Construct(BackendKind::Wayland)
                } else {
                    BackendChoice::Construct(BackendKind::Default)
                }
            } else if probe.window_handle_ok {
                BackendChoice::Construct(BackendKind::X11)
            } else {
                BackendChoice::Construct(BackendKind::Default)
            },
        }
    }
}

/// Chooses the backend once, from what start-up found out. Without a window,
/// or with the overlay switched off, it is the default backend; else the
/// platform's own, and on Unix the one of the session's display server.
pub fn choose_backend(probe: &SessionProbe) -> (choice: BackendChoice)
    ensures
        choice == choose_backend_spec(*probe),
{
    if !probe.has_window || probe.overlay_disabled {
        return BackendChoice::Construct(BackendKind::Default);
    }
    match probe.platform {
        Platform::Windows => {
            if probe.window_handle_ok {
                BackendChoice::Construct(BackendKind::Win32)
            } else {
                BackendChoice::Keep
            }
        },
        Platform::Unix => {
            let wayland = match &probe.wayland_display {
                Some(value) => contains_text(value.as_str(), WAYLAND_MARKER),
                None => false,
            };
            if wayland {
                if probe.window_handle_ok && probe.display_handle_ok {
                    BackendChoice::Construct(BackendKind::Wayland)
                } else {
                    BackendChoice::Construct(BackendKind::Default)
                }
            } else if probe.window_handle_ok {
                BackendChoice::Construct(BackendKind::X11)
            } else {
                BackendChoice::Construct(BackendKind::Default)
            }
        },
    }
}

/// No native backend is ever chosen without a window and its handle, nor
/// against the user's setting; and a failure to find one is never fatal: it
/// ends in the default backend or leaves the present one.
pub proof fn lemma_native_backend_needs_window(probe: SessionProbe, kind: BackendKind)
    requires
        choose_backend_spec(probe) == BackendChoice::Construct(kind),
        kind != BackendKind::Default,
    ensures
        probe.has_window,
        !probe.overlay_disabled,
        probe.window_handle_ok,
        kind == BackendKind::Win32 <==> probe.platform == Platform::Windows,
        kind == BackendKind::Wayland ==> is_wayland_session(probe) && probe.display_handle_ok,
        kind == BackendKind::X11 ==> !is_wayland_session(probe),
{
}

// ---------------------------------------------------------------------------
// One frame of the host
// ---------------------------------------------------------------------------

/// What the host does in one frame, in this order.
#[derive(PartialEq, Eq, Structural, Hash, Debug, Clone, Copy)]
pub struct FramePlan {
    /// Construct the backend anew instead of updating it.
    pub restart_backend: bool,
    /// Forget window positions and cached interface data.
    pub clear_ui_data: bool,
    /// Let the feature shortcuts act on the keyboard input.
    pub handle_feature_input: bool,
    /// Draw the panels.
    pub draw_gui: bool,
}

/// Plans one frame from the requests that are pending and from what the
/// backend reports after its update.
pub fn plan_frame(
    restart_requested: bool,
    clear_requested: bool,
    reset_shortcut_pressed: bool,
    focus: FocusState,
    should_draw_gui: bool,
) -> (plan: FramePlan)
    ensures
        plan.restart_backend == restart_requested,
        plan.clear_ui_data == (clear_requested || reset_shortcut_pressed),
        plan.handle_feature_input == focus.is_focused(),
        plan.draw_gui == should_draw_gui,
{
    FramePlan {
        restart_backend: restart_requested,
        clear_ui_data: reset_shortcut_pressed || clear_requested,
        handle_feature_input: focus.is_focused(),
        draw_gui: should_draw_gui,
    }
}

/// The colour the frame is cleared with: transparent where the user asked
/// for that always, else the backend's.
pub fn clear_color(transparent_always: bool, backend: BackgroundColor) -> (color: BackgroundColor)
    ensures
        color == (if transparent_always {
            BackgroundColor::Transparent
        } else {
            backend
        }),
{
    if transparent_always {
        BackgroundColor::Transparent
    } else {
        backend
    }
}

} // verus!
