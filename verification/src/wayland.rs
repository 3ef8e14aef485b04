//! The overlay's side of global hotkeys on Wayland, where an ordinary
//! process cannot see key presses of other windows: the steps by which a
//! privileged key reader is started with the user's consent, what its
//! messages mean, and the backend that reports them.

use crate::focus::{drain_focus_updates, latest_focus, FocusState};
use crate::hotkey::HotkeyEvent;
use crate::text::{decimal_digits, u32_to_decimal};
use crate::viewport::{
    BackgroundColor, DisplayHandleKind, FrameInput, ViewportCommand, ViewportManager,
    WindowHandleKind,
};
use vstd::prelude::*;
use vstd::string::StringExecFns;

verus! {

// ---------------------------------------------------------------------------
// Starting the key reader
// ---------------------------------------------------------------------------

/// The file name of the key reader, relative to the directory of the
/// running executable.
pub const DAEMON_FILE_NAME: &'static str = "./hotkey-daemon";

/// The program that asks the user for elevated privileges.
pub const ELEVATION_PROGRAM: &'static str = "pkexec";

/// The program that shows the notice.
pub const NOTICE_PROGRAM: &'static str = "zenity";

/// What the user is told before privileges are asked for.
pub const NOTICE_TEXT: &'static str =
    "--text=On some linux desktop environments it is not possible to register global hotkeys. Wayland was detected as your DisplayCompositor, which prohibits global-hotkeys in general. One user-level approach would be to use the xdg-desktop-portal global hotkeys, but your desktop environment also didn't support it (e.g. GNOME DE supports it after version 48 (Ubuntu 25.04)). \nNow the only solution left for global hotkeys is a sudo key-reader (such programs can be security risk (key-loggers), so read my open source code and verify yourself). You will be prompted for sudo-privileges next. You can still deny the upcoming privileges request and use the app in a non-overlay way.";

/// How long the listener waits before it tries the socket again.
pub const CONNECT_RETRY_MILLIS: u64 = 1000;

/// The shell line that starts the key reader in the background, detached
/// from the session and with nothing attached to its standard streams, and
/// tells it the user and group to drop to.
pub open spec fn launch_script_spec(daemon_path: Seq<char>, uid: u32, gid: u32) -> Seq<char> {
    "setsid "@ + daemon_path + " --drop-uid "@ + decimal_digits(uid as nat) + " --drop-gid "@
        + decimal_digits(gid as nat) + " </dev/null >/dev/null 2>&1 &"@
}

/// Builds the shell line for the key reader at `daemon_path`, to run as the
/// present, unprivileged user `uid` of group `gid` once it has opened the
/// devices.
pub fn daemon_launch_script(daemon_path: &str, uid: u32, gid: u32) -> (script: String)
    ensures
        script@ == launch_script_spec(daemon_path@, uid, gid),
{
    let mut script = String::from_str("setsid ");
    script.append(daemon_path);
    script.append(" --drop-uid ");
    let uid_text = u32_to_decimal(uid);
    script.append(uid_text.as_str());
    script.append(" --drop-gid ");
    let gid_text = u32_to_decimal(gid);
    script.append(gid_text.as_str());
    script.append(" </dev/null >/dev/null 2>&1 &");
    script
}

/// The command that runs `script` with elevated privileges: the elevation
/// program, then a shell that is given the script.
pub fn elevation_command(script: String) -> (argv: Vec<String>)
    ensures
        argv@.len() == 4,
        argv@[0]@ == ELEVATION_PROGRAM@,
        argv@[1]@ == "sh"@,
        argv@[2]@ == "-c"@,
        argv@[3] == script,
{
    let mut argv: Vec<String> = Vec::new();
    argv.push(String::from_str(ELEVATION_PROGRAM));
    argv.push(String::from_str("sh"));
    argv.push(String::from_str("-c"));
    argv.push(script);
    argv
}

/// The command that shows the notice and returns when the user closed it.
pub fn notice_command() -> (argv: Vec<String>)
    ensures
        argv@.len() == 3,
        argv@[0]@ == NOTICE_PROGRAM@,
        argv@[1]@ == "--info"@,
        argv@[2]@ == NOTICE_TEXT@,
{
    let mut argv: Vec<String> = Vec::new();
    argv.push(String::from_str(NOTICE_PROGRAM));
    argv.push(String::from_str("--info"));
    argv.push(String::from_str(NOTICE_TEXT));
    argv
}

// ---------------------------------------------------------------------------
// The steps of the set-up
// ---------------------------------------------------------------------------

/// Why the set-up ended in the default backend.
#[derive(PartialEq, Eq, Structural, Hash, Debug, Clone, Copy)]
pub enum FallbackReason {
    /// The window's handle is not a Wayland handle.
    NotAWaylandWindow,
    /// The display's handle is not a Wayland handle.
    NotAWaylandDisplay,
    /// The key reader's executable could not be located.
    DaemonNotFound,
    /// The elevation program could not be started.
    ElevationNotStarted,
    /// The user declined the request for privileges.
    ElevationDeclined,
    /// The listener on the socket could not be started.
    ListenerFailed,
}

/// Where the set-up stands. Each state but the last two waits for the
/// outcome of one thing that the host does.
#[derive(PartialEq, Eq, Structural, Hash, Debug, Clone, Copy)]
pub enum WaylandSetup {
    /// The host shows the window's decorations and reads the two handles.
    ReadHandles,
    /// The host shows the notice and waits until the user closed it.
    InformUser,
    /// The host locates the key reader next to the running executable.
    LocateDaemon,
    /// The host starts the key reader through the elevation program.
    LaunchDaemon,
    /// The host waits for the elevation program to end.
    AwaitElevation,
    /// The host starts the listener on the socket.
    StartListener,
    /// The set-up succeeded: the Wayland backend is in place.
    Native,
    /// The set-up ended without hotkeys: the default backend is in place,
    /// for the rest of the run.
    Fallback(FallbackReason),
}

/// The outcome of the thing the host did.
#[derive(PartialEq, Eq, Structural, Hash, Debug, Clone, Copy)]
pub enum SetupEvent {
    /// The kinds of the window's two handles.
    Handles(WindowHandleKind, DisplayHandleKind),
    /// The notice was shown, or could not be.
    NoticeShown(bool),
    /// Whether the key reader's path could be made out.
    DaemonLocated(bool),
    /// Whether the elevation program could be started.
    DaemonLaunched(bool),
    /// How the elevation program ended: `Some(true)` with success,
    /// `Some(false)` without, `None` where waiting for it failed.
    ElevationEnded(Option<bool>),
    /// Whether the listener could be started.
    ListenerStarted(bool),
}

impl WaylandSetup {
    /// The state after `event`. An event that the state does not wait for
    /// changes nothing.
    pub open spec fn spec_advance(self, event: SetupEvent) -> WaylandSetup {
        match (self, event) {
            (WaylandSetup::ReadHandles, SetupEvent::Handles(window, display)) => {
                if window != WindowHandleKind::Wayland {
                    WaylandSetup::Fallback(FallbackReason::NotAWaylandWindow)
                } else if display != DisplayHandleKind::Wayland {
                    WaylandSetup::Fallback(FallbackReason::NotAWaylandDisplay)
                } else {
                    WaylandSetup::InformUser
                }
            },
            (WaylandSetup::InformUser, SetupEvent::NoticeShown(_)) => WaylandSetup::LocateDaemon,
            (WaylandSetup::LocateDaemon, SetupEvent::DaemonLocated(found)) => {
                if found {
                    WaylandSetup::LaunchDaemon
                } else {
                    WaylandSetup::Fallback(FallbackReason::DaemonNotFound)
                }
            },
            (WaylandSetup::LaunchDaemon, SetupEvent::DaemonLaunched(started)) => {
                if started {
                    WaylandSetup::AwaitElevation
                } else {
                    WaylandSetup::Fallback(FallbackReason::ElevationNotStarted)
                }
            },
            (WaylandSetup::AwaitElevation, SetupEvent::ElevationEnded(status)) => {
                if status == Some(false) {
                    WaylandSetup::Fallback(FallbackReason::ElevationDeclined)
                } else {
                    WaylandSetup::StartListener
                }
            },
            (WaylandSetup::StartListener, SetupEvent::ListenerStarted(started)) => {
                if started {
                    WaylandSetup::Native
                } else {
                    WaylandSetup::Fallback(FallbackReason::ListenerFailed)
                }
            },
            _ => self,
        }
    }

    /// The state after all of `events`, oldest first.
    pub open spec fn after_all(self, events: Seq<SetupEvent>) -> WaylandSetup
        decreases events.len(),
    {
        if events.len() == 0 {
            self
        } else {
            self.after_all(events.drop_last()).spec_advance(events.last())
        }
    }

    pub open spec fn spec_is_final(self) -> bool {
        self is Native || self is Fallback
    }

    /// Whether the host holds the process of the started key reader in this
    /// state, which it has to end when it lets go of it.
    pub open spec fn spec_holds_daemon(self) -> bool {
        self == WaylandSetup::StartListener || self == WaylandSetup::Native || self
            == WaylandSetup::Fallback(FallbackReason::ListenerFailed)
    }

    pub fn new() -> (setup: Self)
        ensures
            setup == WaylandSetup::ReadHandles,
    {
        WaylandSetup::ReadHandles
    }

    /// Takes the outcome of what the host did and moves on.
    #[verifier::when_used_as_spec(spec_advance)]
    pub fn advance(self, event: SetupEvent) -> (next: WaylandSetup)
        ensures
            next == self.spec_advance(event),
    {
        match (self, event) {
            (WaylandSetup::ReadHandles, SetupEvent::Handles(window, display)) => {
                if window != WindowHandleKind::Wayland {
                    WaylandSetup::Fallback(FallbackReason::NotAWaylandWindow)
                } else if display != DisplayHandleKind::Wayland {
                    WaylandSetup::Fallback(FallbackReason::NotAWaylandDisplay)
                } else {
                    WaylandSetup::InformUser
                }
            },
            (WaylandSetup::InformUser, SetupEvent::NoticeShown(_)) => WaylandSetup::LocateDaemon,
            (WaylandSetup::LocateDaemon, SetupEvent::DaemonLocated(found)) => {
                if found {
                    WaylandSetup::LaunchDaemon
                } else {
                    WaylandSetup::Fallback(FallbackReason::DaemonNotFound)
                }
            },
            (WaylandSetup::LaunchDaemon, SetupEvent::DaemonLaunched(started)) => {
                if started {
                    WaylandSetup::AwaitElevation
                } else {
                    WaylandSetup::Fallback(FallbackReason::ElevationNotStarted)
                }
            },
            (WaylandSetup::AwaitElevation, SetupEvent::ElevationEnded(status)) => {
                match status {
                    Some(false) => WaylandSetup::Fallback(FallbackReason::ElevationDeclined),
                    _ => WaylandSetup::StartListener,
                }
            },
            (WaylandSetup::StartListener, SetupEvent::ListenerStarted(started)) => {
                if started {
                    WaylandSetup::Native
                } else {
                    WaylandSetup::Fallback(FallbackReason::ListenerFailed)
                }
            },
            (state, _) => state,
        }
    }

    #[verifier::when_used_as_spec(spec_is_final)]
    pub fn is_final(self) -> (done: bool)
        ensures
            done == self.spec_is_final(),
    {
        match self {
            WaylandSetup::Native => true,
            WaylandSetup::Fallback(_) => true,
            _ => false,
        }
    }

    #[verifier::when_used_as_spec(spec_holds_daemon)]
    pub fn holds_daemon(self) -> (holds: bool)
        ensures
            holds == self.spec_holds_daemon(),
    {
        match self {
            WaylandSetup::StartListener => true,
            WaylandSetup::Native => true,
            WaylandSetup::Fallback(FallbackReason::ListenerFailed) => true,
            _ => false,
        }
    }
}

/// The end of the set-up is final: neither the Wayland backend nor a
/// fallback is left again, so a declined request is not asked twice.
pub proof fn lemma_setup_end_is_final(state: WaylandSetup, events: Seq<SetupEvent>)
    requires
        state.is_final(),
    ensures
        state.after_all(events) == state,
    decreases events.len(),
{
    if events.len() > 0 {
        lemma_setup_end_is_final(state, events.drop_last());
    }
}

/// The Wayland backend comes into place by one step only: the listener was
/// started, after the elevation program did not end in a refusal. Every
/// failure on the way ends in the default backend, never in an error.
pub proof fn lemma_native_needs_every_step(state: WaylandSetup, event: SetupEvent)
    ensures
        state != WaylandSetup::Native && state.advance(event) == WaylandSetup::Native ==> state
            == WaylandSetup::StartListener && event == SetupEvent::ListenerStarted(true),
        state.advance(event) == WaylandSetup::StartListener && state != WaylandSetup::StartListener
            ==> state == WaylandSetup::AwaitElevation && (event == SetupEvent::ElevationEnded(
            Some(true),
        ) || event == SetupEvent::ElevationEnded(None)),
        state == WaylandSetup::AwaitElevation && event == SetupEvent::ElevationEnded(Some(false))
            ==> state.advance(event) == WaylandSetup::Fallback(FallbackReason::ElevationDeclined),
        state.advance(event).holds_daemon() ==> state.holds_daemon() || state
            == WaylandSetup::AwaitElevation,
{
    if let SetupEvent::ElevationEnded(status) = event {
        match status {
            Some(granted) => {
                assert(event == SetupEvent::ElevationEnded(Some(granted)));
            },
            None => {
                assert(event == SetupEvent::ElevationEnded(None));
            },
        }
    }
}

/// On a run in which everything succeeds the set-up takes its six steps in
/// order and ends in the Wayland backend.
pub proof fn lemma_setup_succeeds(notice_shown: bool)
    ensures
        WaylandSetup::ReadHandles.after_all(
            seq![
                SetupEvent::Handles(WindowHandleKind::Wayland, DisplayHandleKind::Wayland),
                SetupEvent::NoticeShown(notice_shown),
                SetupEvent::DaemonLocated(true),
                SetupEvent::DaemonLaunched(true),
                SetupEvent::ElevationEnded(Some(true)),
                SetupEvent::ListenerStarted(true),
            ],
        ) == WaylandSetup::Native,
{
    let events = seq![
        SetupEvent::Handles(WindowHandleKind::Wayland, DisplayHandleKind::Wayland),
        SetupEvent::NoticeShown(notice_shown),
        SetupEvent::DaemonLocated(true),
        SetupEvent::DaemonLaunched(true),
        SetupEvent::ElevationEnded(Some(true)),
        SetupEvent::ListenerStarted(true),
    ];
    let e5 = events.drop_last();
    let e4 = e5.drop_last();
    let e3 = e4.drop_last();
    let e2 = e3.drop_last();
    let e1 = e2.drop_last();
    assert(e1.drop_last().len() == 0);
    assert(WaylandSetup::ReadHandles.after_all(e1.drop_last()) == WaylandSetup::ReadHandles);
    assert(WaylandSetup::ReadHandles.after_all(e1) == WaylandSetup::InformUser);
    assert(WaylandSetup::ReadHandles.after_all(e2) == WaylandSetup::LocateDaemon);
    assert(WaylandSetup::ReadHandles.after_all(e3) == WaylandSetup::LaunchDaemon);
    assert(WaylandSetup::ReadHandles.after_all(e4) == WaylandSetup::AwaitElevation);
    assert(WaylandSetup::ReadHandles.after_all(e5) == WaylandSetup::StartListener);
}

// ---------------------------------------------------------------------------
// Listening to the key reader
// ---------------------------------------------------------------------------

/// What the listener does on one message of the key reader.
#[derive(PartialEq, Eq, Structural, Hash, Debug, Clone, Copy)]
pub struct ListenerAction {
    /// Whether the window takes pointer input from now on; where not, it
    /// passes through to what lies underneath.
    pub hit_test: bool,
    /// The focus state to push to the frame thread.
    pub state: FocusState,
}

pub open spec fn action_for(event: HotkeyEvent) -> ListenerAction {
    ListenerAction { hit_test: event == HotkeyEvent::Focus, state: event.focus_state() }
}

pub open spec fn action_for_line(line: Seq<char>) -> Option<ListenerAction> {
    match HotkeyEvent::from_token_text(line) {
        Some(event) => Some(action_for(event)),
        None => None,
    }
}

/// Translates one line that was read from the socket, without its line end.
/// A line that is no token is ignored.
pub fn on_daemon_line(line: &str) -> (action: Option<ListenerAction>)
    ensures
        action == action_for_line(line@),
{
    match HotkeyEvent::from_token(line) {
        Some(event) => {
            let hit_test = match event {
                HotkeyEvent::Focus => true,
                _ => false,
            };
            Some(ListenerAction { hit_test, state: event.focus_state() })
        },
        None => None,
    }
}

/// What the listener does after it tried to connect to the socket.
#[derive(PartialEq, Eq, Structural, Hash, Debug, Clone, Copy)]
pub enum ConnectStep {
    /// The key reader is there: read its lines.
    Listen,
    /// The socket is not there yet: sleep this many milliseconds, then try
    /// again.
    RetryAfter(u64),
}

/// The listener keeps trying for as long as it takes, with a pause between
/// two attempts.
pub fn after_connect_attempt(connected: bool) -> (step: ConnectStep)
    ensures
        step == (if connected {
            ConnectStep::Listen
        } else {
            ConnectStep::RetryAfter(CONNECT_RETRY_MILLIS)
        }),
{
    if connected {
        ConnectStep::Listen
    } else {
        ConnectStep::RetryAfter(CONNECT_RETRY_MILLIS)
    }
}

/// The window takes pointer input exactly while the overlay is focused.
pub proof fn lemma_hit_test_follows_focus(event: HotkeyEvent)
    ensures
        action_for(event).hit_test == action_for(event).state.is_focused(),
{
}

// ---------------------------------------------------------------------------
// The backend
// ---------------------------------------------------------------------------

/// The backend for Wayland: it reports what the listener on the key
/// reader's socket produced last, and owns the key reader's process.
#[derive(Debug, Clone, Copy)]
pub struct NativeViewportManagerWayland {
    app_focus: FocusState,
    listening: bool,
    daemon_running: bool,
}

impl NativeViewportManagerWayland {
    /// Whether the backend still owns a running key reader.
    pub closed spec fn daemon_running(&self) -> bool {
        self.daemon_running
    }

    /// The backend that a finished set-up leads to: the Wayland backend
    /// where it succeeded, none where the host is to use the default one.
    pub fn try_new(setup: WaylandSetup) -> (manager: Option<Self>)
        ensures
            manager is Some <==> setup == WaylandSetup::Native,
            manager matches Some(m) ==> m.focus() == FocusState::Focused && m.listening()
                && m.daemon_running(),
    {
        match setup {
            WaylandSetup::Native => Some(
                NativeViewportManagerWayland {
                    app_focus: FocusState::Focused,
                    listening: true,
                    daemon_running: true,
                },
            ),
            _ => None,
        }
    }

    /// Lets go of the key reader. Says whether its process is to be ended
    /// now; a failure to end it is the host's to log and nothing more.
    pub fn shutdown(&mut self) -> (kill_daemon: bool)
        ensures
            kill_daemon == old(self).daemon_running(),
            !final(self).daemon_running(),
            final(self).focus() == old(self).focus(),
            final(self).listening() == old(self).listening(),
    {
        let kill_daemon = self.daemon_running;
        self.daemon_running = false;
        kill_daemon
    }
}

impl ViewportManager for NativeViewportManagerWayland {
    closed spec fn focus(&self) -> FocusState {
        self.app_focus
    }

    closed spec fn listening(&self) -> bool {
        self.listening
    }

    open spec fn draws_gui(&self) -> bool {
        self.focus() != FocusState::Hidden
    }

    open spec fn background(&self) -> BackgroundColor {
        BackgroundColor::Transparent
    }

    /// Besides taking over the newest state, takes a maximised window out of
    /// that state.
    fn update_viewport(&mut self, frame: &FrameInput) -> (command: Option<ViewportCommand>)
        ensures
            final(self).daemon_running() == old(self).daemon_running(),
            command == (if frame.window_maximized {
                Some(ViewportCommand::Unmaximize)
            } else {
                None
            }),
    {
        if self.listening {
            self.app_focus = drain_focus_updates(self.app_focus, &frame.pending);
        }
        if frame.window_maximized {
            Some(ViewportCommand::Unmaximize)
        } else {
            None
        }
    }

    fn current_focus_state(&self) -> (state: FocusState) {
        self.app_focus
    }

    fn window_background_color(&self) -> (color: BackgroundColor) {
        BackgroundColor::Transparent
    }

    fn should_draw_gui(&self) -> (draw: bool) {
        self.app_focus != FocusState::Hidden
    }
}

} // verus!
