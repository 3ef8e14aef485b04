//! Global hotkeys and window following on Windows: what each hotkey does to
//! the overlay and to the game's window, how the overlay's extended style
//! is changed for click-through, how the game's window is found by its
//! title, and when the overlay is moved to the monitor of the game.
//!
//! Every call into the operating system is the caller's. The handles are
//! passed as plain integers and only the caller turns them into live
//! handles, right before use.

use crate::focus::{drain_focus_updates, latest_focus, FocusState};
use crate::hotkey::HotkeyEvent;
use crate::text::{
    ascii_lower_text, chars_of, eq_ignore_ascii_case, lowercase_text, string_of, to_lowercase,
};
use crate::viewport::{
    BackgroundColor, FrameInput, ViewportCommand, ViewportManager, WindowHandleKind,
};
use vstd::prelude::*;

verus! {

// ---------------------------------------------------------------------------
// Hotkeys
// ---------------------------------------------------------------------------

/// The message by which the system reports a registered hotkey.
pub const WM_HOTKEY: u32 = 0x0312;

/// The modifier flag of the Alt key in a hotkey registration.
pub const HOTKEY_MOD_ALT: u32 = 0x0001;

pub const VK_F: u32 = 0x46;

pub const VK_C: u32 = 0x43;

pub const VK_V: u32 = 0x56;

pub const HOTKEY_ID_FOCUS: usize = 1;

pub const HOTKEY_ID_CLOSE: usize = 2;

pub const HOTKEY_ID_VISIBLE: usize = 3;

/// One system-wide hotkey to register on the listener's thread.
#[derive(PartialEq, Eq, Structural, Hash, Debug, Clone, Copy)]
pub struct HotkeyRegistration {
    pub id: usize,
    pub modifiers: u32,
    pub virtual_key: u32,
    pub event: HotkeyEvent,
}

pub open spec fn hotkey_registrations_spec() -> Seq<HotkeyRegistration> {
    seq![
        HotkeyRegistration {
            id: HOTKEY_ID_FOCUS,
            modifiers: HOTKEY_MOD_ALT,
            virtual_key: VK_F,
            event: HotkeyEvent::Focus,
        },
        HotkeyRegistration {
            id: HOTKEY_ID_CLOSE,
            modifiers: HOTKEY_MOD_ALT,
            virtual_key: VK_C,
            event: HotkeyEvent::Close,
        },
        HotkeyRegistration {
            id: HOTKEY_ID_VISIBLE,
            modifiers: HOTKEY_MOD_ALT,
            virtual_key: VK_V,
            event: HotkeyEvent::Visible,
        },
    ]
}

/// The three hotkeys: Alt+F, Alt+C and Alt+V.
pub fn hotkey_registrations() -> (registrations: Vec<HotkeyRegistration>)
    ensures
        registrations@ == hotkey_registrations_spec(),
{
    let mut registrations: Vec<HotkeyRegistration> = Vec::new();
    registrations.push(
        HotkeyRegistration {
            id: HOTKEY_ID_FOCUS,
            modifiers: HOTKEY_MOD_ALT,
            virtual_key: VK_F,
            event: HotkeyEvent::Focus,
        },
    );
    registrations.push(
        HotkeyRegistration {
            id: HOTKEY_ID_CLOSE,
            modifiers: HOTKEY_MOD_ALT,
            virtual_key: VK_C,
            event: HotkeyEvent::Close,
        },
    );
    registrations.push(
        HotkeyRegistration {
            id: HOTKEY_ID_VISIBLE,
            modifiers: HOTKEY_MOD_ALT,
            virtual_key: VK_V,
            event: HotkeyEvent::Visible,
        },
    );
    assert(registrations@ =~= hotkey_registrations_spec());
    registrations
}

/// The hotkey that a message of the listener's queue reports, if it
/// reports one of the three.
pub open spec fn hotkey_of_message(message: u32, w_param: usize) -> Option<HotkeyEvent> {
    if message != WM_HOTKEY {
        None
    } else if w_param == HOTKEY_ID_FOCUS {
        Some(HotkeyEvent::Focus)
    } else if w_param == HOTKEY_ID_CLOSE {
        Some(HotkeyEvent::Close)
    } else if w_param == HOTKEY_ID_VISIBLE {
        Some(HotkeyEvent::Visible)
    } else {
        None
    }
}

/// Something to do to a window, named by its handle.
#[derive(PartialEq, Eq, Structural, Hash, Debug, Clone, Copy)]
pub enum WindowOp {
    /// Show the window maximised and bring it to the foreground.
    ShowMaximized(isize),
    /// Show the window as it was and bring it to the foreground.
    Show(isize),
    /// Hide the window; it is not destroyed.
    Hide(isize),
    /// Restore the window from its maximised state.
    Restore(isize),
    /// Show the window maximised; the foreground stays where it is.
    Maximize(isize),
    /// Read the window's extended style, replace it by what
    /// `with_click_through` makes of it, and hand the foreground to the
    /// desktop so that a text field of the overlay loses the keyboard.
    EnableClickThrough(isize),
    /// Read the window's extended style and replace it by what
    /// `without_click_through` makes of it.
    DisableClickThrough(isize),
    /// Move the window without resizing it and without changing its place
    /// in the stacking order, and have its frame redrawn.
    MoveTo { window: isize, x: i32, y: i32, width: i32, height: i32 },
}

/// What the listener does on a hotkey.
#[derive(Debug)]
pub struct HotkeyReaction {
    /// What to do to the windows, in order.
    pub ops: Vec<WindowOp>,
    /// The focus state to push to the frame thread.
    pub state: FocusState,
}

/// What is done to the windows on `event`, for the overlay `overlay` and
/// the game's window `target`, where one is known.
pub open spec fn window_ops_for(event: HotkeyEvent, overlay: isize, target: Option<isize>) -> Seq<
    WindowOp,
> {
    match event {
        HotkeyEvent::Focus => seq![
            WindowOp::ShowMaximized(overlay),
            WindowOp::DisableClickThrough(overlay),
        ],
        HotkeyEvent::Close => seq![WindowOp::Hide(overlay)],
        HotkeyEvent::Visible => {
            let own = seq![WindowOp::ShowMaximized(overlay), WindowOp::EnableClickThrough(overlay)];
            match target {
                Some(game) => own.push(WindowOp::Show(game)),
                None => own,
            }
        },
    }
}

/// The state of the listener thread: the overlay's window, and the game's
/// window as far as the frame thread has told.
#[derive(Debug, Clone, Copy)]
pub struct Win32Listener {
    overlay: isize,
    target: Option<isize>,
}

impl Win32Listener {
    pub closed spec fn overlay(&self) -> isize {
        self.overlay
    }

    pub closed spec fn target(&self) -> Option<isize> {
        self.target
    }

    pub fn new(overlay: isize, target: Option<isize>) -> (listener: Self)
        ensures
            listener.overlay() == overlay,
            listener.target() == target,
    {
        Win32Listener { overlay, target }
    }

    /// Takes over the handles of the game's window that the frame thread
    /// sent since the last message, oldest first; the newest one counts.
    pub fn on_target_updates(&mut self, updates: &Vec<Option<isize>>)
        ensures
            final(self).overlay() == old(self).overlay(),
            final(self).target() == (if updates@.len() == 0 {
                old(self).target()
            } else {
                updates@.last()
            }),
    {
        if updates.len() > 0 {
            self.target = updates[updates.len() - 1];
        }
    }

    /// Reacts to one message of the queue: on one of the three hotkeys,
    /// what to do to the windows and which state to report; else nothing.
    pub fn on_message(&self, message: u32, w_param: usize) -> (reaction: Option<HotkeyReaction>)
        ensures
            match hotkey_of_message(message, w_param) {
                Some(event) => reaction matches Some(r) && r.state == event.focus_state() && r.ops@
                    == window_ops_for(event, self.overlay(), self.target()),
                None => reaction is None,
            },
    {
        if message != WM_HOTKEY {
            return None;
        }
        let mut ops: Vec<WindowOp> = Vec::new();
        if w_param == HOTKEY_ID_FOCUS {
            ops.push(WindowOp::ShowMaximized(self.overlay));
            ops.push(WindowOp::DisableClickThrough(self.overlay));
            assert(ops@ =~= window_ops_for(HotkeyEvent::Focus, self.overlay, self.target));
            Some(HotkeyReaction { ops, state: FocusState::Focused })
        } else if w_param == HOTKEY_ID_CLOSE {
            ops.push(WindowOp::Hide(self.overlay));
            assert(ops@ =~= window_ops_for(HotkeyEvent::Close, self.overlay, self.target));
            Some(HotkeyReaction { ops, state: FocusState::Hidden })
        } else if w_param == HOTKEY_ID_VISIBLE {
            ops.push(WindowOp::ShowMaximized(self.overlay));
            ops.push(WindowOp::EnableClickThrough(self.overlay));
            match self.target {
                Some(game) => {
                    ops.push(WindowOp::Show(game));
                },
                None => {},
            }
            assert(ops@ =~= window_ops_for(HotkeyEvent::Visible, self.overlay, self.target));
            Some(HotkeyReaction { ops, state: FocusState::Unfocused })
        } else {
            None
        }
    }
}

// ---------------------------------------------------------------------------
// Click-through
// ---------------------------------------------------------------------------

/// The extended style bit of a layered window.
pub const WS_EX_LAYERED: u32 = 0x0008_0000;

/// The extended style bit that lets pointer input pass through a window.
pub const WS_EX_TRANSPARENT: u32 = 0x0000_0020;

/// Whether a window with this extended style lets pointer input through.
pub open spec fn is_click_through(ex_style: i32) -> bool {
    (ex_style as u32) & WS_EX_TRANSPARENT != 0
}

/// The extended style with click-through switched on: the bits for a
/// layered and for a transparent window are set, all others are kept.
pub fn with_click_through(ex_style: i32) -> (styled: i32)
    ensures
        styled as u32 == (ex_style as u32) | WS_EX_LAYERED | WS_EX_TRANSPARENT,
        is_click_through(styled),
{
    let bits: u32 = ex_style as u32;
    let new_bits: u32 = bits | WS_EX_LAYERED | WS_EX_TRANSPARENT;
    assert((new_bits as i32) as u32 == new_bits) by (bit_vector);
    assert((bits | 0x0008_0000u32 | 0x0000_0020u32) & 0x0000_0020u32 != 0) by (bit_vector);
    new_bits as i32
}

/// The extended style with click-through switched off: the bit for a
/// transparent window is cleared, all others are kept.
pub fn without_click_through(ex_style: i32) -> (styled: i32)
    ensures
        styled as u32 == (ex_style as u32) & !WS_EX_TRANSPARENT,
        !is_click_through(styled),
{
    let bits: u32 = ex_style as u32;
    let new_bits: u32 = bits & !WS_EX_TRANSPARENT;
    assert((new_bits as i32) as u32 == new_bits) by (bit_vector);
    assert((bits & !0x0000_0020u32) & 0x0000_0020u32 == 0) by (bit_vector);
    new_bits as i32
}

/// Switching click-through on or off touches no other bit than the two it
/// is made of; switching it on twice is switching it on once; and after it
/// was switched on and off again the window is still layered.
pub proof fn lemma_click_through_bits(ex_style: i32, on: i32, off: i32, on_on: i32, on_off: i32)
    requires
        on as u32 == (ex_style as u32) | WS_EX_LAYERED | WS_EX_TRANSPARENT,
        off as u32 == (ex_style as u32) & !WS_EX_TRANSPARENT,
        on_on as u32 == (on as u32) | WS_EX_LAYERED | WS_EX_TRANSPARENT,
        on_off as u32 == (on as u32) & !WS_EX_TRANSPARENT,
    ensures
        (on as u32) & !(WS_EX_LAYERED | WS_EX_TRANSPARENT) == (ex_style as u32) & !(WS_EX_LAYERED
            | WS_EX_TRANSPARENT),
        (off as u32) & !WS_EX_TRANSPARENT == (ex_style as u32) & !WS_EX_TRANSPARENT,
        on_on == on,
        !is_click_through(on_off),
        (on_off as u32) & WS_EX_LAYERED != 0,
{
    let x = ex_style as u32;
    let a = on as u32;
    let b = off as u32;
    let c = on_on as u32;
    let d = on_off as u32;
    assert(a == (x | 0x0008_0000u32 | 0x0000_0020u32) ==> a & !(0x0008_0000u32 | 0x0000_0020u32)
        == x & !(0x0008_0000u32 | 0x0000_0020u32)) by (bit_vector);
    assert(b == x & !0x0000_0020u32 ==> b & !0x0000_0020u32 == x & !0x0000_0020u32)
        by (bit_vector);
    assert(a == (x | 0x0008_0000u32 | 0x0000_0020u32) && c == (a | 0x0008_0000u32
        | 0x0000_0020u32) ==> c == a) by (bit_vector);
    assert(a == (x | 0x0008_0000u32 | 0x0000_0020u32) && d == a & !0x0000_0020u32 ==> d
        & 0x0000_0020u32 == 0 && d & 0x0008_0000u32 != 0) by (bit_vector);
    assert(on_on as u32 == on as u32 ==> on_on == on) by (bit_vector);
}

// ---------------------------------------------------------------------------
// The game's window
// ---------------------------------------------------------------------------

/// The title of the game's window, in lower case.
pub const TARGET_TITLE: &'static str = "pokemmo";

/// The Latin letter that a Cyrillic letter is mistaken for, or the
/// character itself where it is none of those.
pub open spec fn latin_lookalike(c: char) -> char {
    if c == '\u{0430}' {
        'a'
    } else if c == '\u{0432}' {
        'b'
    } else if c == '\u{0435}' {
        'e'
    } else if c == '\u{043a}' {
        'k'
    } else if c == '\u{043c}' {
        'm'
    } else if c == '\u{043d}' {
        'h'
    } else if c == '\u{043e}' {
        'o'
    } else if c == '\u{0440}' {
        'p'
    } else if c == '\u{0441}' {
        'c'
    } else if c == '\u{0442}' {
        't'
    } else if c == '\u{0443}' {
        'y'
    } else if c == '\u{0445}' {
        'x'
    } else if c == '\u{0410}' {
        'A'
    } else if c == '\u{0412}' {
        'B'
    } else if c == '\u{0415}' {
        'E'
    } else if c == '\u{041a}' {
        'K'
    } else if c == '\u{041c}' {
        'M'
    } else if c == '\u{041d}' {
        'H'
    } else if c == '\u{041e}' {
        'O'
    } else if c == '\u{0420}' {
        'P'
    } else if c == '\u{0421}' {
        'C'
    } else if c == '\u{0422}' {
        'T'
    } else if c == '\u{0423}' {
        'Y'
    } else if c == '\u{0425}' {
        'X'
    } else {
        c
    }
}

pub open spec fn latin_lookalikes(text: Seq<char>) -> Seq<char> {
    text.map(|i: int, c: char| latin_lookalike(c))
}

fn convert_cyrillic_char(c: char) -> (latin: char)
    ensures
        latin == latin_lookalike(c),
{
    if c == '\u{0430}' {
        'a'
    } else if c == '\u{0432}' {
        'b'
    } else if c == '\u{0435}' {
        'e'
    } else if c == '\u{043a}' {
        'k'
    } else if c == '\u{043c}' {
        'm'
    } else if c == '\u{043d}' {
        'h'
    } else if c == '\u{043e}' {
        'o'
    } else if c == '\u{0440}' {
        'p'
    } else if c == '\u{0441}' {
        'c'
    } else if c == '\u{0442}' {
        't'
    } else if c == '\u{0443}' {
        'y'
    } else if c == '\u{0445}' {
        'x'
    } else if c == '\u{0410}' {
        'A'
    } else if c == '\u{0412}' {
        'B'
    } else if c == '\u{0415}' {
        'E'
    } else if c == '\u{041a}' {
        'K'
    } else if c == '\u{041c}' {
        'M'
    } else if c == '\u{041d}' {
        'H'
    } else if c == '\u{041e}' {
        'O'
    } else if c == '\u{0420}' {
        'P'
    } else if c == '\u{0421}' {
        'C'
    } else if c == '\u{0422}' {
        'T'
    } else if c == '\u{0423}' {
        'Y'
    } else if c == '\u{0425}' {
        'X'
    } else {
        c
    }
}

/// Replaces every Cyrillic letter that looks like a Latin one by that
/// Latin letter. The game now and then writes its title with such letters.
pub fn convert_cyrillic_string(text: &str) -> (latin: String)
    ensures
        latin@ == latin_lookalikes(text@),
{
    let chars = chars_of(text);
    let mut converted: Vec<char> = Vec::new();
    let mut i: usize = 0;
    while i < chars.len()
        invariant
            i <= chars.len(),
            converted@.len() == i,
            forall|j: int| 0 <= j < i ==> converted@[j] == latin_lookalike(chars@[j]),
        decreases chars.len() - i,
    {
        converted.push(convert_cyrillic_char(chars[i]));
        i = i + 1;
    }
    assert(converted@ =~= latin_lookalikes(chars@));
    string_of(&converted)
}

/// Whether a title that is already in lower case is the game's: with its
/// look-alike letters replaced it is the known title, letter for letter,
/// whatever the case of its ASCII letters.
pub open spec fn is_target_title_lowered_spec(lowered: Seq<char>) -> bool {
    ascii_lower_text(latin_lookalikes(lowered)) == ascii_lower_text(TARGET_TITLE@)
}

/// Whether `title` is the title of the game's window.
pub open spec fn is_target_title_spec(title: Seq<char>) -> bool {
    is_target_title_lowered_spec(lowercase_text(title))
}

/// Whether a title that is already in lower case is the game's.
pub fn is_target_title_lowered(lowered: &str) -> (yes: bool)
    ensures
        yes == is_target_title_lowered_spec(lowered@),
{
    let cleaned = convert_cyrillic_string(lowered);
    eq_ignore_ascii_case(cleaned.as_str(), TARGET_TITLE)
}

/// Whether `title` is the title of the game's window: the whole title, not
/// a part of it, without regard to case.
pub fn is_target_title(title: &str) -> (yes: bool)
    ensures
        yes == is_target_title_spec(title@),
{
    let lowered = to_lowercase(title);
    is_target_title_lowered(lowered.as_str())
}

/// What is known of one top-level window.
#[derive(Debug, Clone)]
pub struct WindowSnapshot {
    pub handle: isize,
    pub visible: bool,
    /// The window's title; empty where it has none or it could not be read.
    pub title: String,
}

/// Whether this window is taken for the game's: it is visible, has a title,
/// and the title is the game's.
pub open spec fn is_target_window(window: WindowSnapshot) -> bool {
    window.visible && window.title@.len() > 0 && is_target_title_spec(window.title@)
}

/// Looks for the game's window among all top-level windows, in the order
/// in which the system lists them. The first that fits is taken.
pub fn find_target_window(windows: &Vec<WindowSnapshot>) -> (found: Option<isize>)
    ensures
        match found {
            Some(handle) => exists|i: int|
                0 <= i < windows@.len() && is_target_window(#[trigger] windows@[i]) && windows@[i].handle
                    == handle && forall|k: int| 0 <= k < i ==> !is_target_window(windows@[k]),
            None => forall|i: int| 0 <= i < windows@.len() ==> !is_target_window(windows@[i]),
        },
{
    let mut i: usize = 0;
    while i < windows.len()
        invariant
            i <= windows@.len(),
            forall|k: int| 0 <= k < i ==> !is_target_window(windows@[k]),
        decreases windows.len() - i,
    {
        let window = &windows[i];
        if window.visible && window.title.as_str().unicode_len() > 0 && is_target_title(
            window.title.as_str(),
        ) {
            return Some(window.handle);
        }
        i = i + 1;
    }
    None
}

// ---------------------------------------------------------------------------
// Following the game across monitors
// ---------------------------------------------------------------------------

/// How long the backend waits between two looks at the game's window.
pub const RECHECK_INTERVAL_MILLIS: u64 = 1000;

/// The part of a monitor that is free for windows, in screen coordinates.
#[derive(PartialEq, Eq, Structural, Hash, Debug, Clone, Copy)]
pub struct WorkArea {
    pub left: i32,
    pub top: i32,
    pub right: i32,
    pub bottom: i32,
}

/// What the backend asks of the host after the host found out whether the
/// game's window still exists.
#[derive(PartialEq, Eq, Structural, Hash, Debug, Clone, Copy)]
pub enum FollowStep {
    /// Ask the system for the monitors of the two windows and hand them to
    /// `on_monitors`.
    CompareMonitors { target: isize, overlay: isize },
    /// List all top-level windows, let `find_target_window` pick the game's
    /// and hand the result to `on_scan`.
    ScanWindows,
}

/// The backend for Windows: it reports what the listener on the hotkeys
/// produced last and keeps the overlay on the monitor of the game.
#[derive(Debug, Clone, Copy)]
pub struct NativeViewportManagerWin32 {
    app_focus: FocusState,
    listening: bool,
    overlay_hwnd_int: isize,
    pokemmo_hwnd_int: Option<isize>,
    last_run_window_update: u64,
}

/// Whether a look at the game's window is due at `now`, the last one
/// having been at `last`.
pub open spec fn recheck_due(last: u64, now: u64) -> bool {
    now - last >= RECHECK_INTERVAL_MILLIS
}

impl NativeViewportManagerWin32 {
    /// The handle of the overlay's window, as a number.
    pub closed spec fn overlay(&self) -> isize {
        self.overlay_hwnd_int
    }

    /// The handle of the game's window as it was found last, as a number.
    pub closed spec fn target(&self) -> Option<isize> {
        self.pokemmo_hwnd_int
    }

    /// The time of the last look at the game's window.
    pub closed spec fn last_check(&self) -> u64 {
        self.last_run_window_update
    }

    /// Constructs the backend. With a Win32 window handle, whose number is
    /// `hwnd`, a listener is to be started for the overlay and for the
    /// game's window `target`, as far as one was found. With any other
    /// handle the backend has no hotkeys and stays focused for ever; that is
    /// not an error.
    pub fn new(handle: WindowHandleKind, hwnd: isize, target: Option<isize>, now_millis: u64) -> (manager:
        Self)
        ensures
            manager.focus() == FocusState::Focused,
            manager.listening() == (handle == WindowHandleKind::Win32),
            manager.overlay() == (if handle == WindowHandleKind::Win32 {
                hwnd
            } else {
                0
            }),
            manager.target() == (if handle == WindowHandleKind::Win32 {
                target
            } else {
                None
            }),
            manager.last_check() == now_millis,
    {
        match handle {
            WindowHandleKind::Win32 => NativeViewportManagerWin32 {
                app_focus: FocusState::Focused,
                listening: true,
                overlay_hwnd_int: hwnd,
                pokemmo_hwnd_int: target,
                last_run_window_update: now_millis,
            },
            _ => NativeViewportManagerWin32 {
                app_focus: FocusState::Focused,
                listening: false,
                overlay_hwnd_int: 0,
                pokemmo_hwnd_int: None,
                last_run_window_update: now_millis,
            },
        }
    }

    /// The listener that belongs to a backend with hotkeys.
    pub fn listener(&self) -> (listener: Option<Win32Listener>)
        ensures
            listener is Some <==> self.listening(),
            listener matches Some(l) ==> l.overlay() == self.overlay() && l.target()
                == self.target(),
    {
        if self.listening {
            Some(Win32Listener::new(self.overlay_hwnd_int, self.pokemmo_hwnd_int))
        } else {
            None
        }
    }

    /// Takes the answer to `CheckTargetWindow`: whether the window that was
    /// found last still exists. Where it does, its monitor is compared with
    /// the overlay's; where it does not, or none was ever found, the
    /// windows are scanned anew.
    pub fn on_target_checked(&self, alive: bool) -> (step: FollowStep)
        ensures
            step == (match self.target() {
                Some(target) if alive => FollowStep::CompareMonitors {
                    target,
                    overlay: self.overlay(),
                },
                _ => FollowStep::ScanWindows,
            }),
    {
        match self.pokemmo_hwnd_int {
            Some(target) => {
                if alive {
                    FollowStep::CompareMonitors { target, overlay: self.overlay_hwnd_int }
                } else {
                    FollowStep::ScanWindows
                }
            },
            None => FollowStep::ScanWindows,
        }
    }

    /// Takes the monitors of the game's window and of the overlay. Where
    /// they differ, the overlay is to be moved to the monitor of the game:
    /// the result names that monitor.
    pub fn on_monitors(&self, target_monitor: isize, overlay_monitor: isize) -> (move_to: Option<
        isize,
    >)
        ensures
            move_to == reposition_target(overlay_monitor, target_monitor),
    {
        if overlay_monitor != target_monitor {
            Some(target_monitor)
        } else {
            None
        }
    }

    /// Takes the result of a scan and keeps it. Where the scan found a
    /// window and it is another than the one found last, the result holds
    /// what to send to the listener; a scan that found nothing sends
    /// nothing.
    pub fn on_scan(&mut self, found: Option<isize>) -> (publish: Option<Option<isize>>)
        ensures
            final(self).target() == found,
            final(self).overlay() == old(self).overlay(),
            final(self).last_check() == old(self).last_check(),
            final(self).focus() == old(self).focus(),
            final(self).listening() == old(self).listening(),
            publish == (if found is Some && found != old(self).target() {
                Some(found)
            } else {
                None
            }),
    {
        let publish = match found {
            Some(_) => if found != self.pokemmo_hwnd_int {
                Some(found)
            } else {
                None
            },
            None => None,
        };
        self.pokemmo_hwnd_int = found;
        publish
    }

    /// What it takes to bring the overlay to the monitor with this work
    /// area: a window that is maximised on one monitor has to be restored
    /// before it is moved, because the system remembers the geometry it was
    /// maximised with; then it is moved, and maximised again.
    pub fn reposition_ops(&self, work_area: WorkArea) -> (ops: Vec<WindowOp>)
        requires
            i32::MIN <= work_area.right - work_area.left <= i32::MAX,
            i32::MIN <= work_area.bottom - work_area.top <= i32::MAX,
        ensures
            ops@ == seq![
                WindowOp::Restore(self.overlay()),
                WindowOp::MoveTo {
                    window: self.overlay(),
                    x: work_area.left,
                    y: work_area.top,
                    width: (work_area.right - work_area.left) as i32,
                    height: (work_area.bottom - work_area.top) as i32,
                },
                WindowOp::Maximize(self.overlay()),
            ],
    {
        let mut ops: Vec<WindowOp> = Vec::new();
        ops.push(WindowOp::Restore(self.overlay_hwnd_int));
        ops.push(
            WindowOp::MoveTo {
                window: self.overlay_hwnd_int,
                x: work_area.left,
                y: work_area.top,
                width: work_area.right - work_area.left,
                height: work_area.bottom - work_area.top,
            },
        );
        ops.push(WindowOp::Maximize(self.overlay_hwnd_int));
        ops
    }
}

/// The monitor to move the overlay to, if it is to be moved at all.
pub open spec fn reposition_target(overlay_monitor: isize, target_monitor: isize) -> Option<isize> {
    if overlay_monitor != target_monitor {
        Some(target_monitor)
    } else {
        None
    }
}

/// How often the overlay is moved over a run of looks at the game's
/// window, `target_monitors` being the monitor of the game at each look and
/// the overlay being on `overlay_monitor` at the first. A move brings the
/// overlay to the monitor of the game.
pub open spec fn repositions(overlay_monitor: isize, target_monitors: Seq<isize>) -> nat
    decreases target_monitors.len(),
{
    if target_monitors.len() == 0 {
        0
    } else {
        let moved: nat = if reposition_target(overlay_monitor, target_monitors[0]) is Some {
            1
        } else {
            0
        };
        moved + repositions(target_monitors[0], target_monitors.drop_first())
    }
}

/// The overlay is moved once per change of the game's monitor, not once
/// per look: as long as the game stays on one monitor, the overlay is moved
/// there at the first look, if it is elsewhere, and never again.
pub proof fn lemma_one_reposition_per_change(overlay_monitor: isize, monitor: isize, looks: nat)
    ensures
        repositions(overlay_monitor, Seq::new(looks, |i: int| monitor)) == (if looks > 0
            && overlay_monitor != monitor {
            1nat
        } else {
            0nat
        }),
    decreases looks,
{
    let all = Seq::new(looks, |i: int| monitor);
    if looks > 0 {
        assert(all.drop_first() =~= Seq::new((looks - 1) as nat, |i: int| monitor));
        lemma_one_reposition_per_change(monitor, monitor, (looks - 1) as nat);
    }
}

/// Over any run of looks the overlay is moved no more often than the game
/// was seen on another monitor than the overlay was left on.
pub proof fn lemma_repositions_bounded(overlay_monitor: isize, target_monitors: Seq<isize>)
    ensures
        repositions(overlay_monitor, target_monitors) <= target_monitors.len(),
        (forall|i: int| 0 <= i < target_monitors.len() ==> target_monitors[i] == overlay_monitor)
            ==> repositions(overlay_monitor, target_monitors) == 0,
    decreases target_monitors.len(),
{
    if target_monitors.len() > 0 {
        lemma_repositions_bounded(target_monitors[0], target_monitors.drop_first());
        if forall|i: int| 0 <= i < target_monitors.len() ==> target_monitors[i] == overlay_monitor {
            assert forall|i: int| 0 <= i < target_monitors.drop_first().len() implies target_monitors.drop_first()[i]
                == target_monitors[0] by {
                assert(target_monitors.drop_first()[i] == target_monitors[i + 1]);
            }
        }
    }
}

impl ViewportManager for NativeViewportManagerWin32 {
    closed spec fn focus(&self) -> FocusState {
        self.app_focus
    }

    closed spec fn listening(&self) -> bool {
        self.listening
    }

    open spec fn draws_gui(&self) -> bool {
        true
    }

    open spec fn background(&self) -> BackgroundColor {
        BackgroundColor::Transparent
    }

    /// Besides taking over the newest state, asks for a look at the game's
    /// window once the interval has passed since the last one. While the
    /// clock is behind the time of the last look, nothing is asked for.
    fn update_viewport(&mut self, frame: &FrameInput) -> (command: Option<ViewportCommand>)
        ensures
            final(self).overlay() == old(self).overlay(),
            final(self).target() == old(self).target(),
            recheck_due(old(self).last_check(), frame.now_millis) ==> command == Some(
                ViewportCommand::CheckTargetWindow(old(self).target()),
            ) && final(self).last_check() == frame.now_millis,
            !recheck_due(old(self).last_check(), frame.now_millis) ==> command is None
                && final(self).last_check() == old(self).last_check(),
    {
        if self.listening {
            self.app_focus = drain_focus_updates(self.app_focus, &frame.pending);
        }
        if frame.now_millis >= self.last_run_window_update && frame.now_millis
            - self.last_run_window_update >= RECHECK_INTERVAL_MILLIS {
            self.last_run_window_update = frame.now_millis;
            Some(ViewportCommand::CheckTargetWindow(self.pokemmo_hwnd_int))
        } else {
            None
        }
    }

    fn current_focus_state(&self) -> (state: FocusState) {
        self.app_focus
    }

    fn window_background_color(&self) -> (color: BackgroundColor) {
        BackgroundColor::Transparent
    }

    fn should_draw_gui(&self) -> (draw: bool) {
        true
    }
}

/// Looks at the game's window are at least one interval apart: right after
/// one, none is due until the interval has passed.
pub proof fn lemma_recheck_is_rate_limited(last: u64, now: u64, later: u64)
    requires
        recheck_due(last, now),
        now <= later < now + RECHECK_INTERVAL_MILLIS,
    ensures
        !recheck_due(now, later),
{
}

} // verus!
