//! Global hotkeys on X11: from key symbols to the server's key codes, the
//! grabs to ask for, and what a grabbed key press means.
//!
//! The connection to the server is the caller's. From it the caller takes
//! the keyboard mapping, asks for the grabs that `grab_plan` lists, and hands
//! each key press to `HotkeyKeycodes::hotkey_for`.

use crate::focus::{drain_focus_updates, latest_focus, FocusState};
use crate::hotkey::HotkeyEvent;
use crate::viewport::{
    BackgroundColor, FrameInput, ViewportCommand, ViewportManager, WindowHandleKind,
};
use vstd::arithmetic::div_mod::lemma_div_is_ordered;
use vstd::prelude::*;

verus! {

// ---------------------------------------------------------------------------
// Key symbols and modifier masks
// ---------------------------------------------------------------------------

/// The key symbol of the small letter f.
pub const KEYSYM_F: u32 = 0x66;

/// The key symbol of the small letter c.
pub const KEYSYM_C: u32 = 0x63;

/// The key symbol of the small letter v.
pub const KEYSYM_V: u32 = 0x76;

/// The modifier bit of the Alt key (Mod1).
pub const MOD_ALT: u16 = 0x08;

/// The modifier bit of Caps Lock (Lock).
pub const MOD_CAPS_LOCK: u16 = 0x02;

/// The modifier bit of Num Lock (Mod2).
pub const MOD_NUM_LOCK: u16 = 0x10;

/// `xkeysym::key::f`.
#[verifier::external_body]
fn keysym_f() -> (keysym: u32)
    ensures
        keysym == KEYSYM_F,
{
    xkeysym::key::f
}

/// `xkeysym::key::c`.
#[verifier::external_body]
fn keysym_c() -> (keysym: u32)
    ensures
        keysym == KEYSYM_C,
{
    xkeysym::key::c
}

/// `xkeysym::key::v`.
#[verifier::external_body]
fn keysym_v() -> (keysym: u32)
    ensures
        keysym == KEYSYM_V,
{
    xkeysym::key::v
}

/// `x11rb::protocol::xproto::ModMask::M1`, as its bits.
#[verifier::external_body]
fn mask_alt() -> (bits: u16)
    ensures
        bits == MOD_ALT,
{
    u16::from(x11rb::protocol::xproto::ModMask::M1)
}

/// `x11rb::protocol::xproto::ModMask::LOCK`, as its bits.
#[verifier::external_body]
fn mask_caps_lock() -> (bits: u16)
    ensures
        bits == MOD_CAPS_LOCK,
{
    u16::from(x11rb::protocol::xproto::ModMask::LOCK)
}

/// `x11rb::protocol::xproto::ModMask::M2`, as its bits.
#[verifier::external_body]
fn mask_num_lock() -> (bits: u16)
    ensures
        bits == MOD_NUM_LOCK,
{
    u16::from(x11rb::protocol::xproto::ModMask::M2)
}

/// The four states the two lock keys can be in, as modifier bits: neither,
/// Caps Lock, Num Lock, both.
pub open spec fn lock_masks_spec() -> Seq<u16> {
    seq![0u16, MOD_CAPS_LOCK, MOD_NUM_LOCK, 0x12u16]
}

/// The lock states a grab has to be repeated for: a lock that is on would
/// otherwise keep the grab from matching.
pub fn lock_masks() -> (masks: [u16; 4])
    ensures
        masks@ == lock_masks_spec(),
        masks@[3] == MOD_CAPS_LOCK | MOD_NUM_LOCK,
{
    let caps = mask_caps_lock();
    let num = mask_num_lock();
    assert(0x02u16 | 0x10u16 == 0x12u16) by (bit_vector);
    let masks = [0u16, caps, num, caps | num];
    assert(masks@ =~= lock_masks_spec());
    masks
}

// ---------------------------------------------------------------------------
// The keyboard mapping
// ---------------------------------------------------------------------------

/// Why the hotkeys could not be set up.
#[derive(PartialEq, Eq, Structural, Debug, Clone, Copy)]
pub enum X11SetupError {
    /// The window is not an X11 window.
    NotAnX11Window,
    /// The server could not be reached, or a request to it failed.
    ConnectionFailed,
    /// The server's range of key codes is empty or does not fit.
    BadKeycodeRange,
    /// The keyboard mapping has no symbols per key code, or more rows than
    /// there are key codes.
    MalformedMapping,
    /// No key of the keyboard carries this symbol.
    NoKeycode(u32),
    /// The server refused this grab.
    GrabRefused(KeyGrab),
}

/// The number of key codes from `min_keycode` to `max_keycode`, both
/// included: what to ask the mapping for. `None` where the range is empty or
/// its size does not fit the request.
pub fn keycode_count(min_keycode: u8, max_keycode: u8) -> (count: Option<u8>)
    ensures
        count == (if min_keycode <= max_keycode && max_keycode - min_keycode + 1 <= 255 {
            Some((max_keycode - min_keycode + 1) as u8)
        } else {
            None
        }),
{
    if min_keycode > max_keycode {
        None
    } else {
        (max_keycode - min_keycode).checked_add(1)
    }
}

/// The server's table from key codes to key symbols: `keysyms_per_keycode`
/// symbols for each key code, beginning with those of `min_keycode`.
#[derive(Debug)]
pub struct KeyboardMapping {
    min_keycode: u8,
    keysyms_per_keycode: u8,
    keysyms: Vec<u32>,
}

/// The position of the first `keysym` in `keysyms`.
pub open spec fn first_position(keysyms: Seq<u32>, keysym: u32) -> Option<int> {
    if exists|j: int| 0 <= j < keysyms.len() && keysyms[j] == keysym {
        Some(
            choose|j: int|
                0 <= j < keysyms.len() && keysyms[j] == keysym && forall|k: int|
                    0 <= k < j ==> keysyms[k] != keysym,
        )
    } else {
        None
    }
}

pub proof fn lemma_first_position(keysyms: Seq<u32>, keysym: u32, j: int)
    requires
        0 <= j < keysyms.len(),
        keysyms[j] == keysym,
        forall|k: int| 0 <= k < j ==> keysyms[k] != keysym,
    ensures
        first_position(keysyms, keysym) == Some(j),
{
    let found = choose|i: int|
        0 <= i < keysyms.len() && keysyms[i] == keysym && forall|k: int|
            0 <= k < i ==> keysyms[k] != keysym;
    assert(found == j) by {
        if found < j {
            assert(keysyms[found] != keysym);
        }
        if j < found {
            assert(keysyms[j] != keysym);
        }
    }
}

pub proof fn lemma_first_position_is_first(keysyms: Seq<u32>, keysym: u32)
    ensures
        match first_position(keysyms, keysym) {
            Some(j) => 0 <= j < keysyms.len() && keysyms[j] == keysym && forall|k: int|
                0 <= k < j ==> keysyms[k] != keysym,
            None => forall|k: int| 0 <= k < keysyms.len() ==> keysyms[k] != keysym,
        },
    decreases keysyms.len(),
{
    if exists|j: int| 0 <= j < keysyms.len() && keysyms[j] == keysym {
        lemma_some_first(keysyms, keysym, keysyms.len() as int);
    }
}

proof fn lemma_some_first(keysyms: Seq<u32>, keysym: u32, upto: int)
    requires
        0 <= upto <= keysyms.len(),
        exists|j: int| 0 <= j < upto && keysyms[j] == keysym,
    ensures
        exists|j: int|
            0 <= j < keysyms.len() && keysyms[j] == keysym && forall|k: int|
                0 <= k < j ==> keysyms[k] != keysym,
    decreases upto,
{
    let j = choose|j: int| 0 <= j < upto && keysyms[j] == keysym;
    if exists|k: int| 0 <= k < j && keysyms[k] == keysym {
        lemma_some_first(keysyms, keysym, j);
    } else {
        assert(forall|k: int| 0 <= k < j ==> keysyms[k] != keysym);
    }
}

impl KeyboardMapping {
    pub closed spec fn min_keycode(&self) -> u8 {
        self.min_keycode
    }

    pub closed spec fn keysyms_per_keycode(&self) -> u8 {
        self.keysyms_per_keycode
    }

    pub closed spec fn keysyms(&self) -> Seq<u32> {
        self.keysyms@
    }

    /// Every row of the table belongs to a key code: there is at least one
    /// symbol per key code, and the last row is that of a key code not above
    /// 255.
    pub open spec fn mapping_fits(min_keycode: u8, keysyms_per_keycode: u8, keysyms: Seq<u32>) -> bool {
        &&& keysyms_per_keycode > 0
        &&& keysyms.len() > 0 ==> min_keycode + (keysyms.len() - 1) / (keysyms_per_keycode as int)
            <= 255
    }

    pub open spec fn wf(&self) -> bool {
        Self::mapping_fits(self.min_keycode(), self.keysyms_per_keycode(), self.keysyms())
    }

    #[verifier::type_invariant]
    closed spec fn fits(&self) -> bool {
        Self::mapping_fits(self.min_keycode, self.keysyms_per_keycode, self.keysyms@)
    }

    /// The key code whose row holds the first `keysym` of the table.
    pub open spec fn keycode_of(&self, keysym: u32) -> Option<u8> {
        match first_position(self.keysyms(), keysym) {
            Some(j) => Some((self.min_keycode() + j / (self.keysyms_per_keycode() as int)) as u8),
            None => None,
        }
    }

    /// Whether the row of `keycode` holds `keysym`.
    pub open spec fn row_holds(&self, keycode: u8, keysym: u32) -> bool {
        exists|j: int|
            0 <= j < self.keysyms().len() && self.keysyms()[j] == keysym && self.min_keycode() + j
                / (self.keysyms_per_keycode() as int) == keycode
    }

    /// Takes the mapping as the server replied it.
    pub fn new(min_keycode: u8, keysyms_per_keycode: u8, keysyms: Vec<u32>) -> (mapping: Result<
        Self,
        X11SetupError,
    >)
        ensures
            mapping is Ok <==> Self::mapping_fits(min_keycode, keysyms_per_keycode, keysyms@),
            mapping matches Err(e) ==> e == X11SetupError::MalformedMapping,
            mapping matches Ok(m) ==> m.wf() && m.min_keycode() == min_keycode
                && m.keysyms_per_keycode() == keysyms_per_keycode && m.keysyms() == keysyms@,
    {
        if keysyms_per_keycode == 0 {
            return Err(X11SetupError::MalformedMapping);
        }
        if keysyms.len() > 0 {
            let last_row: usize = (keysyms.len() - 1) / (keysyms_per_keycode as usize);
            if last_row > 255 - (min_keycode as usize) {
                return Err(X11SetupError::MalformedMapping);
            }
        }
        Ok(KeyboardMapping { min_keycode, keysyms_per_keycode, keysyms })
    }

    /// The key code of the first key that carries `keysym`.
    pub fn keysym_to_keycode(&self, keysym: u32) -> (keycode: Result<u8, X11SetupError>)
        ensures
            self.wf(),
            keycode == (match self.keycode_of(keysym) {
                Some(code) => Ok::<u8, X11SetupError>(code),
                None => Err::<u8, X11SetupError>(X11SetupError::NoKeycode(keysym)),
            }),
    {
        proof {
            use_type_invariant(self);
        }
        let mut j: usize = 0;
        while j < self.keysyms.len()
            invariant
                self.wf(),
                j <= self.keysyms@.len(),
                forall|k: int| 0 <= k < j ==> self.keysyms@[k] != keysym,
            decreases self.keysyms.len() - j,
        {
            if self.keysyms[j] == keysym {
                proof {
                    lemma_first_position(self.keysyms@, keysym, j as int);
                    lemma_div_is_ordered(
                        j as int,
                        self.keysyms@.len() - 1,
                        self.keysyms_per_keycode as int,
                    );
                }
                let row: usize = j / (self.keysyms_per_keycode as usize);
                return Ok(self.min_keycode + row as u8);
            }
            j = j + 1;
        }
        proof {
            lemma_first_position_is_first(self.keysyms@, keysym);
        }
        Err(X11SetupError::NoKeycode(keysym))
    }
}

/// Two symbols have the same key code only where one key carries both. So
/// on a keyboard on which no key carries two of them, the key codes of
/// different symbols differ.
pub proof fn lemma_shared_keycode_means_shared_key(mapping: KeyboardMapping, a: u32, b: u32)
    requires
        mapping.wf(),
        mapping.keycode_of(a) is Some,
        mapping.keycode_of(a) == mapping.keycode_of(b),
    ensures
        mapping.row_holds(mapping.keycode_of(a)->0, a),
        mapping.row_holds(mapping.keycode_of(a)->0, b),
{
    lemma_first_position_is_first(mapping.keysyms(), a);
    lemma_first_position_is_first(mapping.keysyms(), b);
    let ja = first_position(mapping.keysyms(), a)->0;
    let jb = first_position(mapping.keysyms(), b)->0;
    let per = mapping.keysyms_per_keycode() as int;
    let code = mapping.keycode_of(a)->0;
    lemma_div_is_ordered(ja, mapping.keysyms().len() - 1, per);
    lemma_div_is_ordered(jb, mapping.keysyms().len() - 1, per);
    assert(mapping.min_keycode() + ja / per == code);
    assert(mapping.min_keycode() + jb / per == code);
}

// ---------------------------------------------------------------------------
// The three hotkeys
// ---------------------------------------------------------------------------

/// The key codes of the keys f, c and v on this keyboard.
#[derive(PartialEq, Eq, Structural, Debug, Clone, Copy)]
pub struct HotkeyKeycodes {
    pub focus: u8,
    pub close: u8,
    pub visible: u8,
}

/// One grab to ask the server for: a key together with the modifiers that
/// have to be held.
#[derive(PartialEq, Eq, Structural, Debug, Clone, Copy)]
pub struct KeyGrab {
    pub keycode: u8,
    pub modifiers: u16,
}

impl HotkeyKeycodes {
    /// Looks the three keys up in the mapping instead of assuming a layout.
    /// The first symbol that no key carries is the error.
    pub fn resolve(mapping: &KeyboardMapping) -> (keys: Result<Self, X11SetupError>)
        ensures
            mapping.wf(),
            keys == (match (
                mapping.keycode_of(KEYSYM_F),
                mapping.keycode_of(KEYSYM_C),
                mapping.keycode_of(KEYSYM_V),
            ) {
                (Some(focus), Some(close), Some(visible)) => Ok::<Self, X11SetupError>(
                    HotkeyKeycodes { focus, close, visible },
                ),
                (None, _, _) => Err::<Self, X11SetupError>(X11SetupError::NoKeycode(KEYSYM_F)),
                (Some(_), None, _) => Err::<Self, X11SetupError>(
                    X11SetupError::NoKeycode(KEYSYM_C),
                ),
                (Some(_), Some(_), None) => Err::<Self, X11SetupError>(
                    X11SetupError::NoKeycode(KEYSYM_V),
                ),
            }),
    {
        let focus = match mapping.keysym_to_keycode(keysym_f()) {
            Ok(code) => code,
            Err(e) => {
                return Err(e);
            },
        };
        let close = match mapping.keysym_to_keycode(keysym_c()) {
            Ok(code) => code,
            Err(e) => {
                return Err(e);
            },
        };
        let visible = match mapping.keysym_to_keycode(keysym_v()) {
            Ok(code) => code,
            Err(e) => {
                return Err(e);
            },
        };
        Ok(HotkeyKeycodes { focus, close, visible })
    }

    /// The key of the hotkey at position `key` (0: focus, 1: close, else visible).
    pub open spec fn key_at(&self, key: int) -> u8 {
        if key == 0 {
            self.focus
        } else if key == 1 {
            self.close
        } else {
            self.visible
        }
    }

    /// The grabs of the three keys: each with Alt, once for every state of
    /// the two lock keys, key by key.
    pub open spec fn grab_plan_spec(&self) -> Seq<KeyGrab> {
        Seq::new(
            12,
            |i: int|
                KeyGrab { keycode: self.key_at(i / 4), modifiers: MOD_ALT | lock_masks_spec()[i % 4] },
        )
    }

    /// The grabs to ask the server for, in order.
    pub fn grab_plan(&self) -> (plan: Vec<KeyGrab>)
        ensures
            plan@ == self.grab_plan_spec(),
            plan@.len() == 12,
    {
        let alt = mask_alt();
        let locks = lock_masks();
        let keys = [self.focus, self.close, self.visible];
        let mut plan: Vec<KeyGrab> = Vec::new();
        let mut k: usize = 0;
        while k < 3
            invariant
                k <= 3,
                alt == MOD_ALT,
                locks@ == lock_masks_spec(),
                keys@ == seq![self.focus, self.close, self.visible],
                plan@.len() == 4 * k,
                forall|i: int| 0 <= i < plan@.len() ==> plan@[i] == self.grab_plan_spec()[i],
            decreases 3 - k,
        {
            let mut m: usize = 0;
            while m < 4
                invariant
                    k < 3,
                    m <= 4,
                    alt == MOD_ALT,
                    locks@ == lock_masks_spec(),
                    keys@ == seq![self.focus, self.close, self.visible],
                    plan@.len() == 4 * k + m,
                    forall|i: int| 0 <= i < plan@.len() ==> plan@[i] == self.grab_plan_spec()[i],
                decreases 4 - m,
            {
                let grab = KeyGrab { keycode: keys[k], modifiers: alt | locks[m] };
                assert(keys@[k as int] == self.key_at(k as int));
                assert((4 * k + m) / 4 == k && (4 * k + m) % 4 == m);
                plan.push(grab);
                m = m + 1;
            }
            k = k + 1;
        }
        assert(plan@ =~= self.grab_plan_spec());
        plan
    }

    pub open spec fn spec_hotkey_for(&self, keycode: u8) -> Option<HotkeyEvent> {
        if keycode == self.focus {
            Some(HotkeyEvent::Focus)
        } else if keycode == self.close {
            Some(HotkeyEvent::Close)
        } else if keycode == self.visible {
            Some(HotkeyEvent::Visible)
        } else {
            None
        }
    }

    /// The hotkey that the press of the key with this code stands for.
    #[verifier::when_used_as_spec(spec_hotkey_for)]
    pub fn hotkey_for(&self, keycode: u8) -> (event: Option<HotkeyEvent>)
        ensures
            event == self.spec_hotkey_for(keycode),
    {
        if keycode == self.focus {
            Some(HotkeyEvent::Focus)
        } else if keycode == self.close {
            Some(HotkeyEvent::Close)
        } else if keycode == self.visible {
            Some(HotkeyEvent::Visible)
        } else {
            None
        }
    }
}

/// Whether the server granted the grab at position `i`: one that was not
/// even asked for was not granted.
pub open spec fn granted_at(granted: Seq<bool>, i: int) -> bool {
    0 <= i < granted.len() && granted[i]
}

/// Says how the grabbing went. `granted[i]` is the server's answer to
/// `plan[i]`. A single refusal makes the whole set-up fail, with the first
/// refused grab as the error.
pub fn grab_outcome(plan: &Vec<KeyGrab>, granted: &Vec<bool>) -> (outcome: Result<
    (),
    X11SetupError,
>)
    ensures
        outcome is Ok <==> forall|i: int| 0 <= i < plan@.len() ==> granted_at(granted@, i),
        outcome matches Err(e) ==> exists|i: int|
            0 <= i < plan@.len() && !granted_at(granted@, i) && e == X11SetupError::GrabRefused(
                plan@[i],
            ) && forall|k: int| 0 <= k < i ==> granted_at(granted@, k),
{
    let mut i: usize = 0;
    while i < plan.len()
        invariant
            i <= plan@.len(),
            forall|k: int| 0 <= k < i ==> granted_at(granted@, k),
        decreases plan.len() - i,
    {
        if i >= granted.len() || !granted[i] {
            assert(!granted_at(granted@, i as int));
            return Err(X11SetupError::GrabRefused(plan[i]));
        }
        i = i + 1;
    }
    Ok(())
}

/// Every key is grabbed with Alt under all four lock states and under no
/// other modifiers: twelve grabs for the three keys.
pub proof fn lemma_grab_plan_covers_lock_states(keys: HotkeyKeycodes, key: int, lock: int)
    requires
        0 <= key < 3,
        0 <= lock < 4,
    ensures
        keys.grab_plan_spec().len() == 12,
        keys.grab_plan_spec()[4 * key + lock] == (KeyGrab {
            keycode: keys.key_at(key),
            modifiers: MOD_ALT | lock_masks_spec()[lock],
        }),
        lock_masks_spec() == seq![0u16, 0x02u16, 0x10u16, 0x12u16],
        MOD_ALT | lock_masks_spec()[lock] == 0x08 + lock_masks_spec()[lock],
{
    assert((4 * key + lock) / 4 == key && (4 * key + lock) % 4 == lock);
    assert(0x08u16 | 0u16 == 0x08u16) by (bit_vector);
    assert(0x08u16 | 0x02u16 == 0x0au16) by (bit_vector);
    assert(0x08u16 | 0x10u16 == 0x18u16) by (bit_vector);
    assert(0x08u16 | 0x12u16 == 0x1au16) by (bit_vector);
}

/// On a keyboard on which no key carries two of the three symbols, the
/// three key codes are pairwise different, and each key press stands for
/// exactly its own hotkey.
pub proof fn lemma_distinct_hotkey_keycodes(mapping: KeyboardMapping, keys: HotkeyKeycodes)
    requires
        mapping.wf(),
        mapping.keycode_of(KEYSYM_F) == Some(keys.focus),
        mapping.keycode_of(KEYSYM_C) == Some(keys.close),
        mapping.keycode_of(KEYSYM_V) == Some(keys.visible),
        forall|keycode: u8|
            !(mapping.row_holds(keycode, KEYSYM_F) && mapping.row_holds(keycode, KEYSYM_C)),
        forall|keycode: u8|
            !(mapping.row_holds(keycode, KEYSYM_F) && mapping.row_holds(keycode, KEYSYM_V)),
        forall|keycode: u8|
            !(mapping.row_holds(keycode, KEYSYM_C) && mapping.row_holds(keycode, KEYSYM_V)),
    ensures
        keys.focus != keys.close,
        keys.focus != keys.visible,
        keys.close != keys.visible,
        keys.hotkey_for(keys.focus) == Some(HotkeyEvent::Focus),
        keys.hotkey_for(keys.close) == Some(HotkeyEvent::Close),
        keys.hotkey_for(keys.visible) == Some(HotkeyEvent::Visible),
{
    if keys.focus == keys.close {
        lemma_shared_keycode_means_shared_key(mapping, KEYSYM_F, KEYSYM_C);
    }
    if keys.focus == keys.visible {
        lemma_shared_keycode_means_shared_key(mapping, KEYSYM_F, KEYSYM_V);
    }
    if keys.close == keys.visible {
        lemma_shared_keycode_means_shared_key(mapping, KEYSYM_C, KEYSYM_V);
    }
}

// ---------------------------------------------------------------------------
// The backend
// ---------------------------------------------------------------------------

/// The backend for X11: it reports the focus state that the listener on the
/// grabbed keys produced last. It does not move or restyle the window.
#[derive(Debug, Clone, Copy)]
pub struct NativeViewportManagerX11 {
    app_focus: FocusState,
    listening: bool,
}

/// Whether a window with a handle of this kind is one that the backend
/// serves. The host asks before it connects to the server, so that nothing
/// is grabbed for a window of another kind.
pub open spec fn spec_is_x11_window(handle: WindowHandleKind) -> bool {
    handle == WindowHandleKind::Xlib
}

#[verifier::when_used_as_spec(spec_is_x11_window)]
pub fn is_x11_window(handle: WindowHandleKind) -> (yes: bool)
    ensures
        yes == spec_is_x11_window(handle),
{
    match handle {
        WindowHandleKind::Xlib => true,
        _ => false,
    }
}

impl NativeViewportManagerX11 {
    /// Constructs the backend from the kind of the window's handle and from
    /// how the set-up of the listener went. Any failure is an error for the
    /// host to answer with the default backend.
    pub fn new(handle: WindowHandleKind, listener: Result<(), X11SetupError>) -> (manager: Result<
        Self,
        X11SetupError,
    >)
        ensures
            manager is Ok <==> is_x11_window(handle) && listener is Ok,
            manager matches Ok(m) ==> m.focus() == FocusState::Focused && m.listening(),
            manager matches Err(e) ==> e == (if !is_x11_window(handle) {
                X11SetupError::NotAnX11Window
            } else {
                listener->Err_0
            }),
    {
        if !is_x11_window(handle) {
            return Err(X11SetupError::NotAnX11Window);
        }
        match listener {
            Ok(()) => Ok(NativeViewportManagerX11 { app_focus: FocusState::Focused, listening: true }),
            Err(e) => Err(e),
        }
    }
}

impl ViewportManager for NativeViewportManagerX11 {
    closed spec fn focus(&self) -> FocusState {
        self.app_focus
    }

    closed spec fn listening(&self) -> bool {
        self.listening
    }

    open spec fn draws_gui(&self) -> bool {
        true
    }

    open spec fn background(&self) -> BackgroundColor {
        BackgroundColor::Transparent
    }

    fn update_viewport(&mut self, frame: &FrameInput) -> (command: Option<ViewportCommand>)
        ensures
            command is None,
    {
        if self.listening {
            self.app_focus = drain_focus_updates(self.app_focus, &frame.pending);
        }
        None
    }

    fn current_focus_state(&self) -> (state: FocusState) {
        self.app_focus
    }

    fn window_background_color(&self) -> (color: BackgroundColor) {
        BackgroundColor::Transparent
    }

    fn should_draw_gui(&self) -> (draw: bool) {
        true
    }
}

} // verus!
