//! The decisions of the privileged key reader: which key events make a
//! hotkey, to which user and group it drops and in what order, which input
//! devices it reads, and which clients stay connected after a notification.
//!
//! Reading devices, changing the process's identity and writing to sockets
//! are the caller's part; every function here works on plain values.

use crate::hotkey::HotkeyEvent;
use crate::text::{parse_u32, parse_u32_spec, starts_with};
use vstd::prelude::*;

verus! {

// ---------------------------------------------------------------------------
// Key codes
// ---------------------------------------------------------------------------

pub const KEY_F: u16 = 33;

pub const KEY_C: u16 = 46;

pub const KEY_V: u16 = 47;

pub const KEY_LEFT_ALT: u16 = 56;

pub const KEY_RIGHT_ALT: u16 = 100;

/// The value of a key event that reports a release.
pub const KEY_RELEASED: i32 = 0;

/// The value of a key event that reports a press (2 is an auto-repeat).
pub const KEY_PRESSED: i32 = 1;

/// `evdev::KeyCode::KEY_LEFTALT`, as its number.
#[verifier::external_body]
fn code_left_alt() -> (code: u16)
    ensures
        code == KEY_LEFT_ALT,
{
    evdev::KeyCode::KEY_LEFTALT.code()
}

/// `evdev::KeyCode::KEY_RIGHTALT`, as its number.
#[verifier::external_body]
fn code_right_alt() -> (code: u16)
    ensures
        code == KEY_RIGHT_ALT,
{
    evdev::KeyCode::KEY_RIGHTALT.code()
}

/// `evdev::KeyCode::KEY_F`, as its number.
#[verifier::external_body]
fn code_f() -> (code: u16)
    ensures
        code == KEY_F,
{
    evdev::KeyCode::KEY_F.code()
}

/// `evdev::KeyCode::KEY_C`, as its number.
#[verifier::external_body]
fn code_c() -> (code: u16)
    ensures
        code == KEY_C,
{
    evdev::KeyCode::KEY_C.code()
}

/// `evdev::KeyCode::KEY_V`, as its number.
#[verifier::external_body]
fn code_v() -> (code: u16)
    ensures
        code == KEY_V,
{
    evdev::KeyCode::KEY_V.code()
}

// ---------------------------------------------------------------------------
// From key events to hotkeys
// ---------------------------------------------------------------------------

/// One key event of an input device: the key's code and what happened to it.
#[derive(PartialEq, Eq, Structural, Debug, Clone, Copy)]
pub struct KeyEvent {
    pub code: u16,
    pub value: i32,
}

pub open spec fn is_alt(code: u16) -> bool {
    code == KEY_LEFT_ALT || code == KEY_RIGHT_ALT
}

/// The hotkey that a key stands for while Alt is held.
pub open spec fn hotkey_of(code: u16) -> Option<HotkeyEvent> {
    if code == KEY_F {
        Some(HotkeyEvent::Focus)
    } else if code == KEY_C {
        Some(HotkeyEvent::Close)
    } else if code == KEY_V {
        Some(HotkeyEvent::Visible)
    } else {
        None
    }
}

/// Whether Alt counts as held after `key`, given whether it did before.
pub open spec fn alt_after(alt_down: bool, key: KeyEvent) -> bool {
    if is_alt(key.code) {
        key.value != KEY_RELEASED
    } else {
        alt_down
    }
}

/// The hotkey that `key` completes, given whether Alt is held.
pub open spec fn hotkey_on(alt_down: bool, key: KeyEvent) -> Option<HotkeyEvent> {
    if !is_alt(key.code) && key.value == KEY_PRESSED && alt_down {
        hotkey_of(key.code)
    } else {
        None
    }
}

/// Whether Alt is held after all of `keys`, oldest first.
pub open spec fn alt_after_all(alt_down: bool, keys: Seq<KeyEvent>) -> bool
    decreases keys.len(),
{
    if keys.len() == 0 {
        alt_down
    } else {
        alt_after(alt_after_all(alt_down, keys.drop_last()), keys.last())
    }
}

/// The hotkeys that `keys` complete, in the order of the key events.
pub open spec fn hotkeys_in(alt_down: bool, keys: Seq<KeyEvent>) -> Seq<HotkeyEvent>
    decreases keys.len(),
{
    if keys.len() == 0 {
        Seq::empty()
    } else {
        let before = hotkeys_in(alt_down, keys.drop_last());
        match hotkey_on(alt_after_all(alt_down, keys.drop_last()), keys.last()) {
            Some(event) => before.push(event),
            None => before,
        }
    }
}

/// Follows the Alt key across all input devices and recognises Alt+F, Alt+C
/// and Alt+V.
#[derive(Debug, Clone, Copy)]
pub struct HotkeyTracker {
    alt_down: bool,
}

impl HotkeyTracker {
    pub closed spec fn alt_held(&self) -> bool {
        self.alt_down
    }

    pub fn new() -> (tracker: Self)
        ensures
            !tracker.alt_held(),
    {
        HotkeyTracker { alt_down: false }
    }

    #[verifier::when_used_as_spec(alt_held)]
    pub fn is_alt_held(&self) -> (held: bool)
        ensures
            held == self.alt_held(),
    {
        self.alt_down
    }

    /// Takes one key event and says which hotkey it completes, if any.
    pub fn on_key(&mut self, key: KeyEvent) -> (event: Option<HotkeyEvent>)
        ensures
            final(self).alt_held() == alt_after(old(self).alt_held(), key),
            event == hotkey_on(old(self).alt_held(), key),
    {
        let code = key.code;
        if code == code_left_alt() || code == code_right_alt() {
            self.alt_down = key.value != KEY_RELEASED;
            None
        } else if key.value == KEY_PRESSED && self.alt_down {
            if code == code_f() {
                Some(HotkeyEvent::Focus)
            } else if code == code_c() {
                Some(HotkeyEvent::Close)
            } else if code == code_v() {
                Some(HotkeyEvent::Visible)
            } else {
                None
            }
        } else {
            None
        }
    }

    /// Takes the key events that one poll of a device fetched, oldest first.
    pub fn on_keys(&mut self, keys: &Vec<KeyEvent>) -> (events: Vec<HotkeyEvent>)
        ensures
            final(self).alt_held() == alt_after_all(old(self).alt_held(), keys@),
            events@ == hotkeys_in(old(self).alt_held(), keys@),
    {
        let mut events: Vec<HotkeyEvent> = Vec::new();
        let mut i: usize = 0;
        while i < keys.len()
            invariant
                i <= keys.len(),
                self.alt_held() == alt_after_all(old(self).alt_held(), keys@.take(i as int)),
                events@ == hotkeys_in(old(self).alt_held(), keys@.take(i as int)),
            decreases keys.len() - i,
        {
            assert(keys@.take(i + 1).drop_last() =~= keys@.take(i as int));
            match self.on_key(keys[i]) {
                Some(event) => events.push(event),
                None => {},
            }
            i = i + 1;
        }
        assert(keys@.take(keys.len() as int) =~= keys@);
        events
    }
}

/// A hotkey is only ever reported for the press of F, C or V while Alt is
/// held; releases, repeats and the Alt keys themselves report nothing.
pub proof fn lemma_hotkey_needs_alt(alt_down: bool, key: KeyEvent)
    ensures
        hotkey_on(alt_down, key) is Some ==> alt_down && key.value == KEY_PRESSED && (key.code
            == KEY_F || key.code == KEY_C || key.code == KEY_V),
        hotkey_on(false, key) is None,
        is_alt(key.code) ==> hotkey_on(alt_down, key) is None,
{
}

/// Releasing either Alt key ends the combination, pressing or holding one
/// begins it, and no other key changes it.
pub proof fn lemma_alt_tracking(alt_down: bool, key: KeyEvent)
    ensures
        is_alt(key.code) && key.value == KEY_RELEASED ==> !alt_after(alt_down, key),
        is_alt(key.code) && key.value != KEY_RELEASED ==> alt_after(alt_down, key),
        !is_alt(key.code) ==> alt_after(alt_down, key) == alt_down,
{
}

// ---------------------------------------------------------------------------
// Whom to drop to
// ---------------------------------------------------------------------------

/// The id that is taken where neither the command line nor the environment
/// gives one.
pub const FALLBACK_ID: u32 = 1000;

/// The two optional command line flags, `--drop-uid` and `--drop-gid`.
#[derive(PartialEq, Eq, Structural, Debug, Clone, Copy)]
pub struct CliOpts {
    pub drop_uid: Option<u32>,
    pub drop_gid: Option<u32>,
}

/// Where an id came from.
#[derive(PartialEq, Eq, Structural, Debug, Clone, Copy)]
pub enum IdSource {
    /// The command line flag gave it.
    CommandLine,
    /// The environment variable that the elevation helper sets gave it.
    Environment,
    /// The variable is set but does not hold a number: the fallback, with a warning.
    FallbackUnparsable,
    /// Neither flag nor variable is there: the fallback, with a warning.
    FallbackUnset,
}

#[derive(PartialEq, Eq, Structural, Debug, Clone, Copy)]
pub struct ResolvedId {
    pub id: u32,
    pub source: IdSource,
}

/// The user and group that the reader drops to.
#[derive(PartialEq, Eq, Structural, Debug, Clone, Copy)]
pub struct DropTarget {
    pub uid: ResolvedId,
    pub gid: ResolvedId,
}

/// The id to drop to: the flag's where it is given, else the variable's where
/// that reads as a number, else the fallback.
pub open spec fn resolve_id_spec(flag: Option<u32>, variable: Option<Seq<char>>) -> ResolvedId {
    match flag {
        Some(id) => ResolvedId { id, source: IdSource::CommandLine },
        None => match variable {
            Some(text) => match parse_u32_spec(text) {
                Some(id) => ResolvedId { id, source: IdSource::Environment },
                None => ResolvedId { id: FALLBACK_ID, source: IdSource::FallbackUnparsable },
            },
            None => ResolvedId { id: FALLBACK_ID, source: IdSource::FallbackUnset },
        },
    }
}

pub open spec fn view_of(text: Option<&str>) -> Option<Seq<char>> {
    match text {
        Some(t) => Some(t@),
        None => None,
    }
}

/// Resolves one id from its flag and the value of its environment variable.
pub fn resolve_drop_id(flag: Option<u32>, variable: Option<&str>) -> (resolved: ResolvedId)
    ensures
        resolved == resolve_id_spec(flag, view_of(variable)),
{
    match flag {
        Some(id) => ResolvedId { id, source: IdSource::CommandLine },
        None => match variable {
            Some(text) => match parse_u32(text) {
                Some(id) => ResolvedId { id, source: IdSource::Environment },
                None => ResolvedId { id: FALLBACK_ID, source: IdSource::FallbackUnparsable },
            },
            None => ResolvedId { id: FALLBACK_ID, source: IdSource::FallbackUnset },
        },
    }
}

/// Resolves the user and the group from the command line and from the values
/// of `SUDO_UID` and `SUDO_GID`.
pub fn resolve_drop_target(opts: CliOpts, sudo_uid: Option<&str>, sudo_gid: Option<&str>) -> (target:
    DropTarget)
    ensures
        target.uid == resolve_id_spec(opts.drop_uid, view_of(sudo_uid)),
        target.gid == resolve_id_spec(opts.drop_gid, view_of(sudo_gid)),
{
    DropTarget {
        uid: resolve_drop_id(opts.drop_uid, sudo_uid),
        gid: resolve_drop_id(opts.drop_gid, sudo_gid),
    }
}

/// A flag always wins, and without one the result never depends on anything
/// but the variable.
pub proof fn lemma_flag_wins(id: u32, variable: Option<Seq<char>>)
    ensures
        resolve_id_spec(Some(id), variable).id == id,
        resolve_id_spec(None, None).id == FALLBACK_ID,
{
}

// ---------------------------------------------------------------------------
// The order of the drop
// ---------------------------------------------------------------------------

/// One change of the process's identity.
#[derive(PartialEq, Eq, Structural, Debug, Clone, Copy)]
pub enum PrivilegeStep {
    SetGroup(u32),
    SetUser(u32),
}

/// Why the drop failed. Either is fatal to the reader.
#[derive(PartialEq, Eq, Structural, Debug, Clone, Copy)]
pub enum DropFailure {
    /// The group could not be set; the user was not touched.
    SetGroupRefused,
    /// The group was set but the user could not be.
    SetUserRefused,
}

#[derive(PartialEq, Eq, Structural, Debug, Clone, Copy)]
pub enum DropPhase {
    /// Nothing was changed yet.
    Privileged,
    /// The group is dropped, the user is not.
    GroupDropped,
    /// Group and user are dropped.
    Dropped,
    Failed(DropFailure),
}

/// The drop of privileges, step by step: the caller performs the step that
/// `next_step` names and reports with `record` how it went.
#[derive(Debug, Clone, Copy)]
pub struct PrivilegeDrop {
    uid: u32,
    gid: u32,
    phase: DropPhase,
}

pub open spec fn phase_after(phase: DropPhase, succeeded: bool) -> DropPhase {
    match phase {
        DropPhase::Privileged => if succeeded {
            DropPhase::GroupDropped
        } else {
            DropPhase::Failed(DropFailure::SetGroupRefused)
        },
        DropPhase::GroupDropped => if succeeded {
            DropPhase::Dropped
        } else {
            DropPhase::Failed(DropFailure::SetUserRefused)
        },
        DropPhase::Dropped => DropPhase::Dropped,
        DropPhase::Failed(failure) => DropPhase::Failed(failure),
    }
}

/// The phase after the outcomes of the steps performed so far, oldest first.
pub open spec fn phase_after_all(outcomes: Seq<bool>) -> DropPhase
    decreases outcomes.len(),
{
    if outcomes.len() == 0 {
        DropPhase::Privileged
    } else {
        phase_after(phase_after_all(outcomes.drop_last()), outcomes.last())
    }
}

impl PrivilegeDrop {
    pub closed spec fn uid(&self) -> u32 {
        self.uid
    }

    pub closed spec fn gid(&self) -> u32 {
        self.gid
    }

    pub closed spec fn spec_phase(&self) -> DropPhase {
        self.phase
    }

    /// The step that is due in this state.
    pub open spec fn spec_next_step(&self) -> Option<PrivilegeStep> {
        match self.spec_phase() {
            DropPhase::Privileged => Some(PrivilegeStep::SetGroup(self.gid())),
            DropPhase::GroupDropped => Some(PrivilegeStep::SetUser(self.uid())),
            DropPhase::Dropped => None,
            DropPhase::Failed(_) => None,
        }
    }

    pub fn new(uid: u32, gid: u32) -> (drop: Self)
        ensures
            drop.uid() == uid,
            drop.gid() == gid,
            drop.spec_phase() == DropPhase::Privileged,
    {
        PrivilegeDrop { uid, gid, phase: DropPhase::Privileged }
    }

    #[verifier::when_used_as_spec(spec_phase)]
    pub fn phase(&self) -> (phase: DropPhase)
        ensures
            phase == self.spec_phase(),
    {
        self.phase
    }

    /// The step to perform now: the group first, then the user, then nothing.
    #[verifier::when_used_as_spec(spec_next_step)]
    pub fn next_step(&self) -> (step: Option<PrivilegeStep>)
        ensures
            step == self.spec_next_step(),
    {
        match self.phase {
            DropPhase::Privileged => Some(PrivilegeStep::SetGroup(self.gid)),
            DropPhase::GroupDropped => Some(PrivilegeStep::SetUser(self.uid)),
            DropPhase::Dropped => None,
            DropPhase::Failed(_) => None,
        }
    }

    /// Records how the step that `next_step` named went.
    pub fn record(&mut self, succeeded: bool)
        ensures
            final(self).uid() == old(self).uid(),
            final(self).gid() == old(self).gid(),
            final(self).spec_phase() == phase_after(old(self).spec_phase(), succeeded),
    {
        self.phase =
        match self.phase {
            DropPhase::Privileged => if succeeded {
                DropPhase::GroupDropped
            } else {
                DropPhase::Failed(DropFailure::SetGroupRefused)
            },
            DropPhase::GroupDropped => if succeeded {
                DropPhase::Dropped
            } else {
                DropPhase::Failed(DropFailure::SetUserRefused)
            },
            DropPhase::Dropped => DropPhase::Dropped,
            DropPhase::Failed(failure) => DropPhase::Failed(failure),
        };
    }

    /// How the drop ended: `None` while a step is still due.
    pub fn outcome(&self) -> (result: Option<Result<(), DropFailure>>)
        ensures
            result == (match self.spec_phase() {
                DropPhase::Dropped => Some(Ok::<(), DropFailure>(())),
                DropPhase::Failed(failure) => Some(Err::<(), DropFailure>(failure)),
                _ => None::<Result<(), DropFailure>>,
            }),
    {
        match self.phase {
            DropPhase::Dropped => Some(Ok(())),
            DropPhase::Failed(failure) => Some(Err(failure)),
            _ => None,
        }
    }
}

/// The group goes before the user: whatever the outcomes, the user is only
/// ever changed after the group was changed with success, and the drop is
/// complete only after both succeeded, in that order.
pub proof fn lemma_group_before_user(outcomes: Seq<bool>)
    ensures
        phase_after_all(outcomes) == DropPhase::Privileged <==> outcomes.len() == 0,
        phase_after_all(outcomes) == DropPhase::GroupDropped <==> outcomes == seq![true],
        phase_after_all(outcomes) == DropPhase::Dropped <==> outcomes.len() >= 2 && outcomes[0]
            && outcomes[1],
        phase_after_all(outcomes) == DropPhase::Failed(DropFailure::SetGroupRefused)
            <==> outcomes.len() >= 1 && !outcomes[0],
        phase_after_all(outcomes) == DropPhase::Failed(DropFailure::SetUserRefused)
            <==> outcomes.len() >= 2 && outcomes[0] && !outcomes[1],
    decreases outcomes.len(),
{
    if outcomes.len() > 0 {
        let before = outcomes.drop_last();
        lemma_group_before_user(before);
        if before.len() == 0 {
            assert(outcomes =~= seq![outcomes[0]]);
        } else {
            assert(before[0] == outcomes[0]);
            if before.len() >= 2 {
                assert(before[1] == outcomes[1]);
            } else {
                assert(before =~= seq![before[0]]);
            }
        }
    }
}

/// A failure is final: once a step was refused no further step is due and
/// no later report changes the outcome.
pub proof fn lemma_failure_is_final(drop: PrivilegeDrop, failure: DropFailure, succeeded: bool)
    requires
        drop.spec_phase() == DropPhase::Failed(failure),
    ensures
        drop.next_step() is None,
        phase_after(drop.spec_phase(), succeeded) == drop.spec_phase(),
{
}

// ---------------------------------------------------------------------------
// Which devices to read
// ---------------------------------------------------------------------------

/// The beginning of the file name of every event device node.
pub const EVENT_NODE_PREFIX: &'static str = "event";

/// Why the reader cannot start.
#[derive(PartialEq, Eq, Structural, Debug, Clone, Copy)]
pub enum DaemonError {
    /// No input device that reports keys could be opened.
    NoInputDevices,
}

/// What is known of one entry of the input device directory.
#[derive(Debug, Clone)]
pub struct DeviceCandidate {
    /// The entry's file name.
    pub file_name: String,
    /// The number of key codes the device reports; `None` where it could not
    /// be opened or was not tried.
    pub key_count: Option<usize>,
}

pub open spec fn is_event_node_name(file_name: Seq<char>) -> bool {
    EVENT_NODE_PREFIX@.is_prefix_of(file_name)
}

/// A keyboard, for this purpose, is an event node that could be opened and
/// reports at least one key code.
pub open spec fn is_keyboard(candidate: DeviceCandidate) -> bool {
    &&& is_event_node_name(candidate.file_name@)
    &&& candidate.key_count matches Some(n) && n > 0
}

/// Whether a directory entry is an event device node, going by its name.
pub fn is_event_node(file_name: &str) -> (yes: bool)
    ensures
        yes == is_event_node_name(file_name@),
{
    starts_with(file_name, EVENT_NODE_PREFIX)
}

/// Picks the devices to read from: the positions in `candidates` of all
/// keyboards, in order. Without a single one the reader cannot do anything
/// useful, which is an error.
pub fn select_keyboards(candidates: &Vec<DeviceCandidate>) -> (selected: Result<
    Vec<usize>,
    DaemonError,
>)
    ensures
        selected is Err <==> forall|i: int|
            0 <= i < candidates@.len() ==> !is_keyboard(#[trigger] candidates@[i]),
        selected matches Err(e) ==> e == DaemonError::NoInputDevices,
        selected matches Ok(picked) ==> {
            &&& picked@.len() > 0
            &&& forall|k: int|
                0 <= k < picked@.len() ==> picked@[k] < candidates@.len() && is_keyboard(
                    candidates@[#[trigger] picked@[k] as int],
                )
            &&& forall|k: int, l: int| 0 <= k < l < picked@.len() ==> picked@[k] < picked@[l]
            &&& forall|i: int|
                0 <= i < candidates@.len() && is_keyboard(#[trigger] candidates@[i])
                    ==> picked@.contains(i as usize)
        },
{
    let mut picked: Vec<usize> = Vec::new();
    let mut i: usize = 0;
    while i < candidates.len()
        invariant
            i <= candidates.len(),
            forall|k: int|
                0 <= k < picked@.len() ==> picked@[k] < i && is_keyboard(
                    candidates@[#[trigger] picked@[k] as int],
                ),
            forall|k: int, l: int| 0 <= k < l < picked@.len() ==> picked@[k] < picked@[l],
            forall|j: int|
                0 <= j < i && is_keyboard(#[trigger] candidates@[j]) ==> picked@.contains(
                    j as usize,
                ),
        decreases candidates.len() - i,
    {
        let candidate = &candidates[i];
        let keys = match candidate.key_count {
            Some(n) => n > 0,
            None => false,
        };
        if keys && is_event_node(candidate.file_name.as_str()) {
            let ghost before = picked@;
            picked.push(i);
            assert(picked@[before.len() as int] == i);
            assert forall|j: int|
                0 <= j < i + 1 && is_keyboard(#[trigger] candidates@[j]) implies picked@.contains(
                j as usize,
            ) by {
                if j < i {
                    let k = choose|k: int| 0 <= k < before.len() && before[k] == j as usize;
                    assert(picked@[k] == j as usize);
                }
            }
        }
        i = i + 1;
    }
    if picked.len() == 0 {
        assert forall|j: int| 0 <= j < candidates@.len() implies !is_keyboard(
            #[trigger] candidates@[j],
        ) by {
            if is_keyboard(candidates@[j]) {
                assert(picked@.contains(j as usize));
            }
        }
        Err(DaemonError::NoInputDevices)
    } else {
        assert(is_keyboard(candidates@[picked@[0] as int]));
        Ok(picked)
    }
}

// ---------------------------------------------------------------------------
// Who stays connected
// ---------------------------------------------------------------------------

/// Whether the client at position `i` stays after a notification: it does
/// unless a write to it was tried and failed.
pub open spec fn stays(delivered: Seq<bool>, i: int) -> bool {
    !(0 <= i < delivered.len()) || delivered[i]
}

/// The clients from position `from` on that stay, in order.
pub open spec fn staying_from<T>(clients: Seq<T>, delivered: Seq<bool>, from: int) -> Seq<T>
    decreases clients.len() - from,
{
    if from < 0 || from >= clients.len() {
        Seq::empty()
    } else if stays(delivered, from) {
        seq![clients[from]] + staying_from(clients, delivered, from + 1)
    } else {
        staying_from(clients, delivered, from + 1)
    }
}

/// The clients that stay connected after one notification, in their order.
pub open spec fn staying<T>(clients: Seq<T>, delivered: Seq<bool>) -> Seq<T> {
    staying_from(clients, delivered, 0)
}

/// Removes, in the same pass, every client to which the write failed.
///
/// `delivered[i]` says whether the line reached `clients[i]`. The order of
/// the others is kept; nothing else is removed.
pub fn drop_failed_clients<T>(clients: &mut Vec<T>, delivered: &Vec<bool>)
    ensures
        final(clients)@ == staying(old(clients)@, delivered@),
{
    let ghost before = clients@;
    let mut i: usize = clients.len();
    assert(clients@ =~= before.take(i as int) + staying_from(before, delivered@, i as int));
    while i > 0
        invariant
            i <= before.len(),
            clients@ == before.take(i as int) + staying_from(before, delivered@, i as int),
        decreases i,
    {
        i = i - 1;
        let ghost rest = staying_from(before, delivered@, i + 1);
        assert(clients@.len() >= i + 1);
        if i < delivered.len() && !delivered[i] {
            clients.remove(i);
            assert(clients@ =~= before.take(i as int) + rest);
        } else {
            assert(before.take(i + 1) + rest =~= before.take(i as int) + (seq![before[i as int]]
                + rest));
        }
    }
    assert(before.take(0) + staying(before, delivered@) =~= staying(before, delivered@));
}

pub proof fn lemma_staying_from_members<T>(clients: Seq<T>, delivered: Seq<bool>, from: int)
    requires
        0 <= from <= clients.len(),
    ensures
        forall|i: int|
            from <= i < clients.len() && stays(delivered, i) ==> staying_from(
                clients,
                delivered,
                from,
            ).contains(#[trigger] clients[i]),
        forall|x: T|
            staying_from(clients, delivered, from).contains(x) ==> exists|i: int|
                from <= i < clients.len() && stays(delivered, i) && clients[i] == x,
        staying_from(clients, delivered, from).len() <= clients.len() - from,
    decreases clients.len() - from,
{
    let here = staying_from(clients, delivered, from);
    if from < clients.len() {
        let rest = staying_from(clients, delivered, from + 1);
        lemma_staying_from_members(clients, delivered, from + 1);
        assert forall|i: int| from <= i < clients.len() && stays(delivered, i) implies here.contains(
            #[trigger] clients[i],
        ) by {
            if i == from {
                assert(here[0] == clients[from]);
            } else {
                let k = choose|k: int| 0 <= k < rest.len() && rest[k] == clients[i];
                if stays(delivered, from) {
                    assert(here[k + 1] == clients[i]);
                } else {
                    assert(here[k] == clients[i]);
                }
            }
        }
        assert forall|x: T| here.contains(x) implies exists|i: int|
            from <= i < clients.len() && stays(delivered, i) && clients[i] == x by {
            let k = choose|k: int| 0 <= k < here.len() && here[k] == x;
            if stays(delivered, from) && k == 0 {
                assert(clients[from] == x);
            } else {
                let k2 = if stays(delivered, from) {
                    k - 1
                } else {
                    k
                };
                assert(rest[k2] == x);
                assert(rest.contains(x));
            }
        }
    }
}

/// Fan-out keeps exactly the clients that were reached: one to which the
/// write succeeded is still in the list after the pass, and none to which it
/// failed is (as long as every client is in the list once).
pub proof fn lemma_failed_clients_leave<T>(clients: Seq<T>, delivered: Seq<bool>)
    requires
        clients.len() == delivered.len(),
        clients.no_duplicates(),
    ensures
        forall|i: int|
            0 <= i < clients.len() ==> (staying(clients, delivered).contains(#[trigger] clients[i])
                <==> delivered[i]),
        forall|x: T| staying(clients, delivered).contains(x) ==> clients.contains(x),
{
    lemma_staying_from_members(clients, delivered, 0);
    assert forall|i: int| 0 <= i < clients.len() implies (staying(clients, delivered).contains(
        #[trigger] clients[i],
    ) <==> delivered[i]) by {
        if staying(clients, delivered).contains(clients[i]) {
            let j = choose|j: int|
                0 <= j < clients.len() && stays(delivered, j) && clients[j] == clients[i];
            assert(j == i);
        }
    }
}

/// Where every write succeeds nobody leaves, and where every write fails
/// nobody stays.
pub proof fn lemma_all_or_nothing<T>(clients: Seq<T>, delivered: Seq<bool>, from: int)
    requires
        clients.len() == delivered.len(),
        0 <= from <= clients.len(),
    ensures
        (forall|i: int| from <= i < delivered.len() ==> delivered[i]) ==> staying_from(
            clients,
            delivered,
            from,
        ) == clients.skip(from),
        (forall|i: int| from <= i < delivered.len() ==> !delivered[i]) ==> staying_from(
            clients,
            delivered,
            from,
        ) == Seq::<T>::empty(),
    decreases clients.len() - from,
{
    if from < clients.len() {
        lemma_all_or_nothing(clients, delivered, from + 1);
        if forall|i: int| from <= i < delivered.len() ==> delivered[i] {
            assert(clients.skip(from) =~= seq![clients[from]] + clients.skip(from + 1));
        }
    } else {
        assert(clients.skip(from) =~= Seq::<T>::empty());
    }
}

/// The mode of the socket file: the owner reads and writes, others read.
pub const SOCKET_MODE: u32 = 0o644;

/// The file name of the socket, next to the executable.
pub const SOCKET_FILE_NAME: &'static str = "hotkeys.sock";

/// How long the reader sleeps between two polls of the devices.
pub const POLL_INTERVAL_MILLIS: u64 = 10;

} // verus!
