//! The focus state of the overlay and the last-write-wins rule by which the
//! frame thread takes over the updates that a hotkey listener produced.

use vstd::prelude::*;

verus! {

/// Interaction state of the overlay window.
///
/// `Focused`: the overlay is interactive and topmost. `Unfocused`: the overlay
/// is visible but input passes through to the window underneath. `Hidden`: the
/// overlay is not shown and has to be brought back explicitly.
#[derive(PartialEq, Eq, Structural, Hash, Debug, Clone, Copy)]
pub enum FocusState {
    Focused,
    Unfocused,
    Hidden,
}

impl FocusState {
    pub open spec fn spec_is_focused(&self) -> bool {
        *self == FocusState::Focused
    }

    pub open spec fn spec_is_unfocused(&self) -> bool {
        *self == FocusState::Unfocused
    }

    pub open spec fn spec_is_hidden(&self) -> bool {
        *self == FocusState::Hidden
    }

    /// The state every backend starts in.
    pub open spec fn initial() -> FocusState {
        FocusState::Focused
    }

    #[verifier::when_used_as_spec(spec_is_focused)]
    pub fn is_focused(&self) -> (b: bool)
        ensures
            b == self.spec_is_focused(),
    {
        *self == FocusState::Focused
    }

    #[verifier::when_used_as_spec(spec_is_unfocused)]
    pub fn is_unfocused(&self) -> (b: bool)
        ensures
            b == self.spec_is_unfocused(),
    {
        *self == FocusState::Unfocused
    }

    #[verifier::when_used_as_spec(spec_is_hidden)]
    pub fn is_hidden(&self) -> (b: bool)
        ensures
            b == self.spec_is_hidden(),
    {
        *self == FocusState::Hidden
    }
}

/// The state a consumer holds after it has taken over `pending`, oldest
/// first, starting from `current`: the newest pending value, or `current`
/// itself where nothing is pending.
pub open spec fn latest_focus(current: FocusState, pending: Seq<FocusState>) -> FocusState {
    if pending.len() == 0 {
        current
    } else {
        pending.last()
    }
}

/// Takes over every pending update in one pass and keeps only the last one.
///
/// `pending` holds what the listener produced since the previous tick, oldest
/// first. Nothing blocks: an empty `pending` leaves the state as it is.
pub fn drain_focus_updates(current: FocusState, pending: &Vec<FocusState>) -> (state: FocusState)
    ensures
        state == latest_focus(current, pending@),
{
    let mut state = current;
    let mut i: usize = 0;
    while i < pending.len()
        invariant
            i <= pending.len(),
            state == latest_focus(current, pending@.take(i as int)),
        decreases pending.len() - i,
    {
        state = pending[i];
        i = i + 1;
    }
    assert(pending@.take(pending.len() as int) =~= pending@);
    state
}

/// Of the three predicates exactly one holds of any state.
pub proof fn lemma_exactly_one_predicate(s: FocusState)
    ensures
        s.is_focused() || s.is_unfocused() || s.is_hidden(),
        !(s.is_focused() && s.is_unfocused()),
        !(s.is_focused() && s.is_hidden()),
        !(s.is_unfocused() && s.is_hidden()),
{
}

/// Two states are the same state exactly when the three predicates agree on
/// them; and a predicate that holds of one of two different states does not
/// hold of the other.
pub proof fn lemma_predicates_tell_states_apart(a: FocusState, b: FocusState)
    ensures
        a == b <==> (a.is_focused() == b.is_focused() && a.is_unfocused() == b.is_unfocused()
            && a.is_hidden() == b.is_hidden()),
        a != b ==> !(a.is_focused() && b.is_focused()),
        a != b ==> !(a.is_unfocused() && b.is_unfocused()),
        a != b ==> !(a.is_hidden() && b.is_hidden()),
{
}

/// Last write wins: where anything is pending, the drained state is the
/// newest pending value, whatever the state before and whatever the values
/// that were pushed in between.
pub proof fn lemma_last_write_wins(
    current: FocusState,
    other: FocusState,
    earlier: Seq<FocusState>,
    other_earlier: Seq<FocusState>,
    newest: FocusState,
)
    ensures
        latest_focus(current, earlier.push(newest)) == newest,
        latest_focus(current, earlier.push(newest)) == latest_focus(
            other,
            other_earlier.push(newest),
        ),
{
}

/// Draining in two passes gives what one pass over both batches gives, so
/// it does not matter where a tick falls between two pushes.
pub proof fn lemma_drain_in_two_passes(
    current: FocusState,
    first: Seq<FocusState>,
    second: Seq<FocusState>,
)
    ensures
        latest_focus(latest_focus(current, first), second) == latest_focus(current, first + second),
{
    if second.len() > 0 {
        assert((first + second).last() == second.last());
    } else {
        assert(first + second =~= first);
    }
}

/// A drain with nothing pending changes nothing, so a state holds between
/// ticks until a listener pushes another.
pub proof fn lemma_idle_drain_keeps_state(current: FocusState)
    ensures
        latest_focus(current, Seq::empty()) == current,
{
}

} // verus!
