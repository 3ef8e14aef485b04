//! The three hotkey events and the text that stands for each of them on the
//! socket between the privileged key reader and the overlay.

use crate::focus::FocusState;
use crate::text::{push_char, same_text};
use vstd::prelude::*;

verus! {

/// What the key reader writes when Alt+F was pressed.
pub const FOCUS_TOKEN: &'static str = "focus";

/// What the key reader writes when Alt+C was pressed.
pub const CLOSE_TOKEN: &'static str = "close";

/// What the key reader writes when Alt+V was pressed.
pub const VISIBLE_TOKEN: &'static str = "visible";

/// A recognised global key combination.
#[derive(PartialEq, Eq, Structural, Hash, Debug, Clone, Copy)]
pub enum HotkeyEvent {
    /// Alt+F: bring the overlay to the front and make it interactive.
    Focus,
    /// Alt+C: hide the overlay.
    Close,
    /// Alt+V: show the overlay but let input pass through it.
    Visible,
}

impl HotkeyEvent {
    pub open spec fn spec_focus_state(self) -> FocusState {
        match self {
            HotkeyEvent::Focus => FocusState::Focused,
            HotkeyEvent::Close => FocusState::Hidden,
            HotkeyEvent::Visible => FocusState::Unfocused,
        }
    }

    /// The focus state that the overlay takes on this event.
    #[verifier::when_used_as_spec(spec_focus_state)]
    pub fn focus_state(self) -> (state: FocusState)
        ensures
            state == self.spec_focus_state(),
    {
        match self {
            HotkeyEvent::Focus => FocusState::Focused,
            HotkeyEvent::Close => FocusState::Hidden,
            HotkeyEvent::Visible => FocusState::Unfocused,
        }
    }

    /// The token of this event, without the line end.
    pub open spec fn token_text(self) -> Seq<char> {
        match self {
            HotkeyEvent::Focus => FOCUS_TOKEN@,
            HotkeyEvent::Close => CLOSE_TOKEN@,
            HotkeyEvent::Visible => VISIBLE_TOKEN@,
        }
    }

    /// The line that goes over the socket: the token and one line feed.
    pub open spec fn wire_text(self) -> Seq<char> {
        self.token_text().push('\n')
    }

    /// The event that a received line stands for, if any.
    pub open spec fn from_token_text(line: Seq<char>) -> Option<HotkeyEvent> {
        if line == FOCUS_TOKEN@ {
            Some(HotkeyEvent::Focus)
        } else if line == CLOSE_TOKEN@ {
            Some(HotkeyEvent::Close)
        } else if line == VISIBLE_TOKEN@ {
            Some(HotkeyEvent::Visible)
        } else {
            None
        }
    }

    pub fn token(self) -> (token: &'static str)
        ensures
            token@ == self.token_text(),
    {
        match self {
            HotkeyEvent::Focus => FOCUS_TOKEN,
            HotkeyEvent::Close => CLOSE_TOKEN,
            HotkeyEvent::Visible => VISIBLE_TOKEN,
        }
    }

    /// The line to write to every client for this event.
    pub fn wire_line(self) -> (line: String)
        ensures
            line@ == self.wire_text(),
    {
        let mut line = self.token().to_owned();
        push_char(&mut line, '\n');
        line
    }

    /// Reads one received line, already without its line end. A line that is
    /// none of the three tokens stands for nothing and is to be ignored.
    pub fn from_token(line: &str) -> (event: Option<HotkeyEvent>)
        ensures
            event == Self::from_token_text(line@),
    {
        if same_text(line, FOCUS_TOKEN) {
            Some(HotkeyEvent::Focus)
        } else if same_text(line, CLOSE_TOKEN) {
            Some(HotkeyEvent::Close)
        } else if same_text(line, VISIBLE_TOKEN) {
            Some(HotkeyEvent::Visible)
        } else {
            None
        }
    }
}

/// What the tokens are, letter by letter.
pub proof fn lemma_token_letters()
    ensures
        FOCUS_TOKEN@ == seq!['f', 'o', 'c', 'u', 's'],
        CLOSE_TOKEN@ == seq!['c', 'l', 'o', 's', 'e'],
        VISIBLE_TOKEN@ == seq!['v', 'i', 's', 'i', 'b', 'l', 'e'],
{
    reveal_strlit("focus");
    reveal_strlit("close");
    reveal_strlit("visible");
    assert(FOCUS_TOKEN@ =~= seq!['f', 'o', 'c', 'u', 's']);
    assert(CLOSE_TOKEN@ =~= seq!['c', 'l', 'o', 's', 'e']);
    assert(VISIBLE_TOKEN@ =~= seq!['v', 'i', 's', 'i', 'b', 'l', 'e']);
}

/// What is written for an event reads back as that event, and only the
/// event's own token reads as it: the three tokens are pairwise different.
pub proof fn lemma_token_round_trip(event: HotkeyEvent, line: Seq<char>)
    ensures
        HotkeyEvent::from_token_text(event.token_text()) == Some(event),
        HotkeyEvent::from_token_text(line) == Some(event) <==> line == event.token_text(),
{
    lemma_token_letters();
    assert(FOCUS_TOKEN@[0] == 'f' && CLOSE_TOKEN@[0] == 'c' && VISIBLE_TOKEN@[0] == 'v');
}

/// A token holds no line feed, so the line feed that ends a wire line is
/// the only one in it, and a line holds exactly one token.
pub proof fn lemma_wire_line_is_one_line(event: HotkeyEvent)
    ensures
        forall|i: int| 0 <= i < event.token_text().len() ==> event.token_text()[i] != '\n',
        event.wire_text().last() == '\n',
        event.wire_text().drop_last() == event.token_text(),
{
    lemma_token_letters();
    assert(event.wire_text().drop_last() =~= event.token_text());
}

/// The three events lead to three different focus states, and every focus
/// state is reached by one of them.
pub proof fn lemma_events_cover_states(a: HotkeyEvent, b: HotkeyEvent, state: FocusState)
    ensures
        a.focus_state() == b.focus_state() <==> a == b,
        exists|e: HotkeyEvent| e.focus_state() == state,
{
    match state {
        FocusState::Focused => assert(HotkeyEvent::Focus.focus_state() == state),
        FocusState::Hidden => assert(HotkeyEvent::Close.focus_state() == state),
        FocusState::Unfocused => assert(HotkeyEvent::Visible.focus_state() == state),
    }
}

} // verus!
