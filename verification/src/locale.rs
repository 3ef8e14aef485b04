//! The records of the game's data dumps and the rules by which names are
//! brought into one form before they are looked up or written out.

use crate::text::{
    char_is_alphabetic, char_is_alphanumeric, char_to_lowercase, chars_of, is_alphabetic_char,
    is_alphanumeric_char, lowercase_of_char, lowercase_text, string_of, to_lowercase,
};
use vstd::prelude::*;
use vstd::string::StringExecFns;

verus! {

// ---------------------------------------------------------------------------
// Records
// ---------------------------------------------------------------------------

/// An entry of a dump that has nothing but an id and a name.
#[derive(Debug, Clone)]
pub struct Entry {
    pub id: u32,
    pub name: String,
}

/// An item: its id, its name and its description.
#[derive(Debug, Clone)]
pub struct Item {
    pub id: u32,
    pub name: String,
    pub desc: String,
}

/// Where one monster is met.
#[derive(Debug, Clone)]
pub struct MonsterLocations {
    pub id: u32,
    pub locations: Vec<Location>,
}

/// One place at which a monster is met, as the dump has it.
#[derive(Debug, Clone)]
pub struct Location {
    pub name: String,
    pub encounter_type: String,
    pub region_id: u8,
    pub region_name: String,
    pub min_level: u8,
    pub max_level: u8,
    pub rarity: String,
}

/// What is known of one place: the monsters that are met there.
#[derive(Debug, Clone)]
pub struct LocationInfo {
    pub base_name: String,
    pub region_id: u8,
    pub region_base_name: String,
    pub encounters: Vec<Encounter>,
}

/// One monster that is met at a place, and when.
#[derive(Debug, Clone)]
pub struct Encounter {
    pub encounter_type: String,
    pub pokemon_id: u32,
    pub min_level: u8,
    pub max_level: u8,
    pub time_restrictions: Vec<String>,
    pub rarity: String,
}

// ---------------------------------------------------------------------------
// Names
// ---------------------------------------------------------------------------

/// The form in which a name is a key of a lookup: in lower case.
pub fn normalize_name(name: String) -> (normalized: String)
    ensures
        normalized@ == lowercase_text(name@),
{
    to_lowercase(name.as_str())
}

/// What becomes of the character `c` that follows `prev`: within a word a
/// letter is written small, everything else stays.
pub open spec fn normal_case_piece(prev: char, c: char) -> Seq<char> {
    if is_alphanumeric_char(prev) && is_alphabetic_char(c) {
        lowercase_of_char(c)
    } else {
        seq![c]
    }
}

/// The character before position `i`; before the first one, a blank.
pub open spec fn char_before(text: Seq<char>, i: int) -> char {
    if i <= 0 {
        ' '
    } else {
        text[i - 1]
    }
}

/// `text` with every letter written small that follows a letter or a digit.
/// The first letter of each word is left as it is.
pub open spec fn normal_case_text(text: Seq<char>) -> Seq<char>
    decreases text.len(),
{
    if text.len() == 0 {
        Seq::empty()
    } else {
        normal_case_text(text.drop_last()) + normal_case_piece(
            char_before(text, text.len() - 1),
            text.last(),
        )
    }
}

/// What becomes of one character, given what is known of it and of the one
/// before it: `lowered` where it is a letter within a word, else itself.
pub fn normal_case_step(
    prev_is_alphanumeric: bool,
    is_alphabetic: bool,
    c: char,
    lowered: Vec<char>,
) -> (piece: Vec<char>)
    ensures
        piece@ == (if prev_is_alphanumeric && is_alphabetic {
            lowered@
        } else {
            seq![c]
        }),
{
    if prev_is_alphanumeric && is_alphabetic {
        lowered
    } else {
        let mut piece: Vec<char> = Vec::new();
        piece.push(c);
        piece
    }
}

/// Writes names that come in capitals as words: `ROCK TUNNEL` becomes
/// `Rock Tunnel`.
pub fn convert_string_to_normal_case(s: &str) -> (name: String)
    ensures
        name@ == normal_case_text(s@),
{
    let chars = chars_of(s);
    let mut out: Vec<char> = Vec::new();
    let mut prev: char = ' ';
    let mut i: usize = 0;
    while i < chars.len()
        invariant
            i <= chars.len(),
            chars@ == s@,
            prev == char_before(chars@, i as int),
            out@ == normal_case_text(chars@.take(i as int)),
        decreases chars.len() - i,
    {
        let c = chars[i];
        let prev_is_alphanumeric = char_is_alphanumeric(prev);
        let is_alphabetic = char_is_alphabetic(c);
        let lowered = if prev_is_alphanumeric && is_alphabetic {
            char_to_lowercase(c)
        } else {
            Vec::new()
        };
        let mut piece = normal_case_step(prev_is_alphanumeric, is_alphabetic, c, lowered);
        proof {
            let longer = chars@.take(i + 1);
            assert(longer.drop_last() =~= chars@.take(i as int));
            assert(longer.last() == c);
            assert(char_before(longer, longer.len() - 1) == prev);
            assert(piece@ == normal_case_piece(prev, c));
        }
        out.append(&mut piece);
        prev = c;
        i = i + 1;
    }
    assert(chars@.take(chars.len() as int) =~= chars@);
    string_of(&out)
}

/// Each character of a text is dealt with by itself: what becomes of a
/// text that is continued is what became of its beginning, continued.
pub proof fn lemma_normal_case_grows(text: Seq<char>, c: char)
    ensures
        normal_case_text(text.push(c)) == normal_case_text(text) + normal_case_piece(
            char_before(text.push(c), text.len() as int),
            c,
        ),
        normal_case_text(Seq::empty()) == Seq::<char>::empty(),
{
    assert(text.push(c).drop_last() =~= text);
}

// ---------------------------------------------------------------------------
// Source directories
// ---------------------------------------------------------------------------

/// What was found out about one file that a directory has to hold.
#[derive(Debug, Clone)]
pub struct FileProbe {
    /// The file's name within the directory.
    pub name: String,
    /// The path that was looked at.
    pub checked_path: String,
    pub exists: bool,
}

/// What was found out about a source directory.
#[derive(Debug, Clone)]
pub struct DirProbe {
    /// The directory's path, as it is shown to the user.
    pub path: String,
    pub exists: bool,
    pub is_dir: bool,
    /// The files that the directory has to hold, in the order in which they
    /// are asked for.
    pub required: Vec<FileProbe>,
}

/// Why a source directory cannot be used.
#[derive(PartialEq, Eq, Structural, Debug, Clone, Copy)]
pub enum DirError {
    /// Nothing is there under the path.
    Missing,
    /// What is there is no directory.
    NotADirectory,
    /// The required file at this position is not there.
    MissingFile(usize),
}

/// Checks that a directory exists, is a directory and holds every required
/// file. The first thing that is wrong is the error.
pub fn validate_dir(probe: &DirProbe) -> (outcome: Result<(), DirError>)
    ensures
        outcome is Ok <==> probe.exists && probe.is_dir && forall|i: int|
            0 <= i < probe.required@.len() ==> probe.required@[i].exists,
        outcome == Err::<(), DirError>(DirError::Missing) <==> !probe.exists,
        outcome == Err::<(), DirError>(DirError::NotADirectory) <==> probe.exists && !probe.is_dir,
        outcome matches Err(DirError::MissingFile(i)) ==> probe.exists && probe.is_dir && i
            < probe.required@.len() && !probe.required@[i as int].exists && forall|k: int|
            0 <= k < i ==> probe.required@[k].exists,
{
    if !probe.exists {
        return Err(DirError::Missing);
    }
    if !probe.is_dir {
        return Err(DirError::NotADirectory);
    }
    let mut i: usize = 0;
    while i < probe.required.len()
        invariant
            probe.exists,
            probe.is_dir,
            i <= probe.required@.len(),
            forall|k: int| 0 <= k < i ==> probe.required@[k].exists,
        decreases probe.required.len() - i,
    {
        if !probe.required[i].exists {
            return Err(DirError::MissingFile(i));
        }
        i = i + 1;
    }
    Ok(())
}

/// What the user is told about `error`, the directory being called `label`.
pub open spec fn dir_error_text(error: DirError, label: Seq<char>, probe: DirProbe) -> Seq<char> {
    match error {
        DirError::Missing => label + " path does not exist: "@ + probe.path@,
        DirError::NotADirectory => label + " is not a directory: "@ + probe.path@,
        DirError::MissingFile(i) => if i < probe.required@.len() {
            label + " is missing required file '"@ + probe.required@[i as int].name@
                + "' (checked: "@ + probe.required@[i as int].checked_path@ + ")"@
        } else {
            label + " is missing a required file"@
        },
    }
}

/// Words the error for the user.
pub fn dir_error_message(error: DirError, label: &str, probe: &DirProbe) -> (message: String)
    ensures
        message@ == dir_error_text(error, label@, *probe),
{
    let mut message = String::from_str(label);
    match error {
        DirError::Missing => {
            message.append(" path does not exist: ");
            message.append(probe.path.as_str());
        },
        DirError::NotADirectory => {
            message.append(" is not a directory: ");
            message.append(probe.path.as_str());
        },
        DirError::MissingFile(i) => {
            if i < probe.required.len() {
                message.append(" is missing required file '");
                message.append(probe.required[i].name.as_str());
                message.append("' (checked: ");
                message.append(probe.required[i].checked_path.as_str());
                message.append(")");
            } else {
                message.append(" is missing a required file");
            }
        },
    }
    message
}

// ---------------------------------------------------------------------------
// What the builder reads and writes
// ---------------------------------------------------------------------------

/// The ids from which on an entry belongs to an event and is left out.
pub const FIRST_EVENT_ID: u32 = 1000;

/// The entries among the first `upto` that are regular ones.
pub open spec fn regular_entries(entries: Seq<Entry>, upto: int) -> Seq<Entry>
    decreases upto,
{
    if upto <= 0 {
        Seq::empty()
    } else if entries[upto - 1].id < FIRST_EVENT_ID {
        regular_entries(entries, upto - 1).push(entries[upto - 1])
    } else {
        regular_entries(entries, upto - 1)
    }
}

/// Leaves the entries of events out; the others keep their order.
pub fn retain_regular_entries(entries: Vec<Entry>) -> (kept: Vec<Entry>)
    ensures
        kept@ == regular_entries(entries@, entries@.len() as int),
{
    let mut entries = entries;
    let ghost all = entries@;
    let mut kept: Vec<Entry> = Vec::new();
    let mut taken: usize = 0;
    assert(all.len() == entries.len());
    assert(entries@ =~= all.skip(0));
    while entries.len() > 0
        invariant
            all.len() <= usize::MAX,
            taken + entries@.len() == all.len(),
            entries@ == all.skip(taken as int),
            kept@ == regular_entries(all, taken as int),
        decreases entries.len(),
    {
        let ghost rest = entries@;
        let entry = entries.remove(0);
        assert(entry == all[taken as int]) by {
            assert(rest[0] == all.skip(taken as int)[0]);
        }
        assert(entries@ =~= all.skip(taken + 1));
        if entry.id < FIRST_EVENT_ID {
            kept.push(entry);
        }
        taken = taken + 1;
    }
    kept
}

/// What is done to a file that is to hold lower case only, once its text
/// is known.
#[derive(PartialEq, Eq, Structural, Debug, Clone, Copy)]
pub enum RewriteStep {
    /// The text is in lower case already: the file stays as it is.
    Keep,
    /// The text in lower case is written beside the file and takes its place.
    Replace,
}

/// Decides whether a file has to be written anew in lower case.
pub fn rewrite_step(text_of_file: &str) -> (step: RewriteStep)
    ensures
        step == (if lowercase_text(text_of_file@) == text_of_file@ {
            RewriteStep::Keep
        } else {
            RewriteStep::Replace
        }),
{
    let lower = to_lowercase(text_of_file);
    if crate::text::same_text(lower.as_str(), text_of_file) {
        RewriteStep::Keep
    } else {
        RewriteStep::Replace
    }
}

/// Whether a file with this extension holds text for the resources.
pub fn is_markdown_extension(extension: &str) -> (yes: bool)
    ensures
        yes == (crate::text::ascii_lower_text(extension@) == crate::text::ascii_lower_text("md"@)),
{
    crate::text::eq_ignore_ascii_case(extension, "md")
}

} // verus!
