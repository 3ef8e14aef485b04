//! The user's personal notes, and how their text is cut into sections of
//! one style each: headings, code, and text that is set off by `*` or `_`.

use crate::matching::{
    capture_spans_of, matches_of, regex_capture_spans, regex_matches, span_rows,
};
use vstd::prelude::*;

verus! {

/// The text of the notes and whether the text field asks for the keyboard.
#[derive(Debug)]
pub struct NotesSubsystem {
    pub text: String,
    pub requests_focus: bool,
}

impl NotesSubsystem {
    /// Empty notes that do not ask for the keyboard.
    pub fn new() -> (notes: Self)
        ensures
            notes.text@ == Seq::<char>::empty(),
            !notes.requests_focus,
    {
        NotesSubsystem { text: String::new(), requests_focus: false }
    }

    /// Decides, once per frame, whether the text field takes the keyboard
    /// now. It is asked for when the panel was opened in this frame or the
    /// key N was pressed; it is given as soon as Alt is not held, so that
    /// the shortcut that opened the panel does not end up in the text.
    pub fn update_focus(&mut self, was_open: bool, is_open: bool, key_n: bool, alt_down: bool) -> (focus_now:
        bool)
        ensures
            focus_now == ((old(self).requests_focus || (!was_open && is_open) || key_n)
                && !alt_down),
            final(self).requests_focus == ((old(self).requests_focus || (!was_open && is_open)
                || key_n) && alt_down),
            final(self).text == old(self).text,
    {
        if (!was_open && is_open) || key_n {
            self.requests_focus = true;
        }
        if self.requests_focus && !alt_down {
            self.requests_focus = false;
            true
        } else {
            false
        }
    }
}

// ---------------------------------------------------------------------------
// Styles
// ---------------------------------------------------------------------------

/// Code: one or more backticks, text without backticks, backticks.
pub const CODE_PATTERN: &'static str = r"`+[^`]+?`+";

/// Text between two asterisks on one line.
pub const ITALIC_PATTERN: &'static str = r"\*[^\n]+?\*";

/// Text between two underscores on one line.
pub const UNDERLINE_PATTERN: &'static str = r"_[^\n]+?_";

/// A line that begins with one to six number signs and white space.
pub const HEADING_PATTERN: &'static str = r"(?m)^(#{1,6})[ \t]+(\S[^\r\n]*)$";

/// The style of a stretch of text.
#[derive(PartialEq, Eq, Structural, Hash, Debug, Clone, Copy)]
pub enum NoteStyle {
    Normal,
    /// A heading of this level, 1 being the largest.
    Heading(usize),
    Italic,
    Underlined,
    Code,
}

/// A stretch of the text that is to be shown in one style, by the byte
/// positions at which it begins and ends.
#[derive(PartialEq, Eq, Structural, Hash, Debug, Clone, Copy)]
pub struct StyledRange {
    pub start: usize,
    pub end: usize,
    pub style: NoteStyle,
}

/// A section of the laid out text.
#[derive(PartialEq, Eq, Structural, Hash, Debug, Clone, Copy)]
pub struct LayoutSection {
    pub start: usize,
    pub end: usize,
    pub style: NoteStyle,
    /// Whether the section holds the signs that set the text off, which are
    /// shown faintly in the style of the text.
    pub delimiter: bool,
}

/// The size of the letters of a heading of this level, in points.
pub fn heading_size(level: usize) -> (size: u8)
    ensures
        size == (if level == 1 {
            24u8
        } else if level == 2 {
            20u8
        } else if level == 3 {
            18u8
        } else if level == 4 {
            16u8
        } else if level == 5 {
            15u8
        } else {
            14u8
        }),
{
    if level == 1 {
        24
    } else if level == 2 {
        20
    } else if level == 3 {
        18
    } else if level == 4 {
        16
    } else if level == 5 {
        15
    } else {
        14
    }
}

/// How many bytes of a stretch in this style are signs at its beginning,
/// and how many at its end.
pub open spec fn delimiters(style: NoteStyle) -> (int, int) {
    match style {
        NoteStyle::Normal => (0, 0),
        NoteStyle::Heading(level) => (level as int, 0),
        _ => (1, 1),
    }
}

/// Whether a stretch lies within a text of this length and has room for
/// its signs.
pub open spec fn fits(range: StyledRange, text_len: usize) -> bool {
    &&& range.start <= range.end <= text_len
    &&& delimiters(range.style).0 + delimiters(range.style).1 <= range.end - range.start
}

/// The sections of one stretch: the signs at its beginning, its text, the
/// signs at its end. Normal text has neither signs; a heading has the
/// section of its leading signs whatever its level, so at level 0 that
/// section is empty; the other styles have one sign at either end.
pub open spec fn styled_sections(range: StyledRange) -> Seq<LayoutSection> {
    let (leading, trailing) = delimiters(range.style);
    let text = LayoutSection {
        start: (range.start + leading) as usize,
        end: (range.end - trailing) as usize,
        style: range.style,
        delimiter: false,
    };
    let lead = if range.style != NoteStyle::Normal {
        seq![
            LayoutSection {
                start: range.start,
                end: (range.start + leading) as usize,
                style: range.style,
                delimiter: true,
            },
        ]
    } else {
        Seq::empty()
    };
    let trail = if trailing > 0 {
        seq![
            LayoutSection {
                start: (range.end - trailing) as usize,
                end: range.end,
                style: range.style,
                delimiter: true,
            },
        ]
    } else {
        Seq::empty()
    };
    lead.push(text) + trail
}

pub open spec fn normal_section(start: usize, end: usize) -> LayoutSection {
    LayoutSection { start, end, style: NoteStyle::Normal, delimiter: false }
}

/// The sections so far and the position up to which the text is laid out.
pub struct Layout {
    pub sections: Seq<LayoutSection>,
    pub last: usize,
}

/// The layout after one more stretch. A stretch that does not fit is left
/// out. One that lies within what is laid out already is left out too; one
/// that reaches beyond it is shown as normal text from there on; any other
/// is shown in its style, after the normal text that lies before it.
pub open spec fn layout_with(layout: Layout, range: StyledRange, text_len: usize) -> Layout {
    if !fits(range, text_len) {
        layout
    } else if range.start < layout.last {
        if range.end < layout.last {
            layout
        } else {
            Layout {
                sections: layout.sections.push(normal_section(layout.last, range.end)),
                last: range.end,
            }
        }
    } else {
        Layout {
            sections: layout.sections.push(normal_section(layout.last, range.start))
                + styled_sections(range),
            last: range.end,
        }
    }
}

pub open spec fn layout_of(ranges: Seq<StyledRange>, upto: int, text_len: usize) -> Layout
    decreases upto,
{
    if upto <= 0 {
        Layout { sections: Seq::empty(), last: 0 }
    } else {
        layout_with(layout_of(ranges, upto - 1, text_len), ranges[upto - 1], text_len)
    }
}

/// The sections of a text of length `text_len` whose styled stretches are
/// `ranges`, in the order of their beginnings.
pub open spec fn sections_of(ranges: Seq<StyledRange>, text_len: usize) -> Seq<LayoutSection> {
    let layout = layout_of(ranges, ranges.len() as int, text_len);
    if layout.last <= text_len {
        layout.sections.push(normal_section(layout.last, text_len))
    } else {
        layout.sections
    }
}

/// Whether the sections lie one after the other from `from` to `to`, none
/// left out and none overlapping.
pub open spec fn tiles(sections: Seq<LayoutSection>, from: int, to: int) -> bool
    decreases sections.len(),
{
    if sections.len() == 0 {
        from == to
    } else {
        &&& sections.last().end == to
        &&& sections.last().start <= sections.last().end
        &&& tiles(sections.drop_last(), from, sections.last().start as int)
    }
}

proof fn lemma_tiles_push(sections: Seq<LayoutSection>, from: int, mid: int, next: LayoutSection)
    requires
        tiles(sections, from, mid),
        next.start == mid,
        next.start <= next.end,
    ensures
        tiles(sections.push(next), from, next.end as int),
{
    assert(sections.push(next).drop_last() =~= sections);
}

proof fn lemma_styled_sections_tile(sections: Seq<LayoutSection>, from: int, range: StyledRange)
    requires
        tiles(sections, from, range.start as int),
        range.start <= range.end,
        delimiters(range.style).0 + delimiters(range.style).1 <= range.end - range.start,
    ensures
        tiles(sections + styled_sections(range), from, range.end as int),
{
    let (leading, trailing) = delimiters(range.style);
    let text = LayoutSection {
        start: (range.start + leading) as usize,
        end: (range.end - trailing) as usize,
        style: range.style,
        delimiter: false,
    };
    let lead = LayoutSection {
        start: range.start,
        end: (range.start + leading) as usize,
        style: range.style,
        delimiter: true,
    };
    let trail = LayoutSection {
        start: (range.end - trailing) as usize,
        end: range.end,
        style: range.style,
        delimiter: true,
    };
    let with_lead = if range.style != NoteStyle::Normal {
        sections.push(lead)
    } else {
        sections
    };
    if range.style != NoteStyle::Normal {
        lemma_tiles_push(sections, from, range.start as int, lead);
    }
    lemma_tiles_push(with_lead, from, range.start + leading, text);
    let with_text = with_lead.push(text);
    if trailing > 0 {
        lemma_tiles_push(with_text, from, range.end - trailing, trail);
        assert(sections + styled_sections(range) =~= with_text.push(trail));
    } else {
        assert(sections + styled_sections(range) =~= with_text);
    }
}

proof fn lemma_layout_tiles(ranges: Seq<StyledRange>, upto: int, text_len: usize)
    requires
        0 <= upto <= ranges.len(),
    ensures
        tiles(
            layout_of(ranges, upto, text_len).sections,
            0,
            layout_of(ranges, upto, text_len).last as int,
        ),
        layout_of(ranges, upto, text_len).last <= text_len,
    decreases upto,
{
    if upto > 0 {
        lemma_layout_tiles(ranges, upto - 1, text_len);
        let before = layout_of(ranges, upto - 1, text_len);
        let range = ranges[upto - 1];
        if fits(range, text_len) {
            if range.start < before.last {
                if range.end >= before.last {
                    lemma_tiles_push(
                        before.sections,
                        0,
                        before.last as int,
                        normal_section(before.last, range.end),
                    );
                }
            } else {
                lemma_tiles_push(
                    before.sections,
                    0,
                    before.last as int,
                    normal_section(before.last, range.start),
                );
                lemma_styled_sections_tile(
                    before.sections.push(normal_section(before.last, range.start)),
                    0,
                    range,
                );
            }
        }
    }
}

/// Whatever the stretches, the sections cover the text from its first byte
/// to its last, one after the other: nothing of the text is left out and
/// nothing is shown twice.
pub proof fn lemma_sections_cover_the_text(ranges: Seq<StyledRange>, text_len: usize)
    ensures
        tiles(sections_of(ranges, text_len), 0, text_len as int),
{
    lemma_layout_tiles(ranges, ranges.len() as int, text_len);
    let layout = layout_of(ranges, ranges.len() as int, text_len);
    lemma_tiles_push(
        layout.sections,
        0,
        layout.last as int,
        normal_section(layout.last, text_len),
    );
}

fn range_fits(range: &StyledRange, text_len: usize) -> (yes: bool)
    ensures
        yes == fits(*range, text_len),
{
    if !(range.start <= range.end && range.end <= text_len) {
        return false;
    }
    let room = range.end - range.start;
    match range.style {
        NoteStyle::Normal => true,
        NoteStyle::Heading(level) => level <= room,
        _ => 2 <= room,
    }
}

/// Cuts one stretch into its sections: its signs, shown faintly, and its
/// text between them.
pub fn push_style(range: &StyledRange) -> (sections: Vec<LayoutSection>)
    requires
        range.start <= range.end,
        delimiters(range.style).0 + delimiters(range.style).1 <= range.end - range.start,
    ensures
        sections@ == styled_sections(*range),
{
    let mut sections: Vec<LayoutSection> = Vec::new();
    match range.style {
        NoteStyle::Normal => {
            sections.push(
                LayoutSection {
                    start: range.start,
                    end: range.end,
                    style: range.style,
                    delimiter: false,
                },
            );
        },
        NoteStyle::Heading(level) => {
            sections.push(
                LayoutSection {
                    start: range.start,
                    end: range.start + level,
                    style: range.style,
                    delimiter: true,
                },
            );
            sections.push(
                LayoutSection {
                    start: range.start + level,
                    end: range.end,
                    style: range.style,
                    delimiter: false,
                },
            );
        },
        _ => {
            sections.push(
                LayoutSection {
                    start: range.start,
                    end: range.start + 1,
                    style: range.style,
                    delimiter: true,
                },
            );
            sections.push(
                LayoutSection {
                    start: range.start + 1,
                    end: range.end - 1,
                    style: range.style,
                    delimiter: false,
                },
            );
            sections.push(
                LayoutSection {
                    start: range.end - 1,
                    end: range.end,
                    style: range.style,
                    delimiter: true,
                },
            );
        },
    }
    assert(sections@ =~= styled_sections(*range));
    sections
}

/// Lays a text of `text_len` bytes out in sections, from its styled
/// stretches in the order of their beginnings.
pub fn layout_sections(ranges: &Vec<StyledRange>, text_len: usize) -> (sections: Vec<LayoutSection>)
    ensures
        sections@ == sections_of(ranges@, text_len),
{
    let mut sections: Vec<LayoutSection> = Vec::new();
    let mut last: usize = 0;
    let mut i: usize = 0;
    while i < ranges.len()
        invariant
            i <= ranges@.len(),
            (Layout { sections: sections@, last }) == layout_of(ranges@, i as int, text_len),
        decreases ranges.len() - i,
    {
        let range = ranges[i];
        if range_fits(&range, text_len) {
            if range.start < last {
                if range.end >= last {
                    sections.push(
                        LayoutSection {
                            start: last,
                            end: range.end,
                            style: NoteStyle::Normal,
                            delimiter: false,
                        },
                    );
                    last = range.end;
                }
            } else {
                sections.push(
                    LayoutSection {
                        start: last,
                        end: range.start,
                        style: NoteStyle::Normal,
                        delimiter: false,
                    },
                );
                let mut styled = push_style(&range);
                sections.append(&mut styled);
                last = range.end;
            }
        }
        i = i + 1;
    }
    if last <= text_len {
        sections.push(
            LayoutSection { start: last, end: text_len, style: NoteStyle::Normal, delimiter: false },
        );
    }
    sections
}

// ---------------------------------------------------------------------------
// Order
// ---------------------------------------------------------------------------

/// Where a stretch that begins at `start` goes among stretches that are in
/// the order of their beginnings: behind all that begin no later.
pub open spec fn insert_position(sorted: Seq<StyledRange>, start: usize) -> int
    decreases sorted.len(),
{
    if sorted.len() == 0 {
        0
    } else if sorted.last().start <= start {
        sorted.len() as int
    } else {
        insert_position(sorted.drop_last(), start)
    }
}

/// The stretches in the order of their beginnings; of two that begin at
/// the same place the one that came first stays first.
pub open spec fn in_order(ranges: Seq<StyledRange>) -> Seq<StyledRange>
    decreases ranges.len(),
{
    if ranges.len() == 0 {
        Seq::empty()
    } else {
        let sorted = in_order(ranges.drop_last());
        sorted.insert(insert_position(sorted, ranges.last().start), ranges.last())
    }
}

pub open spec fn ordered(ranges: Seq<StyledRange>) -> bool {
    forall|i: int, j: int| 0 <= i < j < ranges.len() ==> ranges[i].start <= ranges[j].start
}

proof fn lemma_insert_position(sorted: Seq<StyledRange>, start: usize)
    requires
        ordered(sorted),
    ensures
        0 <= insert_position(sorted, start) <= sorted.len(),
        forall|k: int| 0 <= k < insert_position(sorted, start) ==> sorted[k].start <= start,
        forall|k: int|
            insert_position(sorted, start) <= k < sorted.len() ==> sorted[k].start > start,
    decreases sorted.len(),
{
    if sorted.len() > 0 {
        if sorted.last().start <= start {
            assert forall|k: int| 0 <= k < sorted.len() implies sorted[k].start <= start by {
                if k < sorted.len() - 1 {
                    assert(sorted[k].start <= sorted[sorted.len() - 1].start);
                }
            }
        } else {
            assert(ordered(sorted.drop_last())) by {
                assert forall|i: int, j: int| 0 <= i < j < sorted.drop_last().len() implies sorted.drop_last()[i].start
                    <= sorted.drop_last()[j].start by {
                    assert(sorted[i].start <= sorted[j].start);
                }
            }
            lemma_insert_position(sorted.drop_last(), start);
            assert forall|k: int| 0 <= k < insert_position(sorted, start) implies sorted[k].start
                <= start by {
                assert(sorted.drop_last()[k] == sorted[k]);
            }
            assert forall|k: int|
                insert_position(sorted, start) <= k < sorted.len() implies sorted[k].start
                > start by {
                if k < sorted.len() - 1 {
                    assert(sorted.drop_last()[k] == sorted[k]);
                }
            }
        }
    }
}

/// What `in_order` gives is in the order of the beginnings, and has as
/// many stretches as it was given.
pub proof fn lemma_in_order_is_ordered(ranges: Seq<StyledRange>)
    ensures
        ordered(in_order(ranges)),
        in_order(ranges).len() == ranges.len(),
    decreases ranges.len(),
{
    if ranges.len() > 0 {
        lemma_in_order_is_ordered(ranges.drop_last());
        let sorted = in_order(ranges.drop_last());
        let r = ranges.last();
        lemma_insert_position(sorted, r.start);
        let at = insert_position(sorted, r.start);
        let result = sorted.insert(at, r);
        assert forall|i: int, j: int| 0 <= i < j < result.len() implies result[i].start
            <= result[j].start by {
            let a = if i < at {
                sorted[i]
            } else if i == at {
                r
            } else {
                sorted[i - 1]
            };
            let b = if j < at {
                sorted[j]
            } else if j == at {
                r
            } else {
                sorted[j - 1]
            };
            assert(result[i] == a && result[j] == b);
            if i < at && j > at {
                assert(sorted[i].start <= r.start);
                assert(sorted[j - 1].start > r.start);
            }
        }
    }
}

/// Brings stretches into the order of their beginnings.
pub fn sort_ranges(ranges: &Vec<StyledRange>) -> (sorted: Vec<StyledRange>)
    ensures
        sorted@ == in_order(ranges@),
{
    let mut sorted: Vec<StyledRange> = Vec::new();
    let mut i: usize = 0;
    assert(ranges@.take(0) =~= Seq::<StyledRange>::empty());
    while i < ranges.len()
        invariant
            i <= ranges@.len(),
            sorted@ == in_order(ranges@.take(i as int)),
        decreases ranges.len() - i,
    {
        let range = ranges[i];
        let mut at: usize = sorted.len();
        assert(sorted@.take(at as int) =~= sorted@);
        while at > 0 && sorted[at - 1].start > range.start
            invariant
                at <= sorted@.len(),
                insert_position(sorted@, range.start) == insert_position(
                    sorted@.take(at as int),
                    range.start,
                ),
            decreases at,
        {
            assert(sorted@.take(at as int).drop_last() =~= sorted@.take(at - 1));
            at = at - 1;
        }
        assert(insert_position(sorted@, range.start) == at) by {
            if at > 0 {
                assert(sorted@.take(at as int).last() == sorted@[at - 1]);
            }
        }
        assert(ranges@.take(i + 1).drop_last() =~= ranges@.take(i as int));
        sorted.insert(at, range);
        i = i + 1;
    }
    assert(ranges@.take(ranges@.len() as int) =~= ranges@);
    sorted
}

// ---------------------------------------------------------------------------
// Finding the stretches
// ---------------------------------------------------------------------------

/// The stretch of a heading, from the spans of the groups of its match:
/// the whole line in the style of the level that the number signs give.
/// No stretch where the match lacks the two spans.
pub open spec fn heading_range(groups: Seq<Option<(usize, usize)>>) -> Option<StyledRange> {
    if groups.len() >= 2 {
        match (groups[0], groups[1]) {
            (Some(whole), Some(signs)) => {
                let (from, to) = signs;
                let (start, end) = whole;
                if from <= to {
                    Some(StyledRange { start, end, style: NoteStyle::Heading((to - from) as usize) })
                } else {
                    None
                }
            },
            _ => None,
        }
    } else {
        None
    }
}

/// The stretches of the headings of the first `upto` matches.
pub open spec fn heading_ranges(rows: Seq<Seq<Option<(usize, usize)>>>, upto: int) -> Seq<
    StyledRange,
>
    decreases upto,
{
    if upto <= 0 {
        Seq::empty()
    } else {
        match heading_range(rows[upto - 1]) {
            Some(range) => heading_ranges(rows, upto - 1).push(range),
            None => heading_ranges(rows, upto - 1),
        }
    }
}

/// The spans, each as a stretch of this style.
pub open spec fn ranges_in_style(spans: Seq<(usize, usize)>, style: NoteStyle) -> Seq<StyledRange> {
    spans.map_values(|s: (usize, usize)| StyledRange { start: s.0, end: s.1, style })
}

/// The stretches of a text as they are found: headings, code, italic and
/// underlined text, each kind from left to right.
pub open spec fn found_ranges(
    headings: Seq<Seq<Option<(usize, usize)>>>,
    code: Seq<(usize, usize)>,
    italic: Seq<(usize, usize)>,
    underlined: Seq<(usize, usize)>,
) -> Seq<StyledRange> {
    heading_ranges(headings, headings.len() as int) + ranges_in_style(code, NoteStyle::Code)
        + ranges_in_style(italic, NoteStyle::Italic) + ranges_in_style(
        underlined,
        NoteStyle::Underlined,
    )
}

fn append_in_style(ranges: &mut Vec<StyledRange>, spans: &Vec<(usize, usize)>, style: NoteStyle)
    ensures
        final(ranges)@ == old(ranges)@ + ranges_in_style(spans@, style),
{
    let ghost before = ranges@;
    let mut i: usize = 0;
    assert(ranges@ =~= before + ranges_in_style(spans@, style).take(0));
    while i < spans.len()
        invariant
            i <= spans@.len(),
            ranges@ == before + ranges_in_style(spans@, style).take(i as int),
        decreases spans.len() - i,
    {
        ranges.push(StyledRange { start: spans[i].0, end: spans[i].1, style });
        assert(ranges@ =~= before + ranges_in_style(spans@, style).take(i + 1));
        i = i + 1;
    }
    assert(ranges_in_style(spans@, style).take(spans@.len() as int) =~= ranges_in_style(
        spans@,
        style,
    ));
}

/// Gathers the stretches from the spans that were found for each kind.
pub fn gather_ranges(
    headings: &Vec<Vec<Option<(usize, usize)>>>,
    code: &Vec<(usize, usize)>,
    italic: &Vec<(usize, usize)>,
    underlined: &Vec<(usize, usize)>,
) -> (ranges: Vec<StyledRange>)
    ensures
        ranges@ == found_ranges(span_rows(*headings), code@, italic@, underlined@),
{
    let mut ranges: Vec<StyledRange> = Vec::new();
    let ghost rows = span_rows(*headings);
    let mut i: usize = 0;
    while i < headings.len()
        invariant
            i <= headings@.len(),
            rows == span_rows(*headings),
            ranges@ == heading_ranges(rows, i as int),
        decreases headings.len() - i,
    {
        let groups = &headings[i];
        assert(rows[i as int] == groups@);
        if groups.len() >= 2 {
            match (groups[0], groups[1]) {
                (Some(whole), Some(signs)) => {
                    if signs.0 <= signs.1 {
                        ranges.push(
                            StyledRange {
                                start: whole.0,
                                end: whole.1,
                                style: NoteStyle::Heading(signs.1 - signs.0),
                            },
                        );
                    }
                },
                _ => {},
            }
        }
        i = i + 1;
    }
    append_in_style(&mut ranges, code, NoteStyle::Code);
    append_in_style(&mut ranges, italic, NoteStyle::Italic);
    append_in_style(&mut ranges, underlined, NoteStyle::Underlined);
    ranges
}

/// The sections in which the text of the notes is shown.
pub fn get_notes_textedit_layouter(text: &str) -> (sections: Vec<LayoutSection>)
    ensures
        sections@ == sections_of(
            in_order(
                found_ranges(
                    regex_capture_spans(HEADING_PATTERN@, text@),
                    regex_matches(CODE_PATTERN@, text@),
                    regex_matches(ITALIC_PATTERN@, text@),
                    regex_matches(UNDERLINE_PATTERN@, text@),
                ),
            ),
            text.len(),
        ),
{
    let headings = capture_spans_of(HEADING_PATTERN, text);
    let code = matches_of(CODE_PATTERN, text);
    let italic = matches_of(ITALIC_PATTERN, text);
    let underlined = matches_of(UNDERLINE_PATTERN, text);
    let ranges = gather_ranges(&headings, &code, &italic, &underlined);
    let sorted = sort_ranges(&ranges);
    layout_sections(&sorted, text.len())
}

} // verus!
