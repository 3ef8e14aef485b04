use pokemmo_companion::notes::{
    gather_ranges, get_notes_textedit_layouter, heading_size, layout_sections, push_style,
    sort_ranges, LayoutSection, NoteStyle, StyledRange,
};
use pokemmo_companion::text::lines_of;

fn section(start: usize, end: usize, style: NoteStyle, delimiter: bool) -> LayoutSection {
    LayoutSection { start, end, style, delimiter }
}

fn range(start: usize, end: usize, style: NoteStyle) -> StyledRange {
    StyledRange { start, end, style }
}

fn covers(sections: &[LayoutSection], len: usize) -> bool {
    let mut at = 0;
    for s in sections {
        if s.start != at || s.end < s.start {
            return false;
        }
        at = s.end;
    }
    at == len
}

#[test]
fn heading_sizes_by_level() {
    assert_eq!(
        [1usize, 2, 3, 4, 5, 6, 7, 0].map(heading_size),
        [24, 20, 18, 16, 15, 14, 14, 14]
    );
}

#[test]
fn plain_text_is_one_normal_section() {
    assert_eq!(
        get_notes_textedit_layouter("just text"),
        vec![section(0, 9, NoteStyle::Normal, false)]
    );
    assert_eq!(get_notes_textedit_layouter(""), vec![section(0, 0, NoteStyle::Normal, false)]);
}

#[test]
fn italic_text_with_its_signs() {
    //          0123456789
    let text = "an *it* ok";
    assert_eq!(
        get_notes_textedit_layouter(text),
        vec![
            section(0, 3, NoteStyle::Normal, false),
            section(3, 4, NoteStyle::Italic, true),
            section(4, 6, NoteStyle::Italic, false),
            section(6, 7, NoteStyle::Italic, true),
            section(7, 10, NoteStyle::Normal, false),
        ]
    );
}

#[test]
fn headings_code_and_underline() {
    let text = "## Title\n`code` and _under_\n";
    let sections = get_notes_textedit_layouter(text);
    assert_eq!(
        sections,
        vec![
            section(0, 0, NoteStyle::Normal, false),
            section(0, 2, NoteStyle::Heading(2), true),
            section(2, 8, NoteStyle::Heading(2), false),
            section(8, 9, NoteStyle::Normal, false),
            section(9, 10, NoteStyle::Code, true),
            section(10, 14, NoteStyle::Code, false),
            section(14, 15, NoteStyle::Code, true),
            section(15, 20, NoteStyle::Normal, false),
            section(20, 21, NoteStyle::Underlined, true),
            section(21, 26, NoteStyle::Underlined, false),
            section(26, 27, NoteStyle::Underlined, true),
            section(27, 28, NoteStyle::Normal, false),
        ]
    );
    assert!(covers(&sections, text.len()));
}

#[test]
fn sections_cover_the_text_whatever_it_holds() {
    for text in [
        "*a* _b_ `c`",
        "# h *x* _y_\n###### six\n####### seven",
        "*over _lap* ping_",
        "`code *with* stars`",
        "multi\u{e9}byte *\u{1f600}* end",
        "**",
        "_ _ _",
    ] {
        assert!(covers(&get_notes_textedit_layouter(text), text.len()), "for {:?}", text);
    }
}

#[test]
fn overlapping_stretches_are_shown_as_normal_text() {
    let ranges = vec![range(0, 6, NoteStyle::Italic), range(4, 10, NoteStyle::Underlined), range(5, 7, NoteStyle::Code)];
    assert_eq!(
        layout_sections(&ranges, 12),
        vec![
            section(0, 0, NoteStyle::Normal, false),
            section(0, 1, NoteStyle::Italic, true),
            section(1, 5, NoteStyle::Italic, false),
            section(5, 6, NoteStyle::Italic, true),
            section(6, 10, NoteStyle::Normal, false),
            section(10, 12, NoteStyle::Normal, false),
        ]
    );
}

#[test]
fn stretches_that_do_not_fit_are_left_out() {
    let ranges = vec![
        range(3, 2, NoteStyle::Italic),
        range(0, 1, NoteStyle::Code),
        range(0, 2, NoteStyle::Heading(3)),
        range(4, 20, NoteStyle::Italic),
    ];
    assert_eq!(layout_sections(&ranges, 8), vec![section(0, 8, NoteStyle::Normal, false)]);
}

#[test]
fn push_style_by_kind() {
    assert_eq!(
        push_style(&range(2, 9, NoteStyle::Normal)),
        vec![section(2, 9, NoteStyle::Normal, false)]
    );
    assert_eq!(
        push_style(&range(2, 9, NoteStyle::Heading(3))),
        vec![section(2, 5, NoteStyle::Heading(3), true), section(5, 9, NoteStyle::Heading(3), false)]
    );
    // a heading without signs still has the section of its signs, empty
    assert_eq!(
        push_style(&range(3, 7, NoteStyle::Heading(0))),
        vec![section(3, 3, NoteStyle::Heading(0), true), section(3, 7, NoteStyle::Heading(0), false)]
    );
    assert_eq!(
        push_style(&range(2, 4, NoteStyle::Code)),
        vec![
            section(2, 3, NoteStyle::Code, true),
            section(3, 3, NoteStyle::Code, false),
            section(3, 4, NoteStyle::Code, true)
        ]
    );
}

#[test]
fn sorting_keeps_the_order_of_equal_beginnings() {
    let ranges = vec![
        range(5, 6, NoteStyle::Code),
        range(1, 9, NoteStyle::Heading(1)),
        range(5, 8, NoteStyle::Italic),
        range(0, 2, NoteStyle::Underlined),
        range(1, 3, NoteStyle::Italic),
    ];
    assert_eq!(
        sort_ranges(&ranges),
        vec![
            range(0, 2, NoteStyle::Underlined),
            range(1, 9, NoteStyle::Heading(1)),
            range(1, 3, NoteStyle::Italic),
            range(5, 6, NoteStyle::Code),
            range(5, 8, NoteStyle::Italic),
        ]
    );
    let mut expected = ranges.clone();
    expected.sort_by_key(|r| r.start);
    assert_eq!(sort_ranges(&ranges), expected);
    assert_eq!(sort_ranges(&vec![]), vec![]);
}

#[test]
fn stretches_are_gathered_kind_by_kind() {
    let headings = vec![
        vec![Some((0, 7)), Some((0, 2)), Some((3, 7))],
        vec![Some((9, 12))],
        vec![None, Some((1, 2))],
        vec![Some((20, 30)), Some((20, 21)), None],
    ];
    let ranges = gather_ranges(&headings, &vec![(1, 4)], &vec![(5, 8), (9, 12)], &vec![]);
    assert_eq!(
        ranges,
        vec![
            range(0, 7, NoteStyle::Heading(2)),
            range(20, 30, NoteStyle::Heading(1)),
            range(1, 4, NoteStyle::Code),
            range(5, 8, NoteStyle::Italic),
            range(9, 12, NoteStyle::Italic),
        ]
    );
}

#[test]
fn lines_as_the_standard_library_cuts_them() {
    for text in ["", "a", "a\nb", "a\nb\n", "a\r\nb\r\n", "a\n\nb", "\n", "\r\n", "a\r", "a\rb\n", "\n\n", "x\r\r\n"] {
        let expected: Vec<String> = text.lines().map(|l| l.to_string()).collect();
        assert_eq!(lines_of(text), expected, "for {:?}", text);
    }
}
