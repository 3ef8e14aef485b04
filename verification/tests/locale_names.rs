use pokemmo_companion::locale::{
    convert_string_to_normal_case, dir_error_message, is_markdown_extension, normal_case_step,
    normalize_name, retain_regular_entries, rewrite_step, validate_dir, DirError, DirProbe, Entry,
    FileProbe, RewriteStep,
};

#[test]
fn test_convert_string_to_normal_case() {
    assert_eq!(convert_string_to_normal_case("ROCK TUNNEL"), "Rock Tunnel");
    assert_eq!(
        convert_string_to_normal_case("the ROCK tunnel"),
        "the Rock tunnel"
    );
    assert_eq!(convert_string_to_normal_case("O'NEIL"), "O'Neil");
    assert_eq!(
        convert_string_to_normal_case("SMITH-JOHNSON"),
        "Smith-Johnson"
    );
    assert_eq!(
        convert_string_to_normal_case("already lower"),
        "already lower"
    );
    assert_eq!(convert_string_to_normal_case("MiXeD Case"), "Mixed Case");
    assert_eq!(convert_string_to_normal_case("123 456"), "123 456"); // no alphabetic -> unchanged
}

#[test]
fn normal_case_of_nothing_is_nothing() {
    assert_eq!(convert_string_to_normal_case(""), "");
}

#[test]
fn normal_case_lowers_letters_after_digits() {
    assert_eq!(convert_string_to_normal_case("TM01X"), "Tm01x");
}

#[test]
fn normal_case_keeps_characters_that_lower_to_several() {
    // U+0130 lowers to two characters; within a word both are written
    assert_eq!(convert_string_to_normal_case("A\u{130}"), "Ai\u{307}");
    assert_eq!(convert_string_to_normal_case("\u{130}"), "\u{130}");
}

#[test]
fn normal_case_step_picks_the_lowered_form_only_within_a_word() {
    assert_eq!(normal_case_step(true, true, 'A', vec!['a']), vec!['a']);
    assert_eq!(normal_case_step(false, true, 'A', vec!['a']), vec!['A']);
    assert_eq!(normal_case_step(true, false, '-', vec![]), vec!['-']);
    assert_eq!(normal_case_step(false, false, ' ', vec![]), vec![' ']);
}

#[test]
fn normalize_name_lowers_the_name() {
    assert_eq!(normalize_name("Rock TUNNEL".to_string()), "rock tunnel");
    assert_eq!(normalize_name("already".to_string()), "already");
    assert_eq!(normalize_name(String::new()), "");
}

fn probe(exists: bool, is_dir: bool, files: &[(&str, bool)]) -> DirProbe {
    DirProbe {
        path: "data/en".to_string(),
        exists,
        is_dir,
        required: files
            .iter()
            .map(|(name, there)| FileProbe {
                name: name.to_string(),
                checked_path: format!("data/en/{}", name),
                exists: *there,
            })
            .collect(),
    }
}

#[test]
fn validate_dir_accepts_a_complete_directory() {
    let p = probe(true, true, &[("monsters.json", true), ("items.json", true)]);
    assert_eq!(validate_dir(&p), Ok(()));
    assert_eq!(validate_dir(&probe(true, true, &[])), Ok(()));
}

#[test]
fn validate_dir_reports_the_first_thing_wrong() {
    assert_eq!(
        validate_dir(&probe(false, false, &[("monsters.json", false)])),
        Err(DirError::Missing)
    );
    assert_eq!(
        validate_dir(&probe(true, false, &[("monsters.json", false)])),
        Err(DirError::NotADirectory)
    );
    assert_eq!(
        validate_dir(&probe(
            true,
            true,
            &[("monsters.json", true), ("items.json", false), ("skills.json", false)]
        )),
        Err(DirError::MissingFile(1))
    );
}

#[test]
fn dir_error_messages_name_label_and_path() {
    let p = probe(true, true, &[("monsters.json", true), ("items.json", false)]);
    assert_eq!(
        dir_error_message(DirError::Missing, "EN Directory", &p),
        "EN Directory path does not exist: data/en"
    );
    assert_eq!(
        dir_error_message(DirError::NotADirectory, "EN Directory", &p),
        "EN Directory is not a directory: data/en"
    );
    assert_eq!(
        dir_error_message(DirError::MissingFile(1), "Locale Directory", &p),
        "Locale Directory is missing required file 'items.json' (checked: data/en/items.json)"
    );
    assert_eq!(
        dir_error_message(DirError::MissingFile(7), "Locale Directory", &p),
        "Locale Directory is missing a required file"
    );
}

#[test]
fn entries_of_events_are_left_out() {
    let entries: Vec<Entry> = [(1u32, "a"), (1000, "event"), (999, "b"), (5000, "x"), (2, "c")]
        .iter()
        .map(|(id, name)| Entry { id: *id, name: name.to_string() })
        .collect();
    let kept: Vec<(u32, String)> =
        retain_regular_entries(entries).into_iter().map(|e| (e.id, e.name)).collect();
    assert_eq!(kept, vec![(1, "a".to_string()), (999, "b".to_string()), (2, "c".to_string())]);
    assert!(retain_regular_entries(vec![]).is_empty());
}

#[test]
fn files_in_lower_case_are_kept() {
    assert_eq!(rewrite_step("{\"name\": \"rock\"}"), RewriteStep::Keep);
    assert_eq!(rewrite_step(""), RewriteStep::Keep);
    assert_eq!(rewrite_step("{\"name\": \"Rock\"}"), RewriteStep::Replace);
}

#[test]
fn markdown_files_go_by_their_extension() {
    assert!(is_markdown_extension("md"));
    assert!(is_markdown_extension("MD"));
    assert!(is_markdown_extension("Md"));
    assert!(!is_markdown_extension("markdown"));
    assert!(!is_markdown_extension("txt"));
    assert!(!is_markdown_extension(""));
}
