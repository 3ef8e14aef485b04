use indexmap::IndexMap;
use pokemmo_companion::locale::{Entry, Item};
use pokemmo_companion::lookup::{
    build_generic_locale_lookup, build_item_locale_lookups, build_miscellaneous_locale_lookup,
    find_translation_for, ids_to_translate, resolve_string_dump_references, ResolveError,
};

fn entry(id: u32, name: &str) -> Entry {
    Entry { id, name: name.to_string() }
}

fn item(id: u32, name: &str, desc: &str) -> Item {
    Item { id, name: name.to_string(), desc: desc.to_string() }
}

fn pairs(map: IndexMap<String, String>) -> Vec<(String, String)> {
    map.into_iter().collect()
}

fn dump(entries: &[(u32, &str)]) -> IndexMap<u32, String> {
    entries.iter().map(|(id, s)| (*id, s.to_string())).collect()
}

fn p(k: &str, v: &str) -> (String, String) {
    (k.to_string(), v.to_string())
}

#[test]
fn generic_lookup_pairs_names_by_position() {
    let en = vec![entry(1, "Bulbasaur"), entry(2, "Ivysaur"), entry(3, "Venusaur")];
    let de = vec![entry(1, "Bisasam"), entry(9, "Falsch"), entry(3, "Bisaflor")];
    assert_eq!(
        pairs(build_generic_locale_lookup(en, de)),
        vec![p("bulbasaur", "Bisasam"), p("venusaur", "Bisaflor")]
    );
}

#[test]
fn generic_lookup_of_lists_of_different_lengths_is_empty() {
    let en = vec![entry(1, "Bulbasaur"), entry(2, "Ivysaur")];
    let de = vec![entry(1, "Bisasam")];
    assert!(build_generic_locale_lookup(en, de).is_empty());
    assert!(build_generic_locale_lookup(vec![], vec![]).is_empty());
}

#[test]
fn a_repeated_name_keeps_its_place_and_takes_the_later_translation() {
    let en = vec![entry(1, "Potion"), entry(2, "Ether"), entry(3, "POTION")];
    let de = vec![entry(1, "Trank"), entry(2, "Aether"), entry(3, "Trank 2")];
    assert_eq!(
        pairs(build_generic_locale_lookup(en, de)),
        vec![p("potion", "Trank 2"), p("ether", "Aether")]
    );
}

#[test]
fn item_lookups_for_names_and_descriptions() {
    let en = vec![item(1, "Potion", "Heals 20 HP"), item(2, "Ether", "Restores PP")];
    let de = vec![item(1, "Trank", "Heilt 20 KP"), item(3, "x", "y")];
    let (names, descs) = build_item_locale_lookups(en, de);
    assert_eq!(pairs(names), vec![p("potion", "Trank")]);
    assert_eq!(pairs(descs), vec![p("heals 20 hp", "Heilt 20 KP")]);
    let (names, descs) = build_item_locale_lookups(vec![item(1, "a", "b")], vec![]);
    assert!(names.is_empty() && descs.is_empty());
}

#[test]
fn translations_come_from_the_additional_ones_first() {
    let en = dump(&[(5, "Route 1"), (6, "ROUTE 1")]);
    let de = dump(&[(5, "Route Eins"), (6, "Zweite")]);
    let mut additional: IndexMap<String, String> = IndexMap::new();
    additional.insert("cave".to_string(), "Hoehle".to_string());
    assert_eq!(find_translation_for("cave", &en, &de, &additional), "Hoehle");
    // the first string of the dump that fits gives the id
    assert_eq!(find_translation_for("route 1", &en, &de, &additional), "Route Eins");
    // the name is looked up as it is: the dump's strings are lowered, not the name
    assert_eq!(find_translation_for("Route 1", &en, &de, &additional), "Route 1");
    assert_eq!(find_translation_for("unknown", &en, &de, &additional), "unknown");
    let de_missing = dump(&[(6, "Zweite")]);
    assert_eq!(find_translation_for("route 1", &en, &de_missing, &additional), "route 1");
}

#[test]
fn references_are_followed_to_their_end() {
    let d = dump(&[(1, "Ditto"), (2, "{STRING_1}"), (3, "{STRING_2}"), (150132, "Chaos")]);
    assert_eq!(resolve_string_dump_references("plain", &d), Ok("plain".to_string()));
    assert_eq!(resolve_string_dump_references("{STRING_1}", &d), Ok("Ditto".to_string()));
    assert_eq!(resolve_string_dump_references("{STRING_3}", &d), Ok("Ditto".to_string()));
    assert_eq!(resolve_string_dump_references("{STRING_150132}", &d), Ok("Chaos".to_string()));
    assert_eq!(
        resolve_string_dump_references("{STRING_9}", &d),
        Err(ResolveError::UnknownIndex(9))
    );
    assert_eq!(resolve_string_dump_references("{STRING_}", &d), Err(ResolveError::BadIndex));
    assert_eq!(
        resolve_string_dump_references("{STRING_99999999999}", &d),
        Err(ResolveError::BadIndex)
    );
    // all numeric characters of the string count
    assert_eq!(resolve_string_dump_references("{STRING_0}1", &d), Ok("Ditto".to_string()));
}

#[test]
fn references_in_a_circle_are_an_error() {
    let d = dump(&[(1, "{STRING_2}"), (2, "{STRING_1}")]);
    assert_eq!(resolve_string_dump_references("{STRING_1}", &d), Err(ResolveError::Circular));
    let own = dump(&[(7, "{STRING_7}")]);
    assert_eq!(resolve_string_dump_references("{STRING_7}", &own), Err(ResolveError::Circular));
}

#[test]
fn ten_ranges_of_ids_are_taken_over() {
    let ranges = ids_to_translate();
    assert_eq!(ranges.len(), 10);
    assert_eq!(ranges[0], (500, 505));
    assert_eq!(ranges[7], (180000, 180024));
    assert_eq!(ranges[9], (250000, 250004));
    assert!(ranges.iter().all(|(a, b)| a <= b));
}

#[test]
fn miscellaneous_lookup_takes_over_the_listed_ids() {
    let en = dump(&[
        (499, "Before"),
        (500, "HP"),
        (501, "Attack"),
        (505, "Sp. Defense"),
        (506, "After"),
        (181013, "{STRING_150132}"),
        (150132, "Ditto"),
        (250004, "Johto"),
        (1770, "Morning"),
    ]);
    let de = dump(&[
        (499, "Davor"),
        (500, "KP"),
        (501, "ANGRIFF"),
        (506, "Danach"),
        (181013, "{STRING_150132}"),
        (150132, "DITTO"),
        (250004, "JOHTO"),
        (1770, "{STRING_4}"),
    ]);
    let mut additional: IndexMap<String, String> = IndexMap::new();
    additional.insert("extra".to_string(), "Zusatz".to_string());
    additional.insert("hp".to_string(), "alt".to_string());
    let lookup = pairs(build_miscellaneous_locale_lookup(en, de, additional));
    assert_eq!(
        lookup,
        vec![
            p("extra", "Zusatz"),
            p("hp", "Kp"),
            p("attack", "Angriff"),
            p("ditto", "Ditto"),
            p("johto", "Johto"),
        ]
    );
}
