use indexmap::IndexMap;
use pokemmo_companion::locale::{Encounter, Location, MonsterLocations};
use pokemmo_companion::location::{
    build_location_base_data, build_location_locale_lookup, join_parts, location_components,
    parse_location_name_into_components, same_encounter,
};

#[test]
fn test_location_name_parsing() {
    // input -> expected (name, season, day, time)
    let cases = [
        (
            "route 29 (season0/day/morning)",
            ("route 29", Some("season0"), Some("day"), Some("morning")),
        ),
        (
            "route 43 (day/morning)",
            ("route 43", None, Some("day"), Some("morning")),
        ),
        ("route 1 (night)", ("route 1", None, None, Some("night"))),
        ("route 5", ("route 5", None, None, None)),
    ];

    for (input, expected) in cases {
        let parsed = parse_location_name_into_components(input)
            .unwrap_or_else(|| panic!("Did not match input {:?}", input));

        assert_eq!(parsed.name, expected.0, "wrong name for input {}", input);
        assert_eq!(parsed.season.as_deref(), expected.1, "wrong season for input {}", input);
        assert_eq!(parsed.day.as_deref(), expected.2, "wrong day for input {}", input);
        assert_eq!(parsed.time.as_deref(), expected.3, "wrong time for input {}", input);
    }
}

#[test]
fn names_with_odd_brackets() {
    let p = parse_location_name_into_components("  mt. moon  (  / night /  )  ").unwrap();
    assert_eq!(p.name, "mt. moon");
    assert_eq!((p.season, p.day, p.time), (None, None, Some("night".to_string())));
    let p = parse_location_name_into_components("cave (a/b/c/d)").unwrap();
    assert_eq!(p.name, "cave");
    assert_eq!(
        (p.season.as_deref(), p.day.as_deref(), p.time.as_deref()),
        (Some("b"), Some("c"), Some("d"))
    );
    let p = parse_location_name_into_components("cave ()").unwrap();
    assert_eq!(p.name, "cave");
    assert_eq!((p.season, p.day, p.time), (None, None, None));
    let p = parse_location_name_into_components("").unwrap();
    assert_eq!(p.name, "");
    // brackets that are not at the end belong to the name
    let p = parse_location_name_into_components("a (b) c").unwrap();
    assert_eq!(p.name, "a (b) c");
    assert_eq!(p.time, None);
    // the expression does not reach over line ends
    assert!(parse_location_name_into_components("two\nlines").is_none());
}

#[test]
fn components_from_the_groups() {
    let p = location_components(Some(" route 7 "), Some(" day / morning "));
    assert_eq!(p.name, "route 7");
    assert_eq!((p.season.as_deref(), p.day.as_deref(), p.time.as_deref()), (None, Some("day"), Some("morning")));
    let p = location_components(None, None);
    assert_eq!(p.name, "");
    assert_eq!(p.time, None);
    let p = location_components(Some("x"), Some("///"));
    assert_eq!((p.season, p.day, p.time), (None, None, None));
}

#[test]
fn parts_are_joined_with_slashes() {
    assert_eq!(join_parts(&vec![]), "");
    assert_eq!(join_parts(&vec!["day".to_string()]), "day");
    assert_eq!(join_parts(&vec!["s0".to_string(), "day".to_string(), "morning".to_string()]), "s0/day/morning");
}

fn location(name: &str, kind: &str, region_id: u8, rarity: &str) -> Location {
    Location {
        name: name.to_string(),
        encounter_type: kind.to_string(),
        region_id,
        region_name: format!("Region{}", region_id),
        min_level: 2,
        max_level: 5,
        rarity: rarity.to_string(),
    }
}

#[test]
fn base_data_groups_encounters_by_place_and_region() {
    let monsters = vec![
        MonsterLocations {
            id: 16,
            locations: vec![
                location("ROUTE 1 (DAY/MORNING)", "Grass", 0, "Common"),
                location("ROUTE 1 (DAY/MORNING)", "Grass", 0, "Common"),
                location("ROUTE 1", "Grass", 1, "Rare"),
            ],
        },
        MonsterLocations {
            id: 19,
            locations: vec![location("ROUTE 1 (NIGHT)", "Grass", 0, "Common")],
        },
    ];
    let data = build_location_base_data(monsters);
    assert_eq!(data.len(), 2);
    assert_eq!(data[0].base_name, "Route 1");
    assert_eq!(data[0].region_id, 0);
    assert_eq!(data[0].region_base_name, "Region0");
    assert_eq!(data[0].encounters.len(), 2);
    assert_eq!(data[0].encounters[0].pokemon_id, 16);
    assert_eq!(data[0].encounters[0].time_restrictions, vec!["Day".to_string(), "Morning".to_string()]);
    assert_eq!(data[0].encounters[0].encounter_type, "Grass");
    assert_eq!((data[0].encounters[0].min_level, data[0].encounters[0].max_level), (2, 5));
    assert_eq!(data[0].encounters[1].pokemon_id, 19);
    assert_eq!(data[0].encounters[1].time_restrictions, vec!["Night".to_string()]);
    assert_eq!(data[1].base_name, "Route 1");
    assert_eq!(data[1].region_id, 1);
    assert_eq!(data[1].encounters.len(), 1);
    assert_eq!(data[1].encounters[0].rarity, "Rare");
    assert!(data[1].encounters[0].time_restrictions.is_empty());
    assert!(build_location_base_data(vec![]).is_empty());
}

#[test]
fn encounters_are_compared_field_by_field() {
    let e = Encounter {
        encounter_type: "Grass".to_string(),
        pokemon_id: 1,
        min_level: 2,
        max_level: 3,
        time_restrictions: vec!["Day".to_string()],
        rarity: "Common".to_string(),
    };
    assert!(same_encounter(&e, &e.clone()));
    let mut other = e.clone();
    other.time_restrictions = vec!["Day".to_string(), "Morning".to_string()];
    assert!(!same_encounter(&e, &other));
    let mut other = e.clone();
    other.time_restrictions = vec!["Night".to_string()];
    assert!(!same_encounter(&e, &other));
    let mut other = e.clone();
    other.pokemon_id = 2;
    assert!(!same_encounter(&e, &other));
    let mut other = e.clone();
    other.rarity = "Rare".to_string();
    assert!(!same_encounter(&e, &other));
}

fn dump(entries: &[(u32, &str)]) -> IndexMap<u32, String> {
    entries.iter().map(|(id, s)| (*id, s.to_string())).collect()
}

#[test]
fn location_lookups_translate_names_and_restrictions() {
    let monsters = vec![MonsterLocations {
        id: 16,
        locations: vec![
            location("Route 1 (Day/Morning)", "Grass", 0, "Common"),
            location("Route 1 (Night)", "Grass", 0, "Common"),
            location("Viridian Forest", "Grass", 0, "Common"),
        ],
    }];
    let en = dump(&[(10, "Route 1"), (1770, "Morning"), (1771, "Day"), (1772, "Night")]);
    let de = dump(&[(10, "ROUTE 1 DE"), (1770, "MORGEN"), (1771, "TAG"), (1772, "NACHT")]);
    let mut additional: IndexMap<String, String> = IndexMap::new();
    additional.insert("viridian forest".to_string(), "VERTANIA-WALD".to_string());
    let (unique, pokedex) = build_location_locale_lookup(monsters, en, de, additional);
    let unique: Vec<(String, String)> = unique.into_iter().collect();
    let pokedex: Vec<(String, String)> = pokedex.into_iter().collect();
    assert_eq!(
        unique,
        vec![
            ("route 1".to_string(), "Route 1 De".to_string()),
            ("viridian forest".to_string(), "Vertania-Wald".to_string()),
        ]
    );
    // the second name of route 1 is left out: its place is translated already
    assert_eq!(
        pokedex,
        vec![
            ("route 1 (day/morning)".to_string(), "Route 1 De (Tag/Morgen)".to_string()),
            ("viridian forest".to_string(), "Vertania-Wald".to_string()),
        ]
    );
}
