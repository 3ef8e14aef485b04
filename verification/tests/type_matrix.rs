use pokemmo_companion::type_matrix::{
    attack_effectiveness_double, attack_effectiveness_single, classify_effectiveness,
    effectiveness_label, is_highlighted, type_icon_name, EffectivenessClass, PokemonType,
    SHOWN_TYPE_COUNT, TYPE_COUNT,
};

fn single(attacker: PokemonType, defender: PokemonType) -> f32 {
    attack_effectiveness_single(attacker, defender) as f32 / 2.0
}

fn double(attacker: PokemonType, defenders: [Option<PokemonType>; 2]) -> f32 {
    attack_effectiveness_double(attacker, defenders) as f32 / 4.0
}

#[test]
fn test_some_types() {
    let mut effectivness;

    effectivness = single(PokemonType::Fighting, PokemonType::Normal);
    assert_eq!(effectivness, 2.);

    effectivness = single(PokemonType::Water, PokemonType::Normal);
    assert_eq!(effectivness, 1.);

    effectivness = single(PokemonType::Normal, PokemonType::Normal);
    assert_eq!(effectivness, 1.);

    effectivness = single(PokemonType::Fire, PokemonType::Grass);
    assert_eq!(effectivness, 2.);

    effectivness = double(
        PokemonType::Water,
        [Some(PokemonType::Ground), Some(PokemonType::Dragon)],
    );
    assert_eq!(effectivness, 1.);
}

#[test]
fn effectiveness_in_halves_and_quarters() {
    assert_eq!(attack_effectiveness_single(PokemonType::Normal, PokemonType::GhostType), 0);
    assert_eq!(attack_effectiveness_single(PokemonType::Normal, PokemonType::Rock), 1);
    assert_eq!(attack_effectiveness_single(PokemonType::Dark, PokemonType::Dark), 1);
    assert_eq!(attack_effectiveness_single(PokemonType::Electric, PokemonType::Water), 4);
    assert_eq!(attack_effectiveness_double(PokemonType::Normal, [None, None]), 4);
    assert_eq!(
        attack_effectiveness_double(PokemonType::Ice, [Some(PokemonType::Dragon), Some(PokemonType::Flying)]),
        16
    );
    assert_eq!(
        attack_effectiveness_double(PokemonType::Ground, [Some(PokemonType::Flying), None]),
        0
    );
    assert_eq!(
        attack_effectiveness_double(PokemonType::Fire, [None, Some(PokemonType::Water)]),
        2
    );
}

#[test]
fn every_type_has_its_place_and_name() {
    for i in 0..TYPE_COUNT {
        let t = PokemonType::from_index(i).expect("a type at every position");
        assert_eq!(t.index(), i);
    }
    assert_eq!(PokemonType::from_index(TYPE_COUNT), None);
    assert_eq!(PokemonType::Normal.get_debug_name(), "Normal");
    assert_eq!(PokemonType::GhostType.get_debug_name(), "Ghost");
    assert_eq!(PokemonType::Dark.get_debug_name(), "Dark");
    assert_eq!(PokemonType::Dark.index(), 16);
}

#[test]
fn classes_of_effectiveness() {
    assert_eq!(classify_effectiveness(0), EffectivenessClass::Weak);
    assert_eq!(classify_effectiveness(1), EffectivenessClass::Weak);
    assert_eq!(classify_effectiveness(2), EffectivenessClass::Normal);
    assert_eq!(classify_effectiveness(4), EffectivenessClass::Strong);
}

#[test]
fn labels_of_the_table() {
    assert_eq!([0u8, 1, 2, 4].map(effectiveness_label), ["x0.0", "x0.5", "x1.0", "x2.0"]);
    for halves in [0u8, 1, 2, 4] {
        assert_eq!(effectiveness_label(halves), format!("x{:>2.1}", halves as f32 / 2.0));
    }
    assert_eq!(effectiveness_label(3), "x?");
    assert_eq!(type_icon_name(PokemonType::GhostType), "type_Ghost");
    assert_eq!(SHOWN_TYPE_COUNT, TYPE_COUNT - 1);
}

#[test]
fn cells_in_the_row_or_column_of_the_hovered_cell_are_set_off() {
    assert!(!is_highlighted(None, 3, 4));
    assert!(is_highlighted(Some((3, 9)), 3, 4));
    assert!(is_highlighted(Some((9, 4)), 3, 4));
    assert!(is_highlighted(Some((3, 4)), 3, 4));
    assert!(!is_highlighted(Some((4, 3)), 3, 4));
}
