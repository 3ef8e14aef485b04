use pokemmo_companion::features::{Feature, FeatureInput, FeatureSubsystem};
use pokemmo_companion::notes::NotesSubsystem;
use pokemmo_companion::settings::{dev_slider_value, SettingsSubsystem, SCALE_ONE};
use pokemmo_companion::storage::{FileStorage, SaveFileStep, SaveState, APP_ID};

#[test]
fn feature_names_are_those_of_the_variants() {
    assert_eq!(Feature::Notes.get_name(), "Notes");
    assert_eq!(Feature::Resources.get_name(), "Resources");
    assert_eq!(Feature::TypeMatrix.get_name(), "TypeMatrix");
    assert_eq!(Feature::BreedingCalculator.get_name(), "BreedingCalculator");
    assert_eq!(Feature::Settings.get_name(), "Settings");
    for f in Feature::all() {
        assert_eq!(f.get_name(), format!("{:?}", f));
    }
    assert_eq!(Feature::all().len(), 5);
}

#[test]
fn all_panels_start_closed() {
    let s = FeatureSubsystem::new();
    for f in Feature::all() {
        assert!(!s.is_feature_active(f));
    }
}

#[test]
fn opening_one_panel_leaves_the_others() {
    let mut s = FeatureSubsystem::new();
    s.set_feature_active(Feature::TypeMatrix, true);
    for f in Feature::all() {
        assert_eq!(s.is_feature_active(f), f == Feature::TypeMatrix);
    }
    s.set_feature_active(Feature::TypeMatrix, false);
    assert!(!s.is_feature_active(Feature::TypeMatrix));
}

#[test]
fn the_lent_entry_is_the_panels_state() {
    let mut s = FeatureSubsystem::new();
    for f in Feature::all() {
        {
            let entry = s.get_feature_active_mut_ref(f);
            assert!(!*entry);
            *entry = true;
        }
        assert!(s.is_feature_active(f));
    }
    *s.get_feature_active_mut_ref(Feature::Notes) = false;
    assert!(!s.is_feature_active(Feature::Notes));
    assert!(s.is_feature_active(Feature::Settings));
}

fn input(alt: bool, keys: &str) -> FeatureInput {
    FeatureInput {
        alt,
        key_n: keys.contains('n'),
        key_r: keys.contains('r'),
        key_t: keys.contains('t'),
        key_b: keys.contains('b'),
        key_o: keys.contains('o'),
    }
}

#[test]
fn shortcuts_toggle_their_panels() {
    let mut s = FeatureSubsystem::new();
    s.handle_feature_state_input(input(true, "nt"));
    assert!(s.is_feature_active(Feature::Notes));
    assert!(s.is_feature_active(Feature::TypeMatrix));
    assert!(!s.is_feature_active(Feature::Resources));
    s.handle_feature_state_input(input(true, "nrbo"));
    assert!(!s.is_feature_active(Feature::Notes));
    assert!(s.is_feature_active(Feature::Resources));
    assert!(s.is_feature_active(Feature::TypeMatrix));
    assert!(s.is_feature_active(Feature::BreedingCalculator));
    assert!(s.is_feature_active(Feature::Settings));
}

#[test]
fn without_alt_nothing_is_toggled() {
    let mut s = FeatureSubsystem::new();
    s.handle_feature_state_input(input(false, "nrtbo"));
    for f in Feature::all() {
        assert!(!s.is_feature_active(f));
    }
    s.handle_feature_state_input(input(true, ""));
    for f in Feature::all() {
        assert!(!s.is_feature_active(f));
    }
}

#[test]
fn notes_start_empty() {
    let n = NotesSubsystem::new();
    assert_eq!(n.text, "");
    assert!(!n.requests_focus);
}

#[test]
fn default_save_state() {
    let s = SaveState::default();
    assert_eq!(s.version, 0);
    assert!(!s.disable_overlay);
    assert!(!s.transparent_background_always);
    assert_eq!(s.personal_notes, "");
    assert_eq!(s.type_matrix_scale_milli, 1000);
    assert_eq!(SCALE_ONE, 1000);
    assert_eq!(APP_ID, "pokemmo-companion");
}

#[test]
fn save_state_round_trip() {
    let mut settings = SettingsSubsystem::new();
    settings.version = 3;
    settings.set_disable_overlay(true);
    settings.set_type_matrix_scale(1250);
    let state = SaveState::gather(&settings, "my notes");
    assert_eq!(state.personal_notes, "my notes");
    assert_eq!(state.version, 3);
    let mut restored = SettingsSubsystem::new();
    restored.transparent_background_always = true;
    let notes = state.push_save_state_into_app(&mut restored);
    assert_eq!(notes, "my notes");
    assert_eq!(restored.version, 3);
    assert!(restored.disable_overlay);
    assert!(!restored.transparent_background_always);
    assert_eq!(restored.type_matrix_scale_milli, 1250);
    // loading asks for nothing
    assert!(!restored.request_viewport_restart);
}

#[test]
fn settings_of_a_first_start() {
    let s = SettingsSubsystem::new();
    assert_eq!(s.version, 0);
    assert!(!s.disable_overlay && !s.transparent_background_always);
    assert_eq!(s.type_matrix_scale_milli, 1000);
    assert!(!s.request_viewport_restart && !s.request_clear_ui_data);
    assert_eq!(s.dev_slider_names, vec!["1".to_string(), "2".to_string(), "3".to_string()]);
}

#[test]
fn switching_the_overlay_asks_for_a_new_backend() {
    let mut s = SettingsSubsystem::new();
    s.set_disable_overlay(false);
    assert!(!s.request_viewport_restart);
    s.set_disable_overlay(true);
    assert!(s.disable_overlay && s.request_viewport_restart);
    s.request_clear_ui_data = true;
    assert_eq!(s.take_requests(), (true, true));
    assert_eq!(s.take_requests(), (false, false));
    assert!(s.disable_overlay);
}

#[test]
fn scales_stay_within_their_limits() {
    let mut s = SettingsSubsystem::new();
    s.set_type_matrix_scale(50);
    assert_eq!(s.type_matrix_scale_milli, 100);
    s.set_type_matrix_scale(5000);
    assert_eq!(s.type_matrix_scale_milli, 3000);
    s.set_type_matrix_scale(2000);
    assert_eq!(s.type_matrix_scale_milli, 2000);
    assert_eq!(dev_slider_value(None), 1000);
    assert_eq!(dev_slider_value(Some(0)), 10);
    assert_eq!(dev_slider_value(Some(1500)), 1500);
}

#[test]
fn notes_take_the_keyboard_once_alt_is_released() {
    let mut n = NotesSubsystem::new();
    // opened with Alt+N: asked for, not given while Alt is held
    assert!(!n.update_focus(false, true, false, true));
    assert!(n.requests_focus);
    assert!(!n.update_focus(true, true, false, true));
    assert!(n.update_focus(true, true, false, false));
    assert!(!n.requests_focus);
    assert!(!n.update_focus(true, true, false, false));
    // the key N alone asks for it too
    assert!(n.update_focus(true, true, true, false));
    assert!(!n.update_focus(false, false, false, false));
}

#[test]
fn buttons_of_features() {
    assert_eq!(Feature::Notes.hover_text(), "Notes (Alt+N)");
    assert_eq!(Feature::Settings.hover_text(), "Settings (Alt+O)");
    assert_eq!(Feature::BreedingCalculator.hover_text(), "BreedingCalculator (Alt+B)");
    assert_eq!(Feature::TypeMatrix.icon_name(), "feature_TypeMatrix");
}

#[test]
fn save_file_name_and_steps() {
    let _storage = FileStorage::new();
    assert_eq!(FileStorage::save_file_name(), "save_state.toml");
    assert_eq!(FileStorage::save_file_step(false, false), SaveFileStep::NoStorageDir);
    assert_eq!(FileStorage::save_file_step(false, true), SaveFileStep::NoStorageDir);
    assert_eq!(FileStorage::save_file_step(true, true), SaveFileStep::UseExisting);
    assert_eq!(FileStorage::save_file_step(true, false), SaveFileStep::CreateEmpty);
}
