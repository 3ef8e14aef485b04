//! The feature panels of the overlay and which of them are open.

use vstd::prelude::*;
use vstd::string::StringExecFns;

verus! {

/// A panel that the user can open and close.
#[derive(PartialEq, Eq, Structural, Hash, Debug, Clone, Copy)]
pub enum Feature {
    Notes,
    Resources,
    TypeMatrix,
    BreedingCalculator,
    Settings,
}

impl Feature {
    /// The name of the feature, written as its variant is.
    pub open spec fn name_text(self) -> Seq<char> {
        match self {
            Feature::Notes => "Notes"@,
            Feature::Resources => "Resources"@,
            Feature::TypeMatrix => "TypeMatrix"@,
            Feature::BreedingCalculator => "BreedingCalculator"@,
            Feature::Settings => "Settings"@,
        }
    }

    /// Every feature, in the order of their declaration.
    pub open spec fn all_spec() -> Seq<Feature> {
        seq![
            Feature::Notes,
            Feature::Resources,
            Feature::TypeMatrix,
            Feature::BreedingCalculator,
            Feature::Settings,
        ]
    }

    pub fn get_name(&self) -> (name: String)
        ensures
            name@ == self.name_text(),
    {
        match self {
            Feature::Notes => String::from_str("Notes"),
            Feature::Resources => String::from_str("Resources"),
            Feature::TypeMatrix => String::from_str("TypeMatrix"),
            Feature::BreedingCalculator => String::from_str("BreedingCalculator"),
            Feature::Settings => String::from_str("Settings"),
        }
    }

    /// How the shortcut of the feature is written.
    pub open spec fn shortcut_text(self) -> Seq<char> {
        match self {
            Feature::Notes => "(Alt+N)"@,
            Feature::Resources => "(Alt+R)"@,
            Feature::TypeMatrix => "(Alt+T)"@,
            Feature::BreedingCalculator => "(Alt+B)"@,
            Feature::Settings => "(Alt+O)"@,
        }
    }

    /// What the button of the feature says when the pointer rests on it:
    /// the name and the shortcut.
    pub fn hover_text(&self) -> (text: String)
        ensures
            text@ == self.name_text() + " "@ + self.shortcut_text(),
    {
        let mut text = self.get_name();
        text.append(" ");
        match self {
            Feature::Notes => text.append("(Alt+N)"),
            Feature::Resources => text.append("(Alt+R)"),
            Feature::TypeMatrix => text.append("(Alt+T)"),
            Feature::BreedingCalculator => text.append("(Alt+B)"),
            Feature::Settings => text.append("(Alt+O)"),
        }
        text
    }

    /// The name of the icon of the feature's button.
    pub fn icon_name(&self) -> (name: String)
        ensures
            name@ == "feature_"@ + self.name_text(),
    {
        let mut name = String::from_str("feature_");
        name.append(self.get_name().as_str());
        name
    }

    /// Every feature once, in the order of their declaration.
    pub fn all() -> (features: [Feature; 5])
        ensures
            features@ == Self::all_spec(),
    {
        let features = [
            Feature::Notes,
            Feature::Resources,
            Feature::TypeMatrix,
            Feature::BreedingCalculator,
            Feature::Settings,
        ];
        assert(features@ =~= Self::all_spec());
        features
    }
}

/// The keys of the feature shortcuts that were pressed in a frame. Each
/// shortcut is the key together with Alt.
#[derive(PartialEq, Eq, Structural, Hash, Debug, Clone, Copy)]
pub struct FeatureInput {
    /// Whether Alt is held.
    pub alt: bool,
    pub key_n: bool,
    pub key_r: bool,
    pub key_t: bool,
    pub key_b: bool,
    pub key_o: bool,
}

impl FeatureInput {
    /// Whether the shortcut of `feature` was pressed.
    pub open spec fn toggles(self, feature: Feature) -> bool {
        self.alt && match feature {
            Feature::Notes => self.key_n,
            Feature::Resources => self.key_r,
            Feature::TypeMatrix => self.key_t,
            Feature::BreedingCalculator => self.key_b,
            Feature::Settings => self.key_o,
        }
    }
}

/// Which panels are open. Every feature has its entry from the start.
#[derive(Debug, Clone, Copy)]
pub struct FeatureSubsystem {
    notes: bool,
    resources: bool,
    type_matrix: bool,
    breeding_calculator: bool,
    settings: bool,
}

impl FeatureSubsystem {
    /// Whether the panel of `feature` is open.
    pub closed spec fn active(&self, feature: Feature) -> bool {
        match feature {
            Feature::Notes => self.notes,
            Feature::Resources => self.resources,
            Feature::TypeMatrix => self.type_matrix,
            Feature::BreedingCalculator => self.breeding_calculator,
            Feature::Settings => self.settings,
        }
    }

    /// At the start every panel is closed.
    pub fn new() -> (features: Self)
        ensures
            forall|feature: Feature| !features.active(feature),
    {
        FeatureSubsystem {
            notes: false,
            resources: false,
            type_matrix: false,
            breeding_calculator: false,
            settings: false,
        }
    }

    /// Opens or closes the panel of `feature` and leaves the others alone.
    pub fn set_feature_active(&mut self, feature: Feature, enabled: bool)
        ensures
            final(self).active(feature) == enabled,
            forall|other: Feature| other != feature ==> final(self).active(other) == old(self).active(other),
    {
        match feature {
            Feature::Notes => {
                self.notes = enabled;
            },
            Feature::Resources => {
                self.resources = enabled;
            },
            Feature::TypeMatrix => {
                self.type_matrix = enabled;
            },
            Feature::BreedingCalculator => {
                self.breeding_calculator = enabled;
            },
            Feature::Settings => {
                self.settings = enabled;
            },
        }
    }

    #[verifier::when_used_as_spec(active)]
    pub fn is_feature_active(&self, feature: Feature) -> (active: bool)
        ensures
            active == self.active(feature),
    {
        match feature {
            Feature::Notes => self.notes,
            Feature::Resources => self.resources,
            Feature::TypeMatrix => self.type_matrix,
            Feature::BreedingCalculator => self.breeding_calculator,
            Feature::Settings => self.settings,
        }
    }

    /// Lends the entry of `feature`, for a widget that opens and closes the
    /// panel. What is written through it is the entry afterwards; the other
    /// entries stay.
    pub fn get_feature_active_mut_ref(&mut self, feature: Feature) -> (entry: &mut bool)
        ensures
            *entry == old(self).active(feature),
            final(self).active(feature) == *final(entry),
            forall|other: Feature| other != feature ==> final(self).active(other) == old(self).active(other),
    {
        match feature {
            Feature::Notes => &mut self.notes,
            Feature::Resources => &mut self.resources,
            Feature::TypeMatrix => &mut self.type_matrix,
            Feature::BreedingCalculator => &mut self.breeding_calculator,
            Feature::Settings => &mut self.settings,
        }
    }

    /// Acts on the shortcuts of a frame: each one that was pressed opens
    /// its panel if it was closed and closes it if it was open.
    pub fn handle_feature_state_input(&mut self, input: FeatureInput)
        ensures
            forall|feature: Feature| final(self).active(feature) == (old(self).active(feature) != input.toggles(feature)),
    {
        if input.alt && input.key_n {
            self.notes = !self.notes;
        }
        if input.alt && input.key_r {
            self.resources = !self.resources;
        }
        if input.alt && input.key_t {
            self.type_matrix = !self.type_matrix;
        }
        if input.alt && input.key_b {
            self.breeding_calculator = !self.breeding_calculator;
        }
        if input.alt && input.key_o {
            self.settings = !self.settings;
        }
    }
}

/// Every feature is in the list of all features exactly once, and no two of
/// them have the same name.
pub proof fn lemma_features_listed_once(feature: Feature, other: Feature)
    ensures
        Feature::all_spec().contains(feature),
        Feature::all_spec().no_duplicates(),
        feature.name_text() == other.name_text() <==> feature == other,
{
    let all = Feature::all_spec();
    match feature {
        Feature::Notes => assert(all[0] == feature),
        Feature::Resources => assert(all[1] == feature),
        Feature::TypeMatrix => assert(all[2] == feature),
        Feature::BreedingCalculator => assert(all[3] == feature),
        Feature::Settings => assert(all[4] == feature),
    }
    reveal_strlit("Notes");
    reveal_strlit("Resources");
    reveal_strlit("TypeMatrix");
    reveal_strlit("BreedingCalculator");
    reveal_strlit("Settings");
    assert("Notes"@[0] == 'N' && "Resources"@[0] == 'R' && "TypeMatrix"@[0] == 'T'
        && "BreedingCalculator"@[0] == 'B' && "Settings"@[0] == 'S');
}

/// Pressing a shortcut twice leaves the panels as they were.
pub proof fn lemma_toggle_twice(before: FeatureSubsystem, once: FeatureSubsystem, twice: FeatureSubsystem, input: FeatureInput)
    requires
        forall|feature: Feature| once.active(feature) == (before.active(feature) != input.toggles(feature)),
        forall|feature: Feature| twice.active(feature) == (once.active(feature) != input.toggles(feature)),
    ensures
        forall|feature: Feature| twice.active(feature) == before.active(feature),
{
}

} // verus!
