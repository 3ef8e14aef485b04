//! What of the application's state is kept between runs.

use crate::settings::{SettingsSubsystem, SCALE_ONE};
use vstd::prelude::*;
use vstd::string::StringExecFns;

verus! {

/// The name of the application, which names its storage directory too.
pub const APP_ID: &'static str = "pokemmo-companion";

/// The file that holds the saved state, without its extension.
pub const SAVE_FILE_STEM: &'static str = "save_state";

/// The extension of the file that holds the saved state.
pub const SAVE_FILE_EXTENSION: &'static str = "toml";

/// The part of the application's state that is saved. A field that is
/// missing in a saved file takes its default.
#[derive(Debug)]
pub struct SaveState {
    pub version: u8,
    pub disable_overlay: bool,
    pub transparent_background_always: bool,
    pub personal_notes: String,
    /// The scale of the type matrix, in thousandths.
    pub type_matrix_scale_milli: u32,
}

impl Default for SaveState {
    fn default() -> (state: Self)
        ensures
            state.version == 0,
            !state.disable_overlay,
            !state.transparent_background_always,
            state.personal_notes@ == Seq::<char>::empty(),
            state.type_matrix_scale_milli == SCALE_ONE,
    {
        SaveState {
            version: 0,
            disable_overlay: false,
            transparent_background_always: false,
            personal_notes: String::new(),
            type_matrix_scale_milli: SCALE_ONE,
        }
    }
}

impl SaveState {
    /// Gathers what is to be saved from the settings and the notes.
    pub fn gather(settings: &SettingsSubsystem, notes: &str) -> (state: Self)
        ensures
            state.version == settings.version,
            state.disable_overlay == settings.disable_overlay,
            state.transparent_background_always == settings.transparent_background_always,
            state.personal_notes@ == notes@,
            state.type_matrix_scale_milli == settings.type_matrix_scale_milli,
    {
        SaveState {
            version: settings.version,
            disable_overlay: settings.disable_overlay,
            transparent_background_always: settings.transparent_background_always,
            personal_notes: String::from_str(notes),
            type_matrix_scale_milli: settings.type_matrix_scale_milli,
        }
    }

    /// Puts a loaded state back: the settings it holds and, as the result,
    /// the text of the notes.
    pub fn push_save_state_into_app(self, settings: &mut SettingsSubsystem) -> (notes: String)
        ensures
            final(settings).version == self.version,
            final(settings).disable_overlay == self.disable_overlay,
            final(settings).transparent_background_always == self.transparent_background_always,
            final(settings).type_matrix_scale_milli == self.type_matrix_scale_milli,
            final(settings).request_viewport_restart == old(settings).request_viewport_restart,
            final(settings).request_clear_ui_data == old(settings).request_clear_ui_data,
            final(settings).dev_sliders() == old(settings).dev_sliders(),
            notes@ == self.personal_notes@,
    {
        settings.version = self.version;
        settings.disable_overlay = self.disable_overlay;
        settings.transparent_background_always = self.transparent_background_always;
        settings.type_matrix_scale_milli = self.type_matrix_scale_milli;
        self.personal_notes
    }
}

/// The storage that keeps the state in one file of the storage directory.
#[derive(Debug, Clone, Copy)]
pub struct FileStorage {}

/// What the storage does with the save file once it knows where the file
/// would be and whether it is there.
#[derive(PartialEq, Eq, Structural, Hash, Debug, Clone, Copy)]
pub enum SaveFileStep {
    /// There is no storage directory on this system: an error.
    NoStorageDir,
    /// The file is there: use it.
    UseExisting,
    /// The file is not there: create it empty, then use it.
    CreateEmpty,
}

impl FileStorage {
    pub fn new() -> (storage: Self) {
        FileStorage {  }
    }

    /// The file name of the save file within the storage directory.
    pub fn save_file_name() -> (name: String)
        ensures
            name@ == SAVE_FILE_STEM@ + "."@ + SAVE_FILE_EXTENSION@,
    {
        let mut name = String::from_str(SAVE_FILE_STEM);
        name.append(".");
        name.append(SAVE_FILE_EXTENSION);
        name
    }

    /// Decides how the save file comes to exist, so that it is there
    /// whenever the answer is not an error.
    pub fn save_file_step(has_storage_dir: bool, file_exists: bool) -> (step: SaveFileStep)
        ensures
            step == (if !has_storage_dir {
                SaveFileStep::NoStorageDir
            } else if file_exists {
                SaveFileStep::UseExisting
            } else {
                SaveFileStep::CreateEmpty
            }),
    {
        if !has_storage_dir {
            SaveFileStep::NoStorageDir
        } else if file_exists {
            SaveFileStep::UseExisting
        } else {
            SaveFileStep::CreateEmpty
        }
    }
}

/// What is gathered for saving and put back after loading is what it was:
/// saving and loading change none of the saved settings.
pub proof fn lemma_save_round_trip(
    settings: SettingsSubsystem,
    state: SaveState,
    restored: SettingsSubsystem,
)
    requires
        state.version == settings.version,
        state.disable_overlay == settings.disable_overlay,
        state.transparent_background_always == settings.transparent_background_always,
        state.type_matrix_scale_milli == settings.type_matrix_scale_milli,
        restored.version == state.version,
        restored.disable_overlay == state.disable_overlay,
        restored.transparent_background_always == state.transparent_background_always,
        restored.type_matrix_scale_milli == state.type_matrix_scale_milli,
    ensures
        restored.version == settings.version,
        restored.disable_overlay == settings.disable_overlay,
        restored.transparent_background_always == settings.transparent_background_always,
        restored.type_matrix_scale_milli == settings.type_matrix_scale_milli,
{
}

} // verus!
