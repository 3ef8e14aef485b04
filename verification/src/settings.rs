//! The settings of the application while it runs.

use vstd::prelude::*;
use vstd::string::StringExecFns;

verus! {

/// How a scale is kept: in thousandths, so that it is a whole number.
pub const SCALE_ONE: u32 = 1000;

/// The smallest scale that the type matrix can be given, in thousandths.
pub const TYPE_MATRIX_SCALE_MIN: u32 = 100;

/// The largest scale that the type matrix can be given, in thousandths.
pub const TYPE_MATRIX_SCALE_MAX: u32 = 3000;

/// The smallest value that a slider of the developer options hands out,
/// in thousandths.
pub const DEV_SLIDER_MIN: u32 = 10;

/// The values of all settings, and the requests that a change of a
/// setting leaves for the next frame.
#[derive(Debug)]
pub struct SettingsSubsystem {
    pub version: u8,
    pub disable_overlay: bool,
    pub transparent_background_always: bool,
    /// The scale of the type matrix, in thousandths.
    pub type_matrix_scale_milli: u32,
    /// Construct the backend anew at the next frame.
    pub request_viewport_restart: bool,
    /// Forget window positions and cached interface data at the next frame.
    pub request_clear_ui_data: bool,
    /// The names of the sliders of the developer options.
    pub dev_slider_names: Vec<String>,
}

impl SettingsSubsystem {
    /// The names of the sliders of the developer options, as texts.
    pub open spec fn dev_sliders(&self) -> Seq<Seq<char>> {
        self.dev_slider_names@.map_values(|s: String| s@)
    }

    /// The settings of a first start: the overlay is on, nothing is asked for.
    pub fn new() -> (settings: Self)
        ensures
            settings.version == 0,
            !settings.disable_overlay,
            !settings.transparent_background_always,
            settings.type_matrix_scale_milli == SCALE_ONE,
            !settings.request_viewport_restart,
            !settings.request_clear_ui_data,
            settings.dev_sliders() == seq!["1"@, "2"@, "3"@],
    {
        let mut dev_sliders: Vec<String> = Vec::new();
        dev_sliders.push(String::from_str("1"));
        dev_sliders.push(String::from_str("2"));
        dev_sliders.push(String::from_str("3"));
        let settings = SettingsSubsystem {
            version: 0,
            disable_overlay: false,
            transparent_background_always: false,
            type_matrix_scale_milli: SCALE_ONE,
            request_viewport_restart: false,
            request_clear_ui_data: false,
            dev_slider_names: dev_sliders,
        };
        assert(settings.dev_sliders() =~= seq!["1"@, "2"@, "3"@]);
        settings
    }

    /// Switches the overlay off or on. A change takes effect when the
    /// backend is constructed anew, which is asked for.
    pub fn set_disable_overlay(&mut self, disabled: bool)
        ensures
            final(self).disable_overlay == disabled,
            final(self).request_viewport_restart == (old(self).request_viewport_restart
                || disabled != old(self).disable_overlay),
            final(self).version == old(self).version,
            final(self).transparent_background_always == old(self).transparent_background_always,
            final(self).type_matrix_scale_milli == old(self).type_matrix_scale_milli,
            final(self).request_clear_ui_data == old(self).request_clear_ui_data,
            final(self).dev_sliders() == old(self).dev_sliders(),
    {
        if disabled != self.disable_overlay {
            self.request_viewport_restart = true;
        }
        self.disable_overlay = disabled;
    }

    /// Sets the scale of the type matrix, kept within its limits.
    pub fn set_type_matrix_scale(&mut self, milli: u32)
        ensures
            final(self).type_matrix_scale_milli == (if milli < TYPE_MATRIX_SCALE_MIN {
                TYPE_MATRIX_SCALE_MIN
            } else if milli > TYPE_MATRIX_SCALE_MAX {
                TYPE_MATRIX_SCALE_MAX
            } else {
                milli
            }),
            final(self).version == old(self).version,
            final(self).disable_overlay == old(self).disable_overlay,
            final(self).transparent_background_always == old(self).transparent_background_always,
            final(self).request_viewport_restart == old(self).request_viewport_restart,
            final(self).request_clear_ui_data == old(self).request_clear_ui_data,
            final(self).dev_sliders() == old(self).dev_sliders(),
    {
        self.type_matrix_scale_milli = if milli < TYPE_MATRIX_SCALE_MIN {
            TYPE_MATRIX_SCALE_MIN
        } else if milli > TYPE_MATRIX_SCALE_MAX {
            TYPE_MATRIX_SCALE_MAX
        } else {
            milli
        };
    }

    /// Takes the requests of the last frame over and withdraws them.
    pub fn take_requests(&mut self) -> (requests: (bool, bool))
        ensures
            requests == (old(self).request_viewport_restart, old(self).request_clear_ui_data),
            !final(self).request_viewport_restart,
            !final(self).request_clear_ui_data,
            final(self).version == old(self).version,
            final(self).disable_overlay == old(self).disable_overlay,
            final(self).transparent_background_always == old(self).transparent_background_always,
            final(self).type_matrix_scale_milli == old(self).type_matrix_scale_milli,
            final(self).dev_sliders() == old(self).dev_sliders(),
    {
        let requests = (self.request_viewport_restart, self.request_clear_ui_data);
        self.request_viewport_restart = false;
        self.request_clear_ui_data = false;
        requests
    }
}

/// The value that a slider of the developer options hands out: what was
/// set, but never less than the smallest value; one where nothing was set.
pub fn dev_slider_value(stored_milli: Option<u32>) -> (milli: u32)
    ensures
        milli == (match stored_milli {
            Some(v) => if v < DEV_SLIDER_MIN {
                DEV_SLIDER_MIN
            } else {
                v
            },
            None => SCALE_ONE,
        }),
{
    match stored_milli {
        Some(v) => if v < DEV_SLIDER_MIN {
            DEV_SLIDER_MIN
        } else {
            v
        },
        None => SCALE_ONE,
    }
}

} // verus!
