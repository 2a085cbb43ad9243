//! Settings that belong to one installation and never travel inside a
//! restored profile.
use vstd::prelude::*;
use crate::domain::settings::Settings;

verus! {

/// The file the device settings are kept in, inside the config directory.
pub const FILE_NAME: &'static str = "device-settings.json";

/// The Play/Stop accelerator of a fresh installation.
pub const DEFAULT_PLAY_TRACKING_SHORTCUT: &'static str = "CmdOrCtrl+Shift+P";

/// Per-installation settings: the global shortcut and why it could not be
/// registered, if it could not.
#[derive(Debug, Clone)]
pub struct DeviceSettings {
    pub play_tracking_shortcut: Option<String>,
    pub shortcut_registration_error: Option<String>,
}

impl Default for DeviceSettings {
    fn default() -> (r: DeviceSettings)
        ensures
            r.play_tracking_shortcut matches Some(s) && s@ == DEFAULT_PLAY_TRACKING_SHORTCUT@,
            r.shortcut_registration_error is None,
    {
        DeviceSettings {
            play_tracking_shortcut: Some(DEFAULT_PLAY_TRACKING_SHORTCUT.to_owned()),
            shortcut_registration_error: None,
        }
    }
}


impl DeviceSettings {
    /// The device settings an update of the settings writes: the shortcut
    /// the user chose, registered without error.
    pub fn from_settings(settings: &Settings) -> (r: DeviceSettings)
        ensures
            crate::services::achievement::opt_text(r.play_tracking_shortcut)
                == crate::services::achievement::opt_text(settings.play_tracking_shortcut),
            r.shortcut_registration_error is None,
    {
        DeviceSettings { play_tracking_shortcut: settings.play_tracking_shortcut.clone(), shortcut_registration_error: None }
    }

    /// The settings after trying to register the shortcut: the failure's
    /// message is kept for the settings page, a success clears it.
    pub fn with_registration(self, failure: Option<String>) -> (r: DeviceSettings)
        ensures
            crate::services::achievement::opt_text(r.play_tracking_shortcut)
                == crate::services::achievement::opt_text(self.play_tracking_shortcut),
            crate::services::achievement::opt_text(r.shortcut_registration_error)
                == crate::services::achievement::opt_text(failure),
    {
        DeviceSettings { play_tracking_shortcut: self.play_tracking_shortcut, shortcut_registration_error: failure }
    }
}

} // verus!
