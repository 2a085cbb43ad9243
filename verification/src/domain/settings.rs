//! Application settings read and saved as one aggregate.
use vstd::prelude::*;

verus! {

/// The application's settings. Every field is optional so the UI can show
/// blanks until the user fills them in.
#[derive(Debug, Clone)]
pub struct Settings {
    /// The user's public identifier.
    pub user_identifier: Option<String>,
    /// The shared Google Drive folder.
    pub google_drive_folder: Option<String>,
    /// Global Play/Stop accelerator; `None` disables it.
    pub play_tracking_shortcut: Option<String>,
    /// Why the accelerator could not be registered, if it could not.
    pub play_tracking_shortcut_error: Option<String>,
}

impl Default for Settings {
    fn default() -> (r: Settings)
        ensures
            r.user_identifier is None,
            r.google_drive_folder is None,
            r.play_tracking_shortcut is None,
            r.play_tracking_shortcut_error is None,
    {
        Settings {
            user_identifier: None,
            google_drive_folder: None,
            play_tracking_shortcut: None,
            play_tracking_shortcut_error: None,
        }
    }
}

} // verus!
