//! Mapping between the typed settings and the key-value store.
use vstd::prelude::*;
use crate::config::device_settings::DeviceSettings;
use crate::domain::settings::Settings;
use crate::services::achievement::opt_text;
use crate::text::{str_eq, trimmed};

verus! {

/// Storage key of the user identifier.
pub const KEY_USER_IDENTIFIER: &'static str = "user_identifier";

/// Storage key of the Google Drive folder.
pub const KEY_GOOGLE_DRIVE_FOLDER: &'static str = "google_drive_folder";

/// The value of the last row stored under `key`, as a key-value map built
/// from the rows holds it.
pub open spec fn last_value(rows: Seq<(String, String)>, key: Seq<char>) -> Option<Seq<char>>
    decreases rows.len(),
{
    if rows.len() == 0 {
        None
    } else if rows.last().0@ == key {
        Some(rows.last().1@)
    } else {
        last_value(rows.drop_last(), key)
    }
}

/// A stored value as a setting: an empty one reads as unset.
pub open spec fn setting_of(v: Option<Seq<char>>) -> Option<Seq<char>> {
    match v {
        Some(s) => if s.len() == 0 {
            None
        } else {
            Some(s)
        },
        None => None,
    }
}

/// The value stored under `key`, if any.
fn lookup(rows: &Vec<(String, String)>, key: &str) -> (r: Option<String>)
    ensures
        opt_text(r) == last_value(rows@, key@),
{
    let mut found: Option<String> = None;
    let mut i: usize = 0;
    while i < rows.len()
        invariant
            i <= rows@.len(),
            opt_text(found) == last_value(rows@.take(i as int), key@),
        decreases rows.len() - i,
    {
        proof {
            assert(rows@.take(i as int + 1).drop_last() =~= rows@.take(i as int));
        }
        if str_eq(rows[i].0.as_str(), key) {
            found = Some(rows[i].1.clone());
        }
        i = i + 1;
    }
    assert(rows@.take(rows@.len() as int) =~= rows@);
    found
}

/// Read the settings from the stored `(key, value)` rows. Keys that were
/// never set, or were cleared, read as `None`; a later row for a key wins.
pub fn settings_from_rows(rows: &Vec<(String, String)>) -> (r: Settings)
    ensures
        opt_text(r.user_identifier) == setting_of(last_value(rows@, KEY_USER_IDENTIFIER@)),
        opt_text(r.google_drive_folder) == setting_of(last_value(rows@, KEY_GOOGLE_DRIVE_FOLDER@)),
        r.play_tracking_shortcut is None,
        r.play_tracking_shortcut_error is None,
{
    let user = lookup(rows, KEY_USER_IDENTIFIER);
    let folder = lookup(rows, KEY_GOOGLE_DRIVE_FOLDER);
    Settings {
        user_identifier: match user {
            Some(v) => if v.as_str().is_empty() {
                None
            } else {
                Some(v)
            },
            None => None,
        },
        google_drive_folder: match folder {
            Some(v) => if v.as_str().is_empty() {
                None
            } else {
                Some(v)
            },
            None => None,
        },
        play_tracking_shortcut: None,
        play_tracking_shortcut_error: None,
    }
}

/// The text stored for a setting: trimmed, and empty when unset.
pub open spec fn stored_text(value: Option<Seq<char>>) -> Seq<char> {
    match value {
        Some(s) => trimmed(s),
        None => Seq::empty(),
    }
}

/// Trim a setting value, storing absence as an empty string.
pub fn normalize(value: Option<String>) -> (r: String)
    ensures
        r@ == stored_text(opt_text(value)),
{
    match value {
        Some(v) => crate::text::trim_owned(v.as_str()),
        None => String::new(),
    }
}

/// The rows that saving `settings` writes, in order.
pub fn settings_rows(settings: Settings) -> (r: Vec<(String, String)>)
    ensures
        r@.len() == 2,
        r@[0].0@ == KEY_USER_IDENTIFIER@,
        r@[0].1@ == stored_text(opt_text(settings.user_identifier)),
        r@[1].0@ == KEY_GOOGLE_DRIVE_FOLDER@,
        r@[1].1@ == stored_text(opt_text(settings.google_drive_folder)),
{
    let mut rows: Vec<(String, String)> = Vec::new();
    rows.push((KEY_USER_IDENTIFIER.to_owned(), normalize(settings.user_identifier)));
    rows.push((KEY_GOOGLE_DRIVE_FOLDER.to_owned(), normalize(settings.google_drive_folder)));
    rows
}

/// The profile settings with the installation's shortcut and its error.
pub fn merge_device_settings(settings: Settings, device: &DeviceSettings) -> (r: Settings)
    ensures
        opt_text(r.user_identifier) == opt_text(settings.user_identifier),
        opt_text(r.google_drive_folder) == opt_text(settings.google_drive_folder),
        opt_text(r.play_tracking_shortcut) == opt_text(device.play_tracking_shortcut),
        opt_text(r.play_tracking_shortcut_error) == opt_text(device.shortcut_registration_error),
{
    let mut settings = settings;
    settings.play_tracking_shortcut = device.play_tracking_shortcut.clone();
    settings.play_tracking_shortcut_error = device.shortcut_registration_error.clone();
    settings
}

/// Saving settings and reading them back gives each value trimmed, and a
/// cleared or blank value reads back as unset, whatever was stored before.
pub proof fn lemma_settings_round_trip(before: Seq<(String, String)>, written: Seq<(String, String)>, settings: Settings)
    requires
        written.len() == 2,
        written[0].0@ == KEY_USER_IDENTIFIER@,
        written[0].1@ == stored_text(opt_text(settings.user_identifier)),
        written[1].0@ == KEY_GOOGLE_DRIVE_FOLDER@,
        written[1].1@ == stored_text(opt_text(settings.google_drive_folder)),
    ensures
        setting_of(last_value(before + written, KEY_USER_IDENTIFIER@)) == setting_of(
            Some(stored_text(opt_text(settings.user_identifier))),
        ),
        setting_of(last_value(before + written, KEY_GOOGLE_DRIVE_FOLDER@)) == setting_of(
            Some(stored_text(opt_text(settings.google_drive_folder))),
        ),
{
    reveal_strlit("user_identifier");
    reveal_strlit("google_drive_folder");
    let all = before + written;
    assert(all.last() == written[1]);
    assert(all.drop_last().last() == written[0]);
    assert(KEY_USER_IDENTIFIER@ != KEY_GOOGLE_DRIVE_FOLDER@) by {
        assert(KEY_USER_IDENTIFIER@[0] == 'u' && KEY_GOOGLE_DRIVE_FOLDER@[0] == 'g');
    }
    assert(last_value(all.drop_last(), KEY_USER_IDENTIFIER@) == Some(written[0].1@));
    assert(last_value(all, KEY_USER_IDENTIFIER@) == Some(written[0].1@));
}

/// The steps of saving the settings, in the order they run: register the
/// shortcut, write this installation's file, store the profile.
#[derive(Debug, Clone, Copy, PartialEq, Eq, Structural)]
pub enum SettingsStep {
    Shortcut,
    DeviceFile,
    Profile,
}

/// What a failed save puts back.
#[derive(Debug, Clone, Copy, PartialEq, Eq, Structural)]
pub struct SettingsUndo {
    /// Register the previous shortcut again.
    pub restore_shortcut: bool,
    /// Write the previous device file again.
    pub restore_device_file: bool,
}

/// Whether `done` runs before `failed`, so that it has taken effect.
pub open spec fn runs_before(done: SettingsStep, failed: SettingsStep) -> bool {
    match (done, failed) {
        (SettingsStep::Shortcut, SettingsStep::DeviceFile) => true,
        (SettingsStep::Shortcut, SettingsStep::Profile) => true,
        (SettingsStep::DeviceFile, SettingsStep::Profile) => true,
        _ => false,
    }
}

/// A failed save undoes exactly the steps that ran before the failing one; a
/// refused shortcut has already put the previous one back itself.
pub fn undo_after(failed: SettingsStep) -> (r: SettingsUndo)
    ensures
        r.restore_shortcut == runs_before(SettingsStep::Shortcut, failed),
        r.restore_device_file == runs_before(SettingsStep::DeviceFile, failed),
{
    match failed {
        SettingsStep::Shortcut => SettingsUndo { restore_shortcut: false, restore_device_file: false },
        SettingsStep::DeviceFile => SettingsUndo { restore_shortcut: true, restore_device_file: false },
        SettingsStep::Profile => SettingsUndo { restore_shortcut: true, restore_device_file: true },
    }
}

} // verus!
