use xareon::config::device_settings::DeviceSettings;
use xareon::domain::settings::Settings;
use xareon::repositories::genres::{genres_to_link, group_genres};
use xareon::services::settings::{
    merge_device_settings, normalize, settings_from_rows, settings_rows, undo_after, SettingsStep,
};

fn names(v: &[&str]) -> Vec<String> {
    v.iter().map(|s| s.to_string()).collect()
}

#[test]
fn each_genre_is_linked_once_with_its_first_spelling() {
    let linked = genres_to_link(&names(&["RPG", " rpg ", "", "  ", "Action", "ACTION", "Puzzle"]));
    assert_eq!(linked, names(&["RPG", "Action", "Puzzle"]));
    assert!(genres_to_link(&vec![]).is_empty());
}

#[test]
fn genre_rows_group_by_game_in_row_order() {
    let rows = vec![
        (2, "Action".to_string()),
        (1, "Puzzle".to_string()),
        (2, "RPG".to_string()),
        (7, "Sim".to_string()),
    ];
    let grouped = group_genres(&vec![1, 2, 3, 2], &rows);
    assert_eq!(
        grouped,
        vec![Some(names(&["Puzzle"])), Some(names(&["Action", "RPG"])), None, None]
    );
}

#[test]
fn saved_settings_read_back_trimmed_and_cleared_ones_unset() {
    let settings = Settings {
        user_identifier: Some("  vitalii ".into()),
        google_drive_folder: Some("   ".into()),
        play_tracking_shortcut: None,
        play_tracking_shortcut_error: None,
    };
    let mut rows = vec![
        ("user_identifier".to_string(), "old".to_string()),
        ("google_drive_folder".to_string(), "https://drive/old".to_string()),
        ("other".to_string(), "x".to_string()),
    ];
    rows.extend(settings_rows(settings));
    let read = settings_from_rows(&rows);
    assert_eq!(read.user_identifier.as_deref(), Some("vitalii"));
    assert_eq!(read.google_drive_folder, None);
    assert_eq!(read.play_tracking_shortcut, None);
}

#[test]
fn unset_settings_read_as_none() {
    let read = settings_from_rows(&vec![]);
    assert_eq!(read.user_identifier, None);
    assert_eq!(read.google_drive_folder, None);
    assert_eq!(normalize(None), "");
    assert_eq!(normalize(Some(" a ".into())), "a");
}

#[test]
fn device_shortcut_is_merged_into_the_settings() {
    let device = DeviceSettings {
        play_tracking_shortcut: None,
        shortcut_registration_error: Some("occupied".into()),
    };
    let merged = merge_device_settings(
        Settings { user_identifier: Some("me".into()), ..Settings::default() },
        &device,
    );
    assert_eq!(merged.user_identifier.as_deref(), Some("me"));
    assert_eq!(merged.play_tracking_shortcut, None);
    assert_eq!(merged.play_tracking_shortcut_error.as_deref(), Some("occupied"));
    let fresh = DeviceSettings::default();
    assert_eq!(fresh.play_tracking_shortcut.as_deref(), Some("CmdOrCtrl+Shift+P"));
    assert_eq!(fresh.shortcut_registration_error, None);
}

#[test]
fn saved_settings_choose_the_device_shortcut_and_clear_its_error() {
    let settings = Settings {
        user_identifier: Some("vitalii".into()),
        google_drive_folder: None,
        play_tracking_shortcut: Some("Alt+P".into()),
        play_tracking_shortcut_error: Some("old failure".into()),
    };
    let device = DeviceSettings::from_settings(&settings);
    assert_eq!(device.play_tracking_shortcut.as_deref(), Some("Alt+P"));
    assert_eq!(device.shortcut_registration_error, None);

    let disabled = Settings { play_tracking_shortcut: None, ..settings };
    assert_eq!(DeviceSettings::from_settings(&disabled).play_tracking_shortcut, None);
}

#[test]
fn a_failed_save_undoes_the_steps_before_it() {
    let refused = undo_after(SettingsStep::Shortcut);
    assert!(!refused.restore_shortcut && !refused.restore_device_file);
    let file = undo_after(SettingsStep::DeviceFile);
    assert!(file.restore_shortcut && !file.restore_device_file);
    let profile = undo_after(SettingsStep::Profile);
    assert!(profile.restore_shortcut && profile.restore_device_file);
}
