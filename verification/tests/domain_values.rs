use xareon::domain::achievement::AchievementStatus;
use xareon::domain::game::GameStatus;
use xareon::domain::genre::normalize;
use xareon::domain::play_session::{parse_source, TrackingSource};

#[test]
fn game_status_texts_round_trip() {
    let all = [
        (GameStatus::Planned, "planned"),
        (GameStatus::Playing, "playing"),
        (GameStatus::Paused, "paused"),
        (GameStatus::Completed, "completed"),
        (GameStatus::Completed100, "completed_100"),
        (GameStatus::Dropped, "dropped"),
        (GameStatus::Endless, "endless"),
    ];
    for (status, text) in all {
        assert_eq!(status.as_str(), text);
        assert_eq!(GameStatus::parse(text), Some(status));
    }
    assert_eq!(GameStatus::parse("Completed"), None);
    assert_eq!(GameStatus::parse(""), None);
}

#[test]
fn achievement_status_texts_round_trip() {
    for (status, text) in [
        (AchievementStatus::Planned, "planned"),
        (AchievementStatus::InProgress, "in_progress"),
        (AchievementStatus::Completed, "completed"),
    ] {
        assert_eq!(status.as_str(), text);
        assert_eq!(AchievementStatus::parse(text), Some(status));
    }
    assert_eq!(AchievementStatus::parse("done"), None);
}

#[test]
fn tracking_source_defaults_to_manual() {
    assert_eq!(TrackingSource::Manual.as_str(), "manual");
    assert_eq!(TrackingSource::Automatic.as_str(), "automatic");
    assert_eq!(parse_source("automatic"), TrackingSource::Automatic);
    assert_eq!(parse_source("manual"), TrackingSource::Manual);
    assert_eq!(parse_source("something else"), TrackingSource::Manual);
}

#[test]
fn genre_names_normalize_trimmed_and_lowercase() {
    assert_eq!(normalize("  Action RPG "), "action rpg");
    assert_eq!(normalize("   "), "");
}
