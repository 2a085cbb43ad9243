use xareon::db::migrations::{current_version, migration_name, pending_migrations};
use xareon::domain::play_session::{PlaySession, TrackingSource};
use xareon::repositories::daily_play::{seconds_by_source, split_by_day, LocalDay};
use xareon::error::AppError;
use xareon::repositories::game_process::prepare_binding;
use xareon::repositories::statistics::{over_time_bucket, over_time_sql};
use xareon::domain::statistics::StatsGranularity;
use xareon::services::play_session::{
    active_for_game, check_can_start, daily_limit, format_duration, toggle_action, tracking_changed, ToggleAction,
};
use xareon::config::global_shortcut::{shortcut_changes, shortcut_error};

fn session(game_id: i64) -> PlaySession {
    PlaySession {
        game_id,
        started_at: "2026-01-15 10:00:00".into(),
        last_activity_at: "2026-01-15 10:05:00".into(),
        tracking_source: TrackingSource::Manual,
    }
}

#[test]
fn durations_show_minutes_then_hours() {
    assert_eq!(format_duration(-30), "0m");
    assert_eq!(format_duration(59), "0m");
    assert_eq!(format_duration(600), "10m");
    assert_eq!(format_duration(3_599), "59m");
    assert_eq!(format_duration(3_600), "1h 0m");
    assert_eq!(format_duration(9_000), "2h 30m");
}

#[test]
fn heartbeat_and_stop_address_only_the_active_game() {
    assert_eq!(active_for_game(Some(session(3)), 3).unwrap().game_id, 3);
    let none = Err(AppError::Validation("this game has no active session".into()));
    assert_eq!(active_for_game(Some(session(3)), 4).map(|s| s.game_id), none);
    assert_eq!(active_for_game(None, 4).map(|s| s.game_id), none);
}

#[test]
fn one_game_at_a_time() {
    assert_eq!(
        check_can_start(true, true),
        Err(AppError::Validation("another game is already being tracked".into()))
    );
    assert_eq!(check_can_start(false, false), Err(AppError::NotFound));
    assert_eq!(check_can_start(false, true), Ok(()));
}

#[test]
fn shortcut_stops_or_starts_the_last_game() {
    assert_eq!(toggle_action(&Some(session(2)), Some(9)), ToggleAction::Stop(2));
    assert_eq!(toggle_action(&None, Some(9)), ToggleAction::Start(9));
    assert_eq!(toggle_action(&None, None), ToggleAction::NothingToStart);
    let changed = tracking_changed(ToggleAction::NothingToStart);
    assert_eq!(changed.game_id, None);
    assert!(!changed.is_playing);
    assert_eq!(
        changed.error.as_deref(),
        Some("Open Xareon and start a game once before using the shortcut.")
    );
    assert!(tracking_changed(ToggleAction::Start(9)).is_playing);
}

#[test]
fn history_limits_are_clamped() {
    assert_eq!(daily_limit(0), 1);
    assert_eq!(daily_limit(20), 20);
    assert_eq!(daily_limit(1000), 100);
}

#[test]
fn pending_migrations_follow_the_user_version() {
    assert_eq!(current_version(), 8);
    assert_eq!(pending_migrations(0), vec![0, 1, 2, 3, 4, 5, 6, 7]);
    assert_eq!(pending_migrations(5), vec![5, 6, 7]);
    assert!(pending_migrations(8).is_empty());
    assert!(pending_migrations(12).is_empty());
    assert_eq!(migration_name(7), "0008_daily_play_time");
}

#[test]
fn executable_paths_are_checked() {
    assert_eq!(
        prepare_binding("   ").map(|c| c.executable_path),
        Err(AppError::Validation("executable path is required".into()))
    );
    let candidate = prepare_binding("  /games/Hades.EXE ").unwrap();
    assert_eq!(candidate.executable_path, "/games/Hades.EXE");
    assert_eq!(candidate.executable_name, "Hades.EXE");
    assert_eq!(candidate.executable_normalized, "\\games\\hades.exe");
    assert!(prepare_binding("/games/notes.txt").is_err());
}

#[test]
fn statistics_buckets() {
    assert_eq!(over_time_bucket(StatsGranularity::Month), "strftime('%Y-%m', play_date)");
    assert_eq!(
        over_time_sql(StatsGranularity::Year),
        "SELECT strftime('%Y', play_date), SUM(duration_seconds) FROM daily_play_time GROUP BY 1 ORDER BY 1"
    );
}

#[test]
fn shortcut_registration_changes() {
    assert!(!shortcut_changes(&None, &None));
    assert!(!shortcut_changes(&Some("A".into()), &Some("A".into())));
    assert!(shortcut_changes(&Some("A".into()), &None));
    assert!(shortcut_changes(&Some("A".into()), &Some("B".into())));
    assert_eq!(
        shortcut_error("occupied"),
        AppError::Validation("shortcut is invalid or already in use: occupied".into())
    );
}

/// 2026-01-15 00:00 and the two midnights after it, in a zone at UTC.
const JAN_15: i64 = 1_768_435_200;
const JAN_16: i64 = 1_768_521_600;
const JAN_17: i64 = 1_768_608_000;

fn calendar() -> Vec<LocalDay> {
    vec![
        LocalDay { play_date: "2026-01-15".into(), starts_at: JAN_15, ends_at: JAN_16 },
        LocalDay { play_date: "2026-01-16".into(), starts_at: JAN_16, ends_at: JAN_17 },
    ]
}

#[test]
fn period_crossing_midnight_is_split_without_losing_seconds() {
    // 23:50 to 00:20 of the next day.
    let days = split_by_day(JAN_16 - 600, JAN_16 + 1_200, &calendar());
    assert_eq!(days.len(), 2);
    let seconds: Vec<(&str, i64)> =
        days.iter().map(|d| (d.play_date.as_str(), d.ended_at - d.started_at)).collect();
    assert_eq!(seconds[0], ("2026-01-15", 600));
    assert_eq!(seconds[1], ("2026-01-16", 1_200));
    assert_eq!(seconds.iter().map(|(_, s)| s).sum::<i64>(), 1_800);
    for (_, s) in seconds {
        let (manual, automatic) = seconds_by_source(s, TrackingSource::Automatic);
        assert_eq!((manual, automatic), (0, s));
    }
}

#[test]
fn periods_within_one_day_stay_on_that_day() {
    let periods = [
        (10 * 3600, 10 * 3600 + 1_800),
        (11 * 3600 + 600, 11 * 3600 + 900),
        (12 * 3600 + 1_800, 14 * 3600 + 1_200),
        (16 * 3600, 16 * 3600 + 300),
    ];
    let mut total = 0;
    for (start, end) in periods {
        let days = split_by_day(JAN_15 + start, JAN_15 + end, &calendar());
        assert_eq!(days.len(), 1);
        assert_eq!(days[0].play_date, "2026-01-15");
        total += days[0].ended_at - days[0].started_at;
        assert_eq!(seconds_by_source(end - start, TrackingSource::Manual), (end - start, 0));
    }
    assert_eq!(total, 9_000);
}

#[test]
fn empty_or_reversed_periods_give_no_segment() {
    assert!(split_by_day(JAN_15 + 50, JAN_15 + 50, &calendar()).is_empty());
    assert!(split_by_day(JAN_15 + 50, JAN_15 + 10, &calendar()).is_empty());
    assert!(split_by_day(JAN_15, JAN_16, &[].to_vec()).is_empty());
    let whole = split_by_day(JAN_15, JAN_17, &calendar());
    assert_eq!(whole.len(), 2);
    assert_eq!((whole[1].started_at, whole[1].ended_at), (JAN_16, JAN_17));
}

#[test]
fn full_paths_name_their_last_part() {
    let unix = prepare_binding("/games/foo.exe").unwrap();
    assert_eq!(unix.executable_name, "foo.exe");
    let drive = prepare_binding(" C:/Games/Foo.EXE ").unwrap();
    assert_eq!(drive.executable_path, "C:/Games/Foo.EXE");
    assert_eq!(drive.executable_name, "Foo.EXE");
    assert_eq!(drive.executable_normalized, "c:\\games\\foo.exe");
    assert_eq!(
        prepare_binding("/games/readme.txt").map(|c| c.executable_name),
        Err(AppError::Validation("the selected process is not an executable".into()))
    );
    let plain = prepare_binding("game.exe").unwrap();
    assert_eq!(plain.executable_name, "game.exe");
}
