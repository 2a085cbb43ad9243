use xareon::domain::achievement::{Achievement, AchievementStatus, AchievementUpdate, NewAchievement};
use xareon::error::AppError;
use xareon::services::achievement::{
    apply_progress_status, check_progress, clean_optional, completion_update, normalize_new, prepare_new, prepare_update,
    progress_update, reopen_update, validate,
};

fn new_input() -> NewAchievement {
    NewAchievement {
        game_id: 3,
        title: "  Defeat the boss ".into(),
        description: Some("  ".into()),
        category: Some(" Bosses ".into()),
        status: AchievementStatus::Planned,
        progress_current: None,
        progress_target: Some(5),
        progress_unit: None,
        completed_at: Some(" ".into()),
        is_hidden: false,
        display_order: None,
    }
}

fn stored() -> Achievement {
    Achievement {
        id: 9,
        game_id: 3,
        title: "Collect gems".into(),
        description: Some(" shiny ".into()),
        category: None,
        status: AchievementStatus::InProgress,
        progress_current: Some(2),
        progress_target: Some(10),
        progress_unit: Some("gems".into()),
        completed_at: None,
        is_hidden: true,
        display_order: 4,
        created_at: "2026-01-01 00:00:00".into(),
        updated_at: "2026-01-01 00:00:00".into(),
    }
}

fn validation(message: &str) -> AppError {
    AppError::Validation(message.to_string())
}

#[test]
fn optional_texts_are_trimmed_and_blank_ones_dropped() {
    assert_eq!(clean_optional(None), None);
    assert_eq!(clean_optional(Some("   ".into())), None);
    assert_eq!(clean_optional(Some(" a b ".into())), Some("a b".to_string()));
}

#[test]
fn new_achievements_are_cleaned_and_start_at_zero() {
    let mut input = new_input();
    normalize_new(&mut input);
    assert_eq!(input.title, "Defeat the boss");
    assert_eq!(input.description, None);
    assert_eq!(input.category.as_deref(), Some("Bosses"));
    assert_eq!(input.completed_at, None);
    assert_eq!(input.progress_current, Some(0));
    assert_eq!(input.progress_target, Some(5));
}

#[test]
fn validation_reports_the_first_broken_rule() {
    assert_eq!(validate(" ", Some(-1), Some(0), -1), Err(validation("title must not be empty")));
    assert_eq!(validate("t", Some(-1), Some(0), -1), Err(validation("displayOrder must be at least 0")));
    assert_eq!(validate("t", Some(-1), Some(0), 0), Err(validation("progressCurrent must be at least 0")));
    assert_eq!(validate("t", Some(1), Some(0), 0), Err(validation("progressTarget must be greater than 0")));
    assert_eq!(validate("t", Some(6), Some(5), 0), Err(validation("progressCurrent must not exceed progressTarget")));
    assert_eq!(validate("t", Some(5), Some(5), 0), Ok(()));
    assert_eq!(validate("t", None, None, 0), Ok(()));
}

#[test]
fn reaching_the_target_completes() {
    let mut status = AchievementStatus::Planned;
    apply_progress_status(&mut status, Some(4), Some(5));
    assert_eq!(status, AchievementStatus::Planned);
    apply_progress_status(&mut status, Some(5), Some(5));
    assert_eq!(status, AchievementStatus::Completed);
    let mut status = AchievementStatus::InProgress;
    apply_progress_status(&mut status, Some(5), None);
    assert_eq!(status, AchievementStatus::InProgress);
}

#[test]
fn prepared_new_achievement_is_stable() {
    let prepared = prepare_new(new_input()).unwrap();
    assert_eq!(prepared.title, "Defeat the boss");
    assert_eq!(prepared.status, AchievementStatus::Planned);
    let again = prepare_new(prepared.clone()).unwrap();
    assert_eq!(again.title, prepared.title);
    assert_eq!(again.category, prepared.category);
    assert_eq!(again.progress_current, prepared.progress_current);
    assert_eq!(again.status, prepared.status);

    let mut done = new_input();
    done.progress_current = Some(5);
    assert_eq!(prepare_new(done).unwrap().status, AchievementStatus::Completed);

    let mut bad = new_input();
    bad.title = "   ".into();
    assert_eq!(prepare_new(bad).unwrap_err(), validation("title must not be empty"));
}

#[test]
fn prepared_update_checks_progress() {
    let update = AchievementUpdate {
        title: " x ".into(),
        description: None,
        category: None,
        status: AchievementStatus::InProgress,
        progress_current: Some(11),
        progress_target: Some(10),
        progress_unit: None,
        completed_at: None,
        is_hidden: false,
        display_order: 0,
    };
    assert_eq!(
        prepare_update(update).unwrap_err(),
        validation("progressCurrent must not exceed progressTarget")
    );
}

#[test]
fn setting_progress_to_the_target_completes() {
    assert_eq!(progress_update(stored(), -1).unwrap_err(), validation("progressCurrent must be at least 0"));
    assert_eq!(progress_update(stored(), 11).unwrap_err(), validation("progressCurrent must not exceed progressTarget"));
    let partial = progress_update(stored(), 7).unwrap();
    assert_eq!(partial.status, AchievementStatus::InProgress);
    assert_eq!(partial.progress_current, Some(7));
    assert_eq!(partial.description.as_deref(), Some(" shiny "));
    let full = progress_update(stored(), 10).unwrap();
    assert_eq!(full.status, AchievementStatus::Completed);
}

#[test]
fn completing_fills_progress_and_reopening_clears_completion() {
    let done = completion_update(stored());
    assert_eq!(done.status, AchievementStatus::Completed);
    assert_eq!(done.progress_current, Some(10));
    assert_eq!(done.description.as_deref(), Some("shiny"));
    assert_eq!(done.display_order, 4);

    let mut finished = stored();
    finished.status = AchievementStatus::Completed;
    finished.progress_current = Some(10);
    finished.completed_at = Some("2026-02-01 10:00:00".into());
    let reopened = reopen_update(finished);
    assert_eq!(reopened.status, AchievementStatus::InProgress);
    assert_eq!(reopened.completed_at, None);
    assert_eq!(reopened.progress_current, Some(10));

    let mut untargeted = stored();
    untargeted.progress_target = None;
    assert_eq!(completion_update(untargeted).progress_current, Some(2));
}

#[test]
fn negative_progress_is_refused_before_anything_is_read() {
    assert_eq!(check_progress(0), Ok(()));
    assert_eq!(check_progress(41), Ok(()));
    assert_eq!(
        check_progress(-1),
        Err(AppError::Validation("progressCurrent must be at least 0".into()))
    );
}
