//! Achievement rules: cleaning user input, validating progress and keeping
//! the status in step with it. The service that stores achievements applies
//! these before every write.
use vstd::prelude::*;
use crate::domain::achievement::{Achievement, AchievementStatus, AchievementUpdate, NewAchievement};
use crate::error::{AppError, fails_with};
use crate::text::trimmed;
use crate::validation::empty_message;

verus! {

/// The text of an optional string.
pub open spec fn opt_text(o: Option<String>) -> Option<Seq<char>> {
    match o {
        Some(s) => Some(s@),
        None => None,
    }
}

/// An optional text trimmed, with a blank one dropped.
pub open spec fn cleaned(o: Option<Seq<char>>) -> Option<Seq<char>> {
    match o {
        Some(s) => if trimmed(s).len() == 0 {
            None
        } else {
            Some(trimmed(s))
        },
        None => None,
    }
}

/// A target without a current value starts the progress at zero.
pub open spec fn defaulted_current(current: Option<i64>, target: Option<i64>) -> Option<i64> {
    if target is Some && current is None {
        Some(0)
    } else {
        current
    }
}

/// The first rule that a milestone breaks, as its message.
pub open spec fn achievement_failure(
    title: Seq<char>,
    current: Option<i64>,
    target: Option<i64>,
    display_order: i64,
) -> Option<Seq<char>> {
    if trimmed(title).len() == 0 {
        Some(empty_message("title"@))
    } else if display_order < 0 {
        Some("displayOrder must be at least 0"@)
    } else if current matches Some(c) && c < 0 {
        Some("progressCurrent must be at least 0"@)
    } else if target matches Some(t) && t <= 0 {
        Some("progressTarget must be greater than 0"@)
    } else if current matches Some(c) && target matches Some(t) && c > t {
        Some("progressCurrent must not exceed progressTarget"@)
    } else {
        None
    }
}

/// Reaching the target completes a milestone; otherwise the status stays.
pub open spec fn progress_status(
    status: AchievementStatus,
    current: Option<i64>,
    target: Option<i64>,
) -> AchievementStatus {
    if current matches Some(c) && target matches Some(t) && c >= t {
        AchievementStatus::Completed
    } else {
        status
    }
}

/// `n` is `o` with its texts cleaned and its progress defaulted.
pub open spec fn new_cleaned_from(n: NewAchievement, o: NewAchievement) -> bool {
    &&& n.game_id == o.game_id
    &&& n.title@ == trimmed(o.title@)
    &&& opt_text(n.description) == cleaned(opt_text(o.description))
    &&& opt_text(n.category) == cleaned(opt_text(o.category))
    &&& opt_text(n.progress_unit) == cleaned(opt_text(o.progress_unit))
    &&& opt_text(n.completed_at) == cleaned(opt_text(o.completed_at))
    &&& n.progress_current == defaulted_current(o.progress_current, o.progress_target)
    &&& n.progress_target == o.progress_target
    &&& n.is_hidden == o.is_hidden
    &&& n.display_order == o.display_order
}

/// `n` is `o` with its texts cleaned and its progress defaulted.
pub open spec fn update_cleaned_from(n: AchievementUpdate, o: AchievementUpdate) -> bool {
    &&& n.title@ == trimmed(o.title@)
    &&& opt_text(n.description) == cleaned(opt_text(o.description))
    &&& opt_text(n.category) == cleaned(opt_text(o.category))
    &&& opt_text(n.progress_unit) == cleaned(opt_text(o.progress_unit))
    &&& opt_text(n.completed_at) == cleaned(opt_text(o.completed_at))
    &&& n.progress_current == defaulted_current(o.progress_current, o.progress_target)
    &&& n.progress_target == o.progress_target
    &&& n.is_hidden == o.is_hidden
    &&& n.display_order == o.display_order
}

/// Trim an optional text, dropping it when nothing is left.
pub fn clean_optional(value: Option<String>) -> (r: Option<String>)
    ensures
        opt_text(r) == cleaned(opt_text(value)),
{
    match value {
        Some(v) => {
            let t = crate::text::trim_owned(v.as_str());
            if t.as_str().is_empty() {
                None
            } else {
                Some(t)
            }
        },
        None => None,
    }
}

/// Clean the texts of a new milestone and start a targeted progress at zero.
pub fn normalize_new(input: &mut NewAchievement)
    ensures
        new_cleaned_from(*final(input), *old(input)),
        final(input).status == old(input).status,
{
    input.title = crate::text::trim_owned(input.title.as_str());
    input.description = clean_optional(input.description.take());
    input.category = clean_optional(input.category.take());
    input.progress_unit = clean_optional(input.progress_unit.take());
    input.completed_at = clean_optional(input.completed_at.take());
    if input.progress_target.is_some() && input.progress_current.is_none() {
        input.progress_current = Some(0);
    }
}

/// Clean the texts of an update and start a targeted progress at zero.
pub fn normalize_update(update: &mut AchievementUpdate)
    ensures
        update_cleaned_from(*final(update), *old(update)),
        final(update).status == old(update).status,
{
    update.title = crate::text::trim_owned(update.title.as_str());
    update.description = clean_optional(update.description.take());
    update.category = clean_optional(update.category.take());
    update.progress_unit = clean_optional(update.progress_unit.take());
    update.completed_at = clean_optional(update.completed_at.take());
    if update.progress_target.is_some() && update.progress_current.is_none() {
        update.progress_current = Some(0);
    }
}

/// Check a milestone's title, order and progress, reporting the first
/// broken rule.
pub fn validate(
    title: &str,
    progress_current: Option<i64>,
    progress_target: Option<i64>,
    display_order: i64,
) -> (r: Result<(), AppError>)
    ensures
        achievement_failure(title@, progress_current, progress_target, display_order) matches Some(
            m,
        ) ==> fails_with(r, m),
        achievement_failure(title@, progress_current, progress_target, display_order) is None
            ==> r is Ok,
{
    crate::validation::require_non_empty("title", title)?;
    if display_order < 0 {
        return Err(AppError::validation("displayOrder must be at least 0"));
    }
    if let Some(current) = progress_current {
        if current < 0 {
            return Err(AppError::validation("progressCurrent must be at least 0"));
        }
    }
    if let Some(target) = progress_target {
        if target <= 0 {
            return Err(AppError::validation("progressTarget must be greater than 0"));
        }
    }
    if let (Some(current), Some(target)) = (progress_current, progress_target) {
        if current > target {
            return Err(AppError::validation("progressCurrent must not exceed progressTarget"));
        }
    }
    Ok(())
}

/// Complete a milestone whose progress reached its target.
pub fn apply_progress_status(
    status: &mut AchievementStatus,
    progress_current: Option<i64>,
    progress_target: Option<i64>,
)
    ensures
        *final(status) == progress_status(*old(status), progress_current, progress_target),
{
    if let (Some(current), Some(target)) = (progress_current, progress_target) {
        if current >= target {
            *status = AchievementStatus::Completed;
        }
    }
}


/// Cleaning an optional text twice is cleaning it once.
pub proof fn lemma_cleaned_idempotent(o: Option<Seq<char>>)
    ensures
        cleaned(cleaned(o)) == cleaned(o),
{
    if let Some(s) = o {
        crate::text::lemma_trim_idempotent(s);
    }
}

/// A new milestone as the service stores it: cleaned, checked, and completed
/// when its progress has reached its target.
pub fn prepare_new(input: NewAchievement) -> (r: Result<NewAchievement, AppError>)
    ensures
        ({
            let current = defaulted_current(input.progress_current, input.progress_target);
            let order = match input.display_order {
                Some(o) => o,
                None => 0,
            };
            match achievement_failure(input.title@, current, input.progress_target, order) {
                Some(m) => fails_with(r, m),
                None => r matches Ok(n) && new_cleaned_from(n, input) && n.status == progress_status(
                    input.status,
                    current,
                    input.progress_target,
                ),
            }
        }),
{
    let ghost given = input;
    let mut input = input;
    normalize_new(&mut input);
    proof {
        crate::text::lemma_trim_idempotent(given.title@);
    }
    validate(
        input.title.as_str(),
        input.progress_current,
        input.progress_target,
        input.display_order.unwrap_or(0),
    )?;
    apply_progress_status(&mut input.status, input.progress_current, input.progress_target);
    Ok(input)
}

/// An edit as the service stores it: cleaned, checked, and completed when its
/// progress has reached its target.
pub fn prepare_update(update: AchievementUpdate) -> (r: Result<AchievementUpdate, AppError>)
    ensures
        ({
            let current = defaulted_current(update.progress_current, update.progress_target);
            match achievement_failure(
                update.title@,
                current,
                update.progress_target,
                update.display_order,
            ) {
                Some(m) => fails_with(r, m),
                None => r matches Ok(n) && update_cleaned_from(n, update) && n.status
                    == progress_status(update.status, current, update.progress_target),
            }
        }),
{
    let ghost given = update;
    let mut update = update;
    normalize_update(&mut update);
    proof {
        crate::text::lemma_trim_idempotent(given.title@);
    }
    validate(
        update.title.as_str(),
        update.progress_current,
        update.progress_target,
        update.display_order,
    )?;
    apply_progress_status(&mut update.status, update.progress_current, update.progress_target);
    Ok(update)
}

/// `u` carries every stored field of `a` unchanged.
pub open spec fn update_copies(u: AchievementUpdate, a: Achievement) -> bool {
    &&& u.title@ == a.title@
    &&& opt_text(u.description) == opt_text(a.description)
    &&& opt_text(u.category) == opt_text(a.category)
    &&& u.progress_target == a.progress_target
    &&& opt_text(u.progress_unit) == opt_text(a.progress_unit)
    &&& u.is_hidden == a.is_hidden
    &&& u.display_order == a.display_order
}

/// Recorded progress is never negative; this is checked before the stored
/// milestone is read.
pub fn check_progress(progress_current: i64) -> (r: Result<(), AppError>)
    ensures
        progress_current < 0 ==> fails_with(r, "progressCurrent must be at least 0"@),
        progress_current >= 0 ==> r is Ok,
{
    if progress_current < 0 {
        return Err(AppError::validation("progressCurrent must be at least 0"));
    }
    Ok(())
}

/// The edit that records new progress on a stored milestone: the progress is
/// set, checked against the stored fields, and completes the milestone when
/// it reaches the target.
pub fn progress_update(achievement: Achievement, progress_current: i64) -> (r: Result<
    AchievementUpdate,
    AppError,
>)
    ensures
        progress_current < 0 ==> fails_with(r, "progressCurrent must be at least 0"@),
        progress_current >= 0 ==> match achievement_failure(
            achievement.title@,
            Some(progress_current),
            achievement.progress_target,
            achievement.display_order,
        ) {
            Some(m) => fails_with(r, m),
            None => r matches Ok(u) && update_copies(u, achievement) && opt_text(u.completed_at)
                == opt_text(achievement.completed_at) && u.progress_current == Some(
                progress_current,
            ) && u.status == progress_status(
                achievement.status,
                Some(progress_current),
                achievement.progress_target,
            ),
        },
{
    check_progress(progress_current)?;
    let mut update = AchievementUpdate {
        title: achievement.title,
        description: achievement.description,
        category: achievement.category,
        status: achievement.status,
        progress_current: Some(progress_current),
        progress_target: achievement.progress_target,
        progress_unit: achievement.progress_unit,
        completed_at: achievement.completed_at,
        is_hidden: achievement.is_hidden,
        display_order: achievement.display_order,
    };
    validate(
        update.title.as_str(),
        update.progress_current,
        update.progress_target,
        update.display_order,
    )?;
    apply_progress_status(&mut update.status, update.progress_current, update.progress_target);
    Ok(update)
}

/// The progress a completed milestone records: its target when it has one.
pub open spec fn completed_progress(current: Option<i64>, target: Option<i64>) -> Option<i64> {
    if target is Some {
        target
    } else {
        current
    }
}

/// The edit that completes a stored milestone: status completed, progress
/// filled up to the target, texts cleaned.
pub fn completion_update(achievement: Achievement) -> (r: AchievementUpdate)
    ensures
        r.title@ == trimmed(achievement.title@),
        opt_text(r.description) == cleaned(opt_text(achievement.description)),
        opt_text(r.category) == cleaned(opt_text(achievement.category)),
        opt_text(r.progress_unit) == cleaned(opt_text(achievement.progress_unit)),
        opt_text(r.completed_at) == cleaned(opt_text(achievement.completed_at)),
        r.status == AchievementStatus::Completed,
        r.progress_current == completed_progress(
            achievement.progress_current,
            achievement.progress_target,
        ),
        r.progress_target == achievement.progress_target,
        r.is_hidden == achievement.is_hidden,
        r.display_order == achievement.display_order,
{
    let current = match achievement.progress_target {
        Some(t) => Some(t),
        None => achievement.progress_current,
    };
    let mut update = AchievementUpdate {
        title: achievement.title,
        description: achievement.description,
        category: achievement.category,
        status: AchievementStatus::Completed,
        progress_current: current,
        progress_target: achievement.progress_target,
        progress_unit: achievement.progress_unit,
        completed_at: achievement.completed_at,
        is_hidden: achievement.is_hidden,
        display_order: achievement.display_order,
    };
    normalize_update(&mut update);
    update
}

/// The edit that reopens a stored milestone: in progress again, with its
/// completion time cleared and everything else kept.
pub fn reopen_update(achievement: Achievement) -> (r: AchievementUpdate)
    ensures
        update_copies(r, achievement),
        r.progress_current == achievement.progress_current,
        r.status == AchievementStatus::InProgress,
        r.completed_at is None,
{
    AchievementUpdate {
        title: achievement.title,
        description: achievement.description,
        category: achievement.category,
        status: AchievementStatus::InProgress,
        progress_current: achievement.progress_current,
        progress_target: achievement.progress_target,
        progress_unit: achievement.progress_unit,
        completed_at: None,
        is_hidden: achievement.is_hidden,
        display_order: achievement.display_order,
    }
}


/// `n` is what preparing `input` yields when it succeeds.
pub open spec fn prepared_new(input: NewAchievement, n: NewAchievement) -> bool {
    let current = defaulted_current(input.progress_current, input.progress_target);
    let order = match input.display_order {
        Some(o) => o,
        None => 0,
    };
    &&& achievement_failure(input.title@, current, input.progress_target, order) is None
    &&& new_cleaned_from(n, input)
    &&& n.status == progress_status(input.status, current, input.progress_target)
}

/// Two new milestones hold the same values.
pub open spec fn same_new(a: NewAchievement, b: NewAchievement) -> bool {
    &&& a.game_id == b.game_id
    &&& a.title@ == b.title@
    &&& opt_text(a.description) == opt_text(b.description)
    &&& opt_text(a.category) == opt_text(b.category)
    &&& a.status == b.status
    &&& a.progress_current == b.progress_current
    &&& a.progress_target == b.progress_target
    &&& opt_text(a.progress_unit) == opt_text(b.progress_unit)
    &&& opt_text(a.completed_at) == opt_text(b.completed_at)
    &&& a.is_hidden == b.is_hidden
    &&& a.display_order == b.display_order
}

/// A prepared milestone is stable: it passes every rule again, and preparing
/// it a second time changes nothing.
pub proof fn lemma_prepare_new_stable(input: NewAchievement, n: NewAchievement, again: NewAchievement)
    requires
        prepared_new(input, n),
    ensures
        ({
            let order = match n.display_order {
                Some(o) => o,
                None => 0,
            };
            achievement_failure(
                n.title@,
                defaulted_current(n.progress_current, n.progress_target),
                n.progress_target,
                order,
            ) is None
        }),
        prepared_new(n, again) ==> same_new(again, n),
{
    crate::text::lemma_trim_idempotent(input.title@);
    lemma_cleaned_idempotent(opt_text(input.description));
    lemma_cleaned_idempotent(opt_text(input.category));
    lemma_cleaned_idempotent(opt_text(input.progress_unit));
    lemma_cleaned_idempotent(opt_text(input.completed_at));
}

/// A milestone whose progress reaches its target is completed, whatever its
/// status was; below the target the status is left as the user set it.
pub proof fn lemma_reaching_target_completes(
    status: AchievementStatus,
    current: i64,
    target: i64,
)
    ensures
        current >= target ==> progress_status(status, Some(current), Some(target))
            == AchievementStatus::Completed,
        current < target ==> progress_status(status, Some(current), Some(target)) == status,
        progress_status(status, Some(current), None) == status,
{
}

} // verus!
