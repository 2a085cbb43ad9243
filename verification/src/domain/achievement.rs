//! Personal milestones of a game.
use vstd::prelude::*;
use crate::text::str_eq;

verus! {

/// Where a milestone stands. Stored and sent as `planned`, `in_progress`,
/// `completed`.
#[derive(Debug, Clone, Copy, PartialEq, Eq, Structural)]
pub enum AchievementStatus {
    Planned,
    InProgress,
    Completed,
}

impl AchievementStatus {
    /// The storage text of a status.
    pub open spec fn text(self) -> Seq<char> {
        match self {
            AchievementStatus::Planned => "planned"@,
            AchievementStatus::InProgress => "in_progress"@,
            AchievementStatus::Completed => "completed"@,
        }
    }

    /// The status that a storage text names, if any.
    pub open spec fn from_text(value: Seq<char>) -> Option<AchievementStatus> {
        if value == "planned"@ {
            Some(AchievementStatus::Planned)
        } else if value == "in_progress"@ {
            Some(AchievementStatus::InProgress)
        } else if value == "completed"@ {
            Some(AchievementStatus::Completed)
        } else {
            None
        }
    }

    /// The storage text of a status.
    pub fn as_str(self) -> (r: &'static str)
        ensures
            r@ == self.text(),
    {
        match self {
            AchievementStatus::Planned => "planned",
            AchievementStatus::InProgress => "in_progress",
            AchievementStatus::Completed => "completed",
        }
    }

    /// Read a status from its storage text; anything else is `None`.
    pub fn parse(value: &str) -> (r: Option<AchievementStatus>)
        ensures
            r == AchievementStatus::from_text(value@),
    {
        if str_eq(value, "planned") {
            Some(AchievementStatus::Planned)
        } else if str_eq(value, "in_progress") {
            Some(AchievementStatus::InProgress)
        } else if str_eq(value, "completed") {
            Some(AchievementStatus::Completed)
        } else {
            None
        }
    }
}

/// Reading back the text of a status gives the status, and distinct statuses
/// have distinct texts.
pub proof fn lemma_achievement_status_round_trip(status: AchievementStatus, other: AchievementStatus)
    ensures
        AchievementStatus::from_text(status.text()) == Some(status),
        status.text() == other.text() ==> status == other,
{
    reveal_strlit("planned");
    reveal_strlit("in_progress");
    reveal_strlit("completed");
    assert("planned"@[0] == 'p' && "in_progress"@[0] == 'i' && "completed"@[0] == 'c');
}

/// A stored milestone.
#[derive(Debug, Clone)]
pub struct Achievement {
    pub id: i64,
    pub game_id: i64,
    pub title: String,
    pub description: Option<String>,
    pub category: Option<String>,
    pub status: AchievementStatus,
    pub progress_current: Option<i64>,
    pub progress_target: Option<i64>,
    pub progress_unit: Option<String>,
    pub completed_at: Option<String>,
    pub is_hidden: bool,
    pub display_order: i64,
    pub created_at: String,
    pub updated_at: String,
}

/// Fields of a milestone to create.
#[derive(Debug, Clone)]
pub struct NewAchievement {
    pub game_id: i64,
    pub title: String,
    pub description: Option<String>,
    pub category: Option<String>,
    pub status: AchievementStatus,
    pub progress_current: Option<i64>,
    pub progress_target: Option<i64>,
    pub progress_unit: Option<String>,
    pub completed_at: Option<String>,
    pub is_hidden: bool,
    pub display_order: Option<i64>,
}

/// Fields of a milestone to overwrite.
#[derive(Debug, Clone)]
pub struct AchievementUpdate {
    pub title: String,
    pub description: Option<String>,
    pub category: Option<String>,
    pub status: AchievementStatus,
    pub progress_current: Option<i64>,
    pub progress_target: Option<i64>,
    pub progress_unit: Option<String>,
    pub completed_at: Option<String>,
    pub is_hidden: bool,
    pub display_order: i64,
}

} // verus!
