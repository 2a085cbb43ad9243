//! Moving a profile from the application's former namespace: the rule that
//! decides when it may replace the current profile.
use vstd::prelude::*;
use crate::error::{AppError, fails_with};

verus! {

/// The application identifier of the former namespace.
pub const LEGACY_IDENTIFIER: &'static str = "com.xareon.app";

/// The database file of the former namespace.
pub const LEGACY_DATABASE: &'static str = "xareon.db";

/// The database file of the current namespace.
pub const DATABASE: &'static str = "xavendrix.db";

/// Files that travel with a migrated profile.
pub const COMPANION_FILES: [&'static str; 2] = ["device-settings.json", "profile-sync.json"];

/// What the current profile database holds, as far as migration cares.
#[derive(Debug, Clone, Copy)]
pub struct ProfileContents {
    /// The database file exists.
    pub exists: bool,
    /// It has a `games` table.
    pub has_games_table: bool,
    /// Rows in `games`.
    pub games: i64,
    /// Rows in `settings`.
    pub settings: i64,
}

/// A profile counts as empty when it has no database, or a schema with no
/// games and no settings. A database without the games table is not
/// something to overwrite.
pub open spec fn is_empty_profile(p: ProfileContents) -> bool {
    !p.exists || (p.has_games_table && p.games == 0 && p.settings == 0)
}

/// Whether the current profile is empty.
pub fn profile_is_empty(contents: ProfileContents) -> (r: bool)
    ensures
        r == is_empty_profile(contents),
{
    if !contents.exists {
        return true;
    }
    if !contents.has_games_table {
        return false;
    }
    contents.games == 0 && contents.settings == 0
}

/// The former profile moves in only when it exists and the current one is
/// empty.
pub fn should_migrate(legacy_database_is_file: bool, current: ProfileContents) -> (r: bool)
    ensures
        r == (legacy_database_is_file && is_empty_profile(current)),
{
    legacy_database_is_file && profile_is_empty(current)
}

/// The former database moves in only when it passes SQLite's integrity
/// check, whose answer for a sound database is `ok`.
pub fn check_legacy_integrity(integrity: &str) -> (r: Result<(), AppError>)
    ensures
        integrity@ == "ok"@ ==> r is Ok,
        integrity@ != "ok"@ ==> fails_with(
            r,
            "legacy profile database failed integrity check: "@ + integrity@,
        ),
{
    if crate::text::str_eq(integrity, "ok") {
        return Ok(());
    }
    Err(AppError::Validation(crate::text::concat("legacy profile database failed integrity check: ", integrity)))
}

/// Migration never overwrites a profile that holds a game or a setting.
pub proof fn lemma_never_overwrites(legacy_database_is_file: bool, current: ProfileContents)
    requires
        current.exists,
        current.games > 0 || current.settings > 0,
    ensures
        !(legacy_database_is_file && is_empty_profile(current)),
{
}

} // verus!
