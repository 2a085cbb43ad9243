//! Play session rules: who may start, which session a heartbeat or stop
//! addresses, what the global shortcut does, and how long-running sessions
//! are shown.
use vstd::prelude::*;
use crate::domain::play_session::PlaySession;
use crate::error::{AppError, fails_with};
use crate::text::nat_text;

verus! {

/// How many daily rows the play history of a game shows.
pub const HISTORY_LIMIT: i64 = 20;

/// The active session when it belongs to `game_id`.
pub fn active_for_game(active: Option<PlaySession>, game_id: i64) -> (r: Result<PlaySession, AppError>)
    ensures
        match active {
            Some(s) => if s.game_id == game_id {
                r matches Ok(t) && t == s
            } else {
                fails_with(r, "this game has no active session"@)
            },
            None => fails_with(r, "this game has no active session"@),
        },
{
    match active {
        Some(s) => if s.game_id == game_id {
            Ok(s)
        } else {
            Err(AppError::validation("this game has no active session"))
        },
        None => Err(AppError::validation("this game has no active session")),
    }
}

/// Only one game is tracked at a time, and only an existing game can start.
pub fn check_can_start(already_tracking: bool, game_exists: bool) -> (r: Result<(), AppError>)
    ensures
        already_tracking ==> fails_with(r, "another game is already being tracked"@),
        !already_tracking && !game_exists ==> r == Err::<(), AppError>(AppError::NotFound),
        !already_tracking && game_exists ==> r is Ok,
{
    if already_tracking {
        return Err(AppError::validation("another game is already being tracked"));
    }
    if !game_exists {
        return Err(AppError::NotFound);
    }
    Ok(())
}

/// How many daily rows a history request may return: between 1 and 100.
pub fn daily_limit(limit: i64) -> (r: i64)
    ensures
        r == if limit < 1 {
            1
        } else if limit > 100 {
            100
        } else {
            limit
        },
{
    if limit < 1 {
        1
    } else if limit > 100 {
        100
    } else {
        limit
    }
}

/// What the global Play/Stop shortcut does.
#[derive(Debug, Clone, Copy, PartialEq, Eq, Structural)]
pub enum ToggleAction {
    /// Stop the active session of this game.
    Stop(i64),
    /// Start tracking the most recently played game.
    Start(i64),
    /// Nothing was ever played; there is no game to start.
    NothingToStart,
}

/// The shortcut stops whatever is tracked; otherwise it starts the game
/// played most recently.
pub fn toggle_action(active: &Option<PlaySession>, most_recent_game: Option<i64>) -> (r: ToggleAction)
    ensures
        active matches Some(s) ==> r == ToggleAction::Stop(s.game_id),
        active is None ==> match most_recent_game {
            Some(g) => r == ToggleAction::Start(g),
            None => r == ToggleAction::NothingToStart,
        },
{
    match active {
        Some(s) => ToggleAction::Stop(s.game_id),
        None => match most_recent_game {
            Some(g) => ToggleAction::Start(g),
            None => ToggleAction::NothingToStart,
        },
    }
}

/// What the frontend hears after tracking changed.
#[derive(Debug, Clone)]
pub struct TrackingChanged {
    pub game_id: Option<i64>,
    pub is_playing: bool,
    pub error: Option<String>,
}

/// The message shown when the shortcut has no game to start.
pub open spec fn first_game_message() -> Seq<char> {
    "Open Xareon and start a game once before using the shortcut."@
}

/// The change a completed shortcut action reports.
pub fn tracking_changed(action: ToggleAction) -> (r: TrackingChanged)
    ensures
        action matches ToggleAction::Stop(g) ==> r.game_id == Some(g) && !r.is_playing
            && r.error is None,
        action matches ToggleAction::Start(g) ==> r.game_id == Some(g) && r.is_playing
            && r.error is None,
        action is NothingToStart ==> r.game_id is None && !r.is_playing && (r.error matches Some(
            e,
        ) && e@ == first_game_message()),
{
    match action {
        ToggleAction::Stop(g) => TrackingChanged { game_id: Some(g), is_playing: false, error: None },
        ToggleAction::Start(g) => TrackingChanged { game_id: Some(g), is_playing: true, error: None },
        ToggleAction::NothingToStart => TrackingChanged {
            game_id: None,
            is_playing: false,
            error: Some("Open Xareon and start a game once before using the shortcut.".to_owned()),
        },
    }
}

/// The whole minutes of an elapsed time; negative times count as zero.
pub open spec fn whole_minutes(seconds: int) -> nat {
    if seconds < 0 {
        0
    } else {
        (seconds / 60) as nat
    }
}

/// How the indicator shows an elapsed time: `Mm` under an hour, `Hh Mm`
/// from an hour on.
pub open spec fn duration_text(seconds: int) -> Seq<char> {
    let minutes = whole_minutes(seconds);
    if minutes / 60 == 0 {
        nat_text(minutes) + "m"@
    } else {
        nat_text(minutes / 60) + "h "@ + nat_text(minutes % 60) + "m"@
    }
}

/// Format an elapsed time for the session indicator.
pub fn format_duration(seconds: i64) -> (r: String)
    ensures
        r@ == duration_text(seconds as int),
{
    let clamped = if seconds < 0 { 0 } else { seconds };
    let minutes = (clamped / 60) as u64;
    let hours = minutes / 60;
    let remaining = minutes % 60;
    let mut out = String::new();
    if hours == 0 {
        crate::text::push_nat(&mut out, minutes);
        out.append("m");
    } else {
        crate::text::push_nat(&mut out, hours);
        out.append("h ");
        crate::text::push_nat(&mut out, remaining);
        out.append("m");
    }
    out
}


/// Stopping a session by hand that the tracker started keeps the tracker
/// from starting it again while the game keeps running.
pub fn suppresses_automatic(active: &Option<PlaySession>, game_id: i64) -> (r: bool)
    ensures
        r == (active matches Some(s) && s.game_id == game_id && s.tracking_source
            == crate::domain::play_session::TrackingSource::Automatic),
{
    match active {
        Some(s) => s.game_id == game_id && s.tracking_source == crate::domain::play_session::TrackingSource::Automatic,
        None => false,
    }
}

} // verus!
