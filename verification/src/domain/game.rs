//! Games, their journey status and the game browser query.
use vstd::prelude::*;
use crate::text::str_eq;

verus! {

/// Where a game sits in the player's journey. Stored and sent as the
/// snake_case text (`completed_100` for a full completion).
#[derive(Debug, Clone, Copy, PartialEq, Eq, Structural)]
pub enum GameStatus {
    Planned,
    Playing,
    Paused,
    Completed,
    Completed100,
    Dropped,
    /// A game without an ending, played on and off.
    Endless,
}

impl GameStatus {
    /// The canonical text of a status, used on the wire and in storage.
    pub open spec fn text(self) -> Seq<char> {
        match self {
            GameStatus::Planned => "planned"@,
            GameStatus::Playing => "playing"@,
            GameStatus::Paused => "paused"@,
            GameStatus::Completed => "completed"@,
            GameStatus::Completed100 => "completed_100"@,
            GameStatus::Dropped => "dropped"@,
            GameStatus::Endless => "endless"@,
        }
    }

    /// The status that a text names, if any.
    pub open spec fn from_text(value: Seq<char>) -> Option<GameStatus> {
        if value == "planned"@ {
            Some(GameStatus::Planned)
        } else if value == "playing"@ {
            Some(GameStatus::Playing)
        } else if value == "paused"@ {
            Some(GameStatus::Paused)
        } else if value == "completed"@ {
            Some(GameStatus::Completed)
        } else if value == "completed_100"@ {
            Some(GameStatus::Completed100)
        } else if value == "dropped"@ {
            Some(GameStatus::Dropped)
        } else if value == "endless"@ {
            Some(GameStatus::Endless)
        } else {
            None
        }
    }

    /// The canonical text of a status.
    pub fn as_str(self) -> (r: &'static str)
        ensures
            r@ == self.text(),
    {
        match self {
            GameStatus::Planned => "planned",
            GameStatus::Playing => "playing",
            GameStatus::Paused => "paused",
            GameStatus::Completed => "completed",
            GameStatus::Completed100 => "completed_100",
            GameStatus::Dropped => "dropped",
            GameStatus::Endless => "endless",
        }
    }

    /// Read a status from its text; anything else is `None`.
    pub fn parse(value: &str) -> (r: Option<GameStatus>)
        ensures
            r == GameStatus::from_text(value@),
    {
        if str_eq(value, "planned") {
            Some(GameStatus::Planned)
        } else if str_eq(value, "playing") {
            Some(GameStatus::Playing)
        } else if str_eq(value, "paused") {
            Some(GameStatus::Paused)
        } else if str_eq(value, "completed") {
            Some(GameStatus::Completed)
        } else if str_eq(value, "completed_100") {
            Some(GameStatus::Completed100)
        } else if str_eq(value, "dropped") {
            Some(GameStatus::Dropped)
        } else if str_eq(value, "endless") {
            Some(GameStatus::Endless)
        } else {
            None
        }
    }
}

/// Reading back the text of a status gives the status, and distinct statuses
/// have distinct texts.
pub proof fn lemma_game_status_round_trip(status: GameStatus, other: GameStatus)
    ensures
        GameStatus::from_text(status.text()) == Some(status),
        status.text() == other.text() ==> status == other,
{
    reveal_strlit("planned");
    reveal_strlit("playing");
    reveal_strlit("paused");
    reveal_strlit("completed");
    reveal_strlit("completed_100");
    reveal_strlit("dropped");
    reveal_strlit("endless");
    assert("planned"@[1] == 'l' && "playing"@[1] == 'l' && "paused"@[1] == 'a');
    assert("planned"@[2] == 'a' && "playing"@[2] == 'a');
    assert("planned"@[3] == 'n' && "playing"@[3] == 'y');
    assert("completed"@.len() == 9 && "completed_100"@.len() == 13);
    assert("dropped"@[0] == 'd' && "completed"@[0] == 'c' && "completed_100"@[0] == 'c');
    assert("endless"@[0] == 'e');
    assert("planned"@[0] == 'p' && "playing"@[0] == 'p' && "paused"@[0] == 'p');
}

/// A game as stored and shown. `genres` holds the names of its genres.
#[derive(Debug, Clone)]
pub struct Game {
    pub id: i64,
    pub title: String,
    pub genres: Vec<String>,
    pub platform: Option<String>,
    pub developer: Option<String>,
    pub publisher: Option<String>,
    pub release_year: Option<i64>,
    pub started_at: Option<String>,
    pub finished_at: Option<String>,
    pub status: GameStatus,
    pub rating: Option<i64>,
    pub cover_path: Option<String>,
    pub created_at: String,
    pub updated_at: String,
}

/// User-supplied fields of a game to create or update.
#[derive(Debug, Clone)]
pub struct GameInput {
    pub title: String,
    pub genres: Vec<String>,
    pub platform: Option<String>,
    pub developer: Option<String>,
    pub publisher: Option<String>,
    pub release_year: Option<i64>,
    pub started_at: Option<String>,
    pub finished_at: Option<String>,
    pub status: GameStatus,
    pub rating: Option<i64>,
    pub cover_path: Option<String>,
}

/// How multiple selected genres combine.
#[derive(Debug, Clone, Copy, PartialEq, Eq, Structural)]
pub enum GenreMatch {
    /// The game has at least one of the genres.
    Any,
    /// The game has all of the genres.
    All,
}

/// Sortable game fields.
#[derive(Debug, Clone, Copy, PartialEq, Eq, Structural)]
pub enum GameSort {
    /// Playing games first, then the most recently finished, then by title.
    Default,
    Title,
    StartedAt,
    FinishedAt,
    ReleaseYear,
    Rating,
    Status,
}

impl GameSort {
    /// The sort field's name as the frontend sends it, in snake_case.
    pub open spec fn field_name(self) -> Seq<char> {
        match self {
            GameSort::Default => "default"@,
            GameSort::Title => "title"@,
            GameSort::StartedAt => "started_at"@,
            GameSort::FinishedAt => "finished_at"@,
            GameSort::ReleaseYear => "release_year"@,
            GameSort::Rating => "rating"@,
            GameSort::Status => "status"@,
        }
    }
}

/// Sort direction.
#[derive(Debug, Clone, Copy, PartialEq, Eq, Structural)]
pub enum SortDirection {
    Asc,
    Desc,
}

impl Default for GenreMatch {
    fn default() -> (r: GenreMatch)
        ensures
            r == GenreMatch::Any,
    {
        GenreMatch::Any
    }
}

impl Default for GameSort {
    fn default() -> (r: GameSort)
        ensures
            r == GameSort::Title,
    {
        GameSort::Title
    }
}

impl Default for SortDirection {
    fn default() -> (r: SortDirection)
        ensures
            r == SortDirection::Asc,
    {
        SortDirection::Asc
    }
}

/// The game browser query: combinable filters plus sorting.
#[derive(Debug, Clone)]
pub struct GameQuery {
    /// Case-insensitive substring match on the title.
    pub search: Option<String>,
    /// Match any of these statuses.
    pub statuses: Vec<GameStatus>,
    /// Match any of these platforms.
    pub platforms: Vec<String>,
    /// Genre names to filter by, combined per `genre_match`.
    pub genres: Vec<String>,
    pub genre_match: GenreMatch,
    pub release_year: Option<i64>,
    pub started_year: Option<i64>,
    pub finished_year: Option<i64>,
    /// Games active during this year: started on or before it and not
    /// finished before it.
    pub played_year: Option<i64>,
    pub min_rating: Option<i64>,
    pub max_rating: Option<i64>,
    pub sort: GameSort,
    pub direction: SortDirection,
}

impl Default for GameQuery {
    fn default() -> (r: GameQuery)
        ensures
            r.search is None,
            r.statuses@.len() == 0,
            r.platforms@.len() == 0,
            r.genres@.len() == 0,
            r.genre_match == GenreMatch::Any,
            r.release_year is None,
            r.started_year is None,
            r.finished_year is None,
            r.played_year is None,
            r.min_rating is None,
            r.max_rating is None,
            r.sort == GameSort::Title,
            r.direction == SortDirection::Asc,
    {
        GameQuery {
            search: None,
            statuses: Vec::new(),
            platforms: Vec::new(),
            genres: Vec::new(),
            genre_match: GenreMatch::Any,
            release_year: None,
            started_year: None,
            finished_year: None,
            played_year: None,
            min_rating: None,
            max_rating: None,
            sort: GameSort::Title,
            direction: SortDirection::Asc,
        }
    }
}

} // verus!
