use xareon::domain::game::{GameInput, GameQuery, GameSort, GameStatus, GenreMatch, SortDirection};
use xareon::error::AppError;
use xareon::repositories::game_query::{build_filters, order_clause};
use xareon::repositories::sql::{join, placeholder_list, push_text_list, SqlValue};
use xareon::services::game::validate_game;
use xareon::services::journal::validate_entry_body;

fn input(title: &str, rating: Option<i64>) -> GameInput {
    GameInput {
        title: title.into(),
        genres: vec![],
        platform: None,
        developer: None,
        publisher: None,
        release_year: None,
        started_at: None,
        finished_at: None,
        status: GameStatus::Planned,
        rating,
        cover_path: None,
    }
}

#[test]
fn games_need_a_title_and_a_rating_in_range() {
    assert_eq!(validate_game(&input("Hades", Some(9))), Ok(()));
    assert_eq!(validate_game(&input("Hades", None)), Ok(()));
    assert_eq!(
        validate_game(&input(" ", Some(11))),
        Err(AppError::Validation("title must not be empty".into()))
    );
    assert_eq!(
        validate_game(&input("Hades", Some(11))),
        Err(AppError::Validation("rating must be between 0 and 10".into()))
    );
    assert_eq!(
        validate_game(&input("Hades", Some(-1))),
        Err(AppError::Validation("rating must be between 0 and 10".into()))
    );
}

#[test]
fn journal_entries_need_a_body() {
    assert_eq!(validate_entry_body("Great ending"), Ok(()));
    assert_eq!(validate_entry_body("\n"), Err(AppError::Validation("entry must not be empty".into())));
}

#[test]
fn an_empty_query_has_no_filters() {
    let (sql, params) = build_filters(&GameQuery::default());
    assert_eq!(sql, "");
    assert!(params.is_empty());
}

#[test]
fn every_filter_joins_with_and_in_order() {
    let query = GameQuery {
        search: Some("  zel ".into()),
        statuses: vec![GameStatus::Playing, GameStatus::Completed100],
        platforms: vec![" PC ".into(), "  ".into(), "Switch".into()],
        genres: vec![" RPG".into(), "".into(), "Action".into()],
        genre_match: GenreMatch::All,
        release_year: Some(2017),
        started_year: Some(5),
        finished_year: Some(2020),
        played_year: Some(2019),
        min_rating: Some(3),
        max_rating: Some(9),
        sort: GameSort::Rating,
        direction: SortDirection::Desc,
    };
    let (sql, params) = build_filters(&query);
    assert_eq!(
        sql,
        " WHERE title LIKE ? AND status IN (?, ?) AND platform IN (?, ?) AND \
         (SELECT COUNT(DISTINCT ge.name_normalized) FROM game_genres gg JOIN genres ge ON ge.id = gg.genre_id \
         WHERE gg.game_id = games.id AND ge.name_normalized IN (?, ?)) = ? AND release_year = ? AND \
         substr(started_at, 1, 4) = ? AND substr(finished_at, 1, 4) = ? AND \
         (started_at IS NOT NULL AND substr(started_at, 1, 4) <= ? AND (finished_at IS NULL OR substr(finished_at, 1, 4) >= ?)) \
         AND rating >= ? AND rating <= ?"
    );
    let text = |s: &str| SqlValue::Text(s.to_string());
    assert_eq!(
        params,
        vec![
            text("%zel%"),
            text("playing"),
            text("completed_100"),
            text("PC"),
            text("Switch"),
            text("rpg"),
            text("action"),
            SqlValue::Integer(2),
            SqlValue::Integer(2017),
            text("0005"),
            text("2020"),
            text("2019"),
            text("2019"),
            SqlValue::Integer(3),
            SqlValue::Integer(9),
        ]
    );
    assert_eq!(sql.matches('?').count(), params.len());
}

#[test]
fn any_genre_uses_exists_and_blank_filters_vanish() {
    let query = GameQuery {
        search: Some("   ".into()),
        platforms: vec!["  ".into()],
        genres: vec!["Puzzle".into(), " puzzle ".into()],
        ..GameQuery::default()
    };
    let (sql, params) = build_filters(&query);
    assert_eq!(
        sql,
        " WHERE EXISTS (SELECT 1 FROM game_genres gg JOIN genres ge ON ge.id = gg.genre_id \
         WHERE gg.game_id = games.id AND ge.name_normalized IN (?))"
    );
    assert_eq!(params, vec![SqlValue::Text("puzzle".into())]);
}

#[test]
fn order_is_stable_with_nulls_last() {
    assert_eq!(order_clause(GameSort::Title, SortDirection::Asc), "title COLLATE NOCASE ASC NULLS LAST, id ASC");
    assert_eq!(order_clause(GameSort::Rating, SortDirection::Desc), "rating DESC NULLS LAST, id DESC");
    assert_eq!(order_clause(GameSort::StartedAt, SortDirection::Asc), "started_at ASC NULLS LAST, id ASC");
}

#[test]
fn sql_pieces() {
    assert_eq!(placeholder_list(0), "");
    assert_eq!(placeholder_list(1), "?");
    assert_eq!(placeholder_list(3), "?, ?, ?");
    assert_eq!(join(&vec!["a".into(), "b".into(), "c".into()], " AND "), "a AND b AND c");
    let mut params = vec![SqlValue::Integer(1)];
    let ph = push_text_list(&mut params, &vec!["x".into(), "y".into()]);
    assert_eq!(ph, "?, ?");
    assert_eq!(params, vec![SqlValue::Integer(1), SqlValue::Text("x".into()), SqlValue::Text("y".into())]);
}

#[test]
fn all_genres_counts_each_genre_once() {
    let query = GameQuery {
        genres: vec!["RPG".into(), "rpg".into(), " Rpg ".into(), "Action".into(), "action".into()],
        genre_match: GenreMatch::All,
        ..GameQuery::default()
    };
    let (sql, params) = build_filters(&query);
    assert_eq!(
        sql,
        " WHERE (SELECT COUNT(DISTINCT ge.name_normalized) FROM game_genres gg JOIN genres ge ON ge.id = gg.genre_id \
         WHERE gg.game_id = games.id AND ge.name_normalized IN (?, ?)) = ?"
    );
    assert_eq!(
        params,
        vec![
            SqlValue::Text("rpg".into()),
            SqlValue::Text("action".into()),
            SqlValue::Integer(2),
        ]
    );

    let same = GameQuery {
        genres: vec!["RPG".into(), "rpg".into()],
        genre_match: GenreMatch::All,
        ..GameQuery::default()
    };
    let (_, params) = build_filters(&same);
    assert_eq!(params, vec![SqlValue::Text("rpg".into()), SqlValue::Integer(1)]);

    let any = GameQuery { genre_match: GenreMatch::Any, ..same };
    let (_, params) = build_filters(&any);
    assert_eq!(params, vec![SqlValue::Text("rpg".into())]);
}

#[test]
fn default_order_puts_playing_first_whatever_the_direction() {
    let expected = "CASE status WHEN 'playing' THEN 0 ELSE 1 END, finished_at DESC NULLS LAST, \
                    title COLLATE NOCASE ASC, id DESC";
    assert_eq!(order_clause(GameSort::Default, SortDirection::Asc), expected);
    assert_eq!(order_clause(GameSort::Default, SortDirection::Desc), expected);
    assert_eq!(order_clause(GameSort::Rating, SortDirection::Desc), "rating DESC NULLS LAST, id DESC");
}
