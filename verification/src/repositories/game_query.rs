//! The game browser query: its `WHERE` clause with bound values, and its
//! `ORDER BY` clause.
use vstd::prelude::*;
use crate::domain::game::{GameQuery, GameSort, GameStatus, GenreMatch, SortDirection};
use crate::domain::genre::normalized_name;
use crate::repositories::genres::{first_of_each, genres_to_link, keys_of};
use crate::repositories::sql::{
    SqlParam, SqlValue, joined, marks, marks_from, marks_of, params_of, placeholders,
    push_text_list, text_params, texts,
};
use crate::text::{padded_int_text, trimmed};

verus! {

/// One filter: its SQL condition and the values its placeholders bind.
pub type Part = (Seq<char>, Seq<SqlParam>);

/// A list of at most one part.
pub open spec fn one(present: bool, clause: Seq<char>, params: Seq<SqlParam>) -> Seq<Part> {
    if present {
        seq![(clause, params)]
    } else {
        Seq::empty()
    }
}

/// The conditions of a list of parts.
pub open spec fn clauses_of(parts: Seq<Part>) -> Seq<Seq<char>> {
    parts.map_values(|p: Part| p.0)
}

/// The bound values of a list of parts, in order.
pub open spec fn params_in(parts: Seq<Part>) -> Seq<SqlParam>
    decreases parts.len(),
{
    if parts.len() == 0 {
        Seq::empty()
    } else {
        params_in(parts.drop_last()) + parts.last().1
    }
}

/// The trimmed texts that are not blank, in order.
pub open spec fn kept_trimmed(ts: Seq<Seq<char>>) -> Seq<Seq<char>>
    decreases ts.len(),
{
    if ts.len() == 0 {
        Seq::empty()
    } else if trimmed(ts.last()).len() > 0 {
        kept_trimmed(ts.drop_last()).push(trimmed(ts.last()))
    } else {
        kept_trimmed(ts.drop_last())
    }
}

/// The distinct, non-empty normalized genre names, in the order they are
/// first asked for: names that differ only in case or outer white space are
/// one genre.
pub open spec fn kept_normalized(ts: Seq<Seq<char>>) -> Seq<Seq<char>> {
    keys_of(first_of_each(ts))
}

/// Case-insensitive substring match on the trimmed search text.
pub open spec fn search_part(q: GameQuery) -> Seq<Part> {
    match q.search {
        Some(s) => one(
            trimmed(s@).len() > 0,
            "title LIKE ?"@,
            seq![SqlParam::Text("%"@ + trimmed(s@) + "%"@)],
        ),
        None => Seq::empty(),
    }
}

/// Any of the selected statuses.
pub open spec fn status_part(q: GameQuery) -> Seq<Part> {
    one(
        q.statuses@.len() > 0,
        "status IN ("@ + placeholders(q.statuses@.len()) + ")"@,
        text_params(q.statuses@.map_values(|s: GameStatus| s.text())),
    )
}

/// Any of the selected platforms that are not blank.
pub open spec fn platform_part(q: GameQuery) -> Seq<Part> {
    let kept = kept_trimmed(texts(q.platforms@));
    one(
        q.platforms@.len() > 0 && kept.len() > 0,
        "platform IN ("@ + placeholders(kept.len()) + ")"@,
        text_params(kept),
    )
}

/// The condition on a game's genres for the given placeholder list.
pub open spec fn genre_exists(ph: Seq<char>) -> Seq<char> {
    "EXISTS (SELECT 1 FROM game_genres gg JOIN genres ge ON ge.id = gg.genre_id WHERE gg.game_id = games.id AND ge.name_normalized IN ("@
        + ph + "))"@
}

/// The count of a game's distinct matching genres for the given placeholders.
pub open spec fn genre_count(ph: Seq<char>) -> Seq<char> {
    "(SELECT COUNT(DISTINCT ge.name_normalized) FROM game_genres gg JOIN genres ge ON ge.id = gg.genre_id WHERE gg.game_id = games.id AND ge.name_normalized IN ("@
        + ph + ")) = ?"@
}

/// Any or all of the selected genres, by normalized name. "All" asks for
/// as many distinct matching genres as distinct names were selected.
pub open spec fn genre_part(q: GameQuery) -> Seq<Part> {
    let kept = kept_normalized(texts(q.genres@));
    let ph = placeholders(kept.len());
    one(
        kept.len() > 0,
        if q.genre_match == GenreMatch::Any {
            genre_exists(ph)
        } else {
            genre_count(ph)
        },
        if q.genre_match == GenreMatch::Any {
            text_params(kept)
        } else {
            text_params(kept).push(SqlParam::Integer(kept.len() as i64))
        },
    )
}

/// The genre filter asks for each genre once: its names are distinct,
/// every selected name that is not blank is among them, and blank names
/// alone add no condition. So "All" binds the number of distinct genres
/// selected.
pub proof fn lemma_genre_names_distinct(ts: Seq<Seq<char>>)
    ensures
        forall|i: int, j: int|
            0 <= i < j < kept_normalized(ts).len() ==> kept_normalized(ts)[i] != kept_normalized(
                ts,
            )[j],
        forall|k: int|
            0 <= k < ts.len() && trimmed(#[trigger] ts[k]).len() > 0 ==> kept_normalized(
                ts,
            ).contains(normalized_name(ts[k])),
        (forall|k: int| 0 <= k < ts.len() ==> trimmed(#[trigger] ts[k]).len() == 0)
            ==> kept_normalized(ts).len() == 0,
{
    crate::repositories::genres::lemma_links_distinct_and_complete(ts);
}

/// A query whose genre names are all blank has no genre condition.
pub proof fn lemma_blank_genres_add_nothing(q: GameQuery)
    ensures
        (forall|k: int| 0 <= k < q.genres@.len() ==> trimmed(#[trigger] q.genres@[k]@).len() == 0)
            ==> genre_part(q).len() == 0,
{
    let ts = texts(q.genres@);
    if forall|k: int| 0 <= k < q.genres@.len() ==> trimmed(#[trigger] q.genres@[k]@).len() == 0 {
        assert forall|k: int| 0 <= k < ts.len() implies trimmed(#[trigger] ts[k]).len() == 0 by {
            assert(ts[k] == q.genres@[k]@);
        }
        lemma_genre_names_distinct(ts);
    }
}

/// A condition on an optional integer.
pub open spec fn int_part(value: Option<i64>, clause: Seq<char>) -> Seq<Part> {
    match value {
        Some(v) => one(true, clause, seq![SqlParam::Integer(v)]),
        None => Seq::empty(),
    }
}

/// A condition on the year prefix of a date column.
pub open spec fn year_part(value: Option<i64>, clause: Seq<char>) -> Seq<Part> {
    match value {
        Some(y) => one(true, clause, seq![SqlParam::Text(padded_int_text(y as int, 4))]),
        None => Seq::empty(),
    }
}

/// The condition of games active during a year.
pub open spec fn played_clause() -> Seq<char> {
    "(started_at IS NOT NULL AND substr(started_at, 1, 4) <= ? AND (finished_at IS NULL OR substr(finished_at, 1, 4) >= ?))"@
}

/// Games started on or before the year and not finished before it.
pub open spec fn played_part(q: GameQuery) -> Seq<Part> {
    match q.played_year {
        Some(y) => one(
            true,
            played_clause(),
            seq![
                SqlParam::Text(padded_int_text(y as int, 4)),
                SqlParam::Text(padded_int_text(y as int, 4)),
            ],
        ),
        None => Seq::empty(),
    }
}

/// Every filter of a query, in the order the clause lists them.
pub open spec fn filter_parts(q: GameQuery) -> Seq<Part> {
    search_part(q) + status_part(q) + platform_part(q) + genre_part(q) + int_part(
        q.release_year,
        "release_year = ?"@,
    ) + year_part(q.started_year, "substr(started_at, 1, 4) = ?"@) + year_part(
        q.finished_year,
        "substr(finished_at, 1, 4) = ?"@,
    ) + played_part(q) + int_part(q.min_rating, "rating >= ?"@) + int_part(
        q.max_rating,
        "rating <= ?"@,
    )
}

/// The `WHERE` clause of a list of filters; empty when there are none.
pub open spec fn where_text(parts: Seq<Part>) -> Seq<char> {
    if parts.len() == 0 {
        Seq::empty()
    } else {
        " WHERE "@ + joined(clauses_of(parts), " AND "@)
    }
}

/// The parts of an optional exec part.
pub open spec fn part_of(p: Option<(String, Vec<SqlValue>)>) -> Seq<Part> {
    match p {
        Some((c, v)) => seq![(c@, params_of(v@))],
        None => Seq::empty(),
    }
}

/// The values of concatenated parts are the concatenated values.
pub proof fn lemma_params_in_add(a: Seq<Part>, b: Seq<Part>)
    ensures
        params_in(a + b) == params_in(a) + params_in(b),
    decreases b.len(),
{
    if b.len() == 0 {
        assert(a + b =~= a);
    } else {
        lemma_params_in_add(a, b.drop_last());
        assert((a + b).drop_last() =~= a + b.drop_last());
    }
}

/// Append a filter, if present, to the clause list and its values.
fn add_part(
    clauses: &mut Vec<String>,
    params: &mut Vec<SqlValue>,
    part: Option<(String, Vec<SqlValue>)>,
)
    ensures
        texts(final(clauses)@) == texts(old(clauses)@) + clauses_of(part_of(part)),
        params_of(final(params)@) == params_of(old(params)@) + params_in(part_of(part)),
{
    match part {
        Some((c, v)) => {
            let ghost pv = v@;
            let ghost cv = c@;
            clauses.push(c);
            let mut v = v;
            params.append(&mut v);
            proof {
                assert(texts(clauses@) =~= texts(old(clauses)@) + seq![cv]);
                let one_part: Seq<Part> = seq![(cv, params_of(pv))];
                assert(one_part.drop_last() =~= Seq::<Part>::empty());
                assert(params_in(Seq::<Part>::empty()) =~= Seq::<SqlParam>::empty());
                assert(one_part.last().1 == params_of(pv));
                assert(params_in(one_part) =~= Seq::<SqlParam>::empty() + params_of(pv));
                assert(params_of(params@) =~= params_of(old(params)@) + params_of(pv));
            }
        },
        None => {
            assert(texts(clauses@) =~= texts(old(clauses)@) + clauses_of(part_of(part)));
            assert(params_of(params@) =~= params_of(old(params)@) + params_in(part_of(part)));
        },
    }
}

/// A single part.
fn single(clause: String, value: SqlValue) -> (r: Option<(String, Vec<SqlValue>)>)
    ensures
        r matches Some((c, v)) && c@ == clause@ && params_of(v@) == seq![value@],
{
    let mut v = Vec::new();
    v.push(value);
    proof {
        assert(params_of(v@) =~= seq![value@]);
    }
    Some((clause, v))
}

fn search_filter(q: &GameQuery) -> (r: Option<(String, Vec<SqlValue>)>)
    ensures
        part_of(r) == search_part(*q),
{
    match &q.search {
        Some(s) => {
            let t = crate::text::trim(s.as_str());
            if t.is_empty() {
                None
            } else {
                let mut pattern = "%".to_owned();
                pattern.append(t);
                pattern.append("%");
                single("title LIKE ?".to_owned(), SqlValue::Text(pattern))
            }
        },
        None => None,
    }
}

fn status_filter(q: &GameQuery) -> (r: Option<(String, Vec<SqlValue>)>)
    ensures
        part_of(r) == status_part(*q),
{
    if q.statuses.len() == 0 {
        return None;
    }
    let mut names: Vec<String> = Vec::new();
    let n = q.statuses.len();
    let mut i: usize = 0;
    while i < n
        invariant
            i <= n == q.statuses@.len(),
            texts(names@) == q.statuses@.take(i as int).map_values(|s: GameStatus| s.text()),
        decreases n - i,
    {
        let ghost prev = names@;
        names.push(q.statuses[i].as_str().to_owned());
        proof {
            assert(texts(names@) =~= texts(prev).push(q.statuses@[i as int].text()));
            assert(q.statuses@.take(i as int + 1).map_values(|s: GameStatus| s.text())
                =~= q.statuses@.take(i as int).map_values(|s: GameStatus| s.text()).push(
                q.statuses@[i as int].text(),
            ));
        }
        i = i + 1;
    }
    assert(q.statuses@.take(n as int) =~= q.statuses@);
    let mut params: Vec<SqlValue> = Vec::new();
    let ph = push_text_list(&mut params, &names);
    let mut clause = "status IN (".to_owned();
    clause.append(ph.as_str());
    clause.append(")");
    Some((clause, params))
}

/// The trimmed, non-blank platform names.
fn kept_platforms(values: &Vec<String>) -> (r: Vec<String>)
    ensures
        texts(r@) == kept_trimmed(texts(values@)),
{
    let mut out: Vec<String> = Vec::new();
    let n = values.len();
    let mut i: usize = 0;
    while i < n
        invariant
            i <= n == values@.len(),
            texts(out@) == kept_trimmed(texts(values@.take(i as int))),
        decreases n - i,
    {
        let t = crate::text::trim_owned(values[i].as_str());
        proof {
            let ts = texts(values@.take(i as int + 1));
            assert(ts.drop_last() =~= texts(values@.take(i as int)));
            assert(ts.last() == values@[i as int]@);
        }
        if !t.as_str().is_empty() {
            let ghost prev = out@;
            out.push(t);
            assert(texts(out@) =~= texts(prev).push(t@));
        }
        i = i + 1;
    }
    assert(values@.take(n as int) =~= values@);
    out
}

/// The distinct, non-empty normalized genre names.
fn kept_genres(values: &Vec<String>) -> (r: Vec<String>)
    ensures
        texts(r@) == kept_normalized(texts(values@)),
{
    let linked = genres_to_link(values);
    let mut out: Vec<String> = Vec::new();
    let n = linked.len();
    let mut i: usize = 0;
    while i < n
        invariant
            i <= n == linked@.len(),
            texts(out@) =~= keys_of(texts(linked@.take(i as int))),
        decreases n - i,
    {
        let g = crate::domain::genre::normalize(linked[i].as_str());
        let ghost prev = out@;
        out.push(g);
        proof {
            assert(texts(out@) =~= texts(prev).push(g@));
            assert(texts(linked@.take(i as int + 1)) =~= texts(linked@.take(i as int)).push(
                linked@[i as int]@,
            ));
        }
        i = i + 1;
    }
    assert(linked@.take(n as int) =~= linked@);
    out
}

fn platform_filter(q: &GameQuery) -> (r: Option<(String, Vec<SqlValue>)>)
    ensures
        part_of(r) == platform_part(*q),
{
    if q.platforms.len() == 0 {
        return None;
    }
    let kept = kept_platforms(&q.platforms);
    let mut params: Vec<SqlValue> = Vec::new();
    let ph = push_text_list(&mut params, &kept);
    if ph.as_str().is_empty() {
        proof {
            if kept@.len() > 0 {
                assert(placeholders(kept@.len()).len() > 0) by {
                    lemma_placeholders_nonempty(kept@.len());
                }
            }
        }
        return None;
    }
    proof {
        if kept@.len() == 0 {
            assert(placeholders(0).len() == 0);
        }
        assert(params_of(params@) =~= text_params(texts(kept@)));
    }
    let mut clause = "platform IN (".to_owned();
    clause.append(ph.as_str());
    clause.append(")");
    Some((clause, params))
}

/// A non-empty placeholder list is not empty text.
proof fn lemma_placeholders_nonempty(n: nat)
    requires
        n > 0,
    ensures
        placeholders(n).len() > 0,
    decreases n,
{
    reveal_strlit("?");
    reveal_strlit(", ?");
    if n > 1 {
        lemma_placeholders_nonempty((n - 1) as nat);
    }
}

fn genre_filter(q: &GameQuery) -> (r: Option<(String, Vec<SqlValue>)>)
    ensures
        part_of(r) == genre_part(*q),
{
    let kept = kept_genres(&q.genres);
    if kept.len() == 0 {
        return None;
    }
    let mut params: Vec<SqlValue> = Vec::new();
    let ph = push_text_list(&mut params, &kept);
    assert(params_of(params@) =~= text_params(texts(kept@)));
    match q.genre_match {
        GenreMatch::Any => {
            let mut clause = "EXISTS (SELECT 1 FROM game_genres gg JOIN genres ge ON ge.id = gg.genre_id WHERE gg.game_id = games.id AND ge.name_normalized IN (".to_owned();
            clause.append(ph.as_str());
            clause.append("))");
            Some((clause, params))
        },
        GenreMatch::All => {
            let mut clause = "(SELECT COUNT(DISTINCT ge.name_normalized) FROM game_genres gg JOIN genres ge ON ge.id = gg.genre_id WHERE gg.game_id = games.id AND ge.name_normalized IN (".to_owned();
            clause.append(ph.as_str());
            clause.append(")) = ?");
            let ghost prev = params@;
            params.push(SqlValue::Integer(kept.len() as i64));
            assert(params_of(params@) =~= params_of(prev).push(SqlParam::Integer(kept@.len() as i64)));
            Some((clause, params))
        },
    }
}

fn int_filter(value: Option<i64>, clause: &str) -> (r: Option<(String, Vec<SqlValue>)>)
    ensures
        part_of(r) == int_part(value, clause@),
{
    match value {
        Some(v) => single(clause.to_owned(), SqlValue::Integer(v)),
        None => None,
    }
}

fn year_filter(value: Option<i64>, clause: &str) -> (r: Option<(String, Vec<SqlValue>)>)
    ensures
        part_of(r) == year_part(value, clause@),
{
    match value {
        Some(y) => single(clause.to_owned(), SqlValue::Text(crate::text::padded_i64_text(y, 4))),
        None => None,
    }
}

fn played_filter(q: &GameQuery) -> (r: Option<(String, Vec<SqlValue>)>)
    ensures
        part_of(r) == played_part(*q),
{
    match q.played_year {
        Some(y) => {
            let mut v = Vec::new();
            v.push(SqlValue::Text(crate::text::padded_i64_text(y, 4)));
            v.push(SqlValue::Text(crate::text::padded_i64_text(y, 4)));
            let clause = "(started_at IS NOT NULL AND substr(started_at, 1, 4) <= ? AND (finished_at IS NULL OR substr(finished_at, 1, 4) >= ?))".to_owned();
            assert(params_of(v@) =~= seq![
                SqlParam::Text(padded_int_text(y as int, 4)),
                SqlParam::Text(padded_int_text(y as int, 4)),
            ]);
            Some((clause, v))
        },
        None => None,
    }
}

/// Build the `WHERE` clause and its bound values from a query: every present
/// filter in a fixed order, joined with `AND`; empty text when there is none.
/// The clause holds one `?` for each bound value.
pub fn build_filters(query: &GameQuery) -> (r: (String, Vec<SqlValue>))
    ensures
        r.0@ == where_text(filter_parts(*query)),
        params_of(r.1@) == params_in(filter_parts(*query)),
        marks(r.0@) == r.1@.len(),
{
    let mut clauses: Vec<String> = Vec::new();
    let mut params: Vec<SqlValue> = Vec::new();
    let ghost mut parts: Seq<Part> = Seq::empty();
    let ghost q = *query;
    add_part(&mut clauses, &mut params, search_filter(query));
    proof { lemma_step(parts, search_part(q)); parts = parts + search_part(q); }
    add_part(&mut clauses, &mut params, status_filter(query));
    proof { lemma_step(parts, status_part(q)); parts = parts + status_part(q); }
    add_part(&mut clauses, &mut params, platform_filter(query));
    proof { lemma_step(parts, platform_part(q)); parts = parts + platform_part(q); }
    add_part(&mut clauses, &mut params, genre_filter(query));
    proof { lemma_step(parts, genre_part(q)); parts = parts + genre_part(q); }
    add_part(&mut clauses, &mut params, int_filter(query.release_year, "release_year = ?"));
    proof {
        let p = int_part(q.release_year, "release_year = ?"@);
        lemma_step(parts, p);
        parts = parts + p;
    }
    add_part(&mut clauses, &mut params, year_filter(query.started_year, "substr(started_at, 1, 4) = ?"));
    proof {
        let p = year_part(q.started_year, "substr(started_at, 1, 4) = ?"@);
        lemma_step(parts, p);
        parts = parts + p;
    }
    add_part(&mut clauses, &mut params, year_filter(query.finished_year, "substr(finished_at, 1, 4) = ?"));
    proof {
        let p = year_part(q.finished_year, "substr(finished_at, 1, 4) = ?"@);
        lemma_step(parts, p);
        parts = parts + p;
    }
    add_part(&mut clauses, &mut params, played_filter(query));
    proof { lemma_step(parts, played_part(q)); parts = parts + played_part(q); }
    add_part(&mut clauses, &mut params, int_filter(query.min_rating, "rating >= ?"));
    proof {
        let p = int_part(q.min_rating, "rating >= ?"@);
        lemma_step(parts, p);
        parts = parts + p;
    }
    add_part(&mut clauses, &mut params, int_filter(query.max_rating, "rating <= ?"));
    proof {
        let p = int_part(q.max_rating, "rating <= ?"@);
        lemma_step(parts, p);
        parts = parts + p;
    }
    assert(parts =~= filter_parts(q));
    proof {
        lemma_placeholders_match_values(q);
    }
    if clauses.len() == 0 {
        (String::new(), params)
    } else {
        let mut w = " WHERE ".to_owned();
        let j = crate::repositories::sql::join(&clauses, " AND ");
        w.append(j.as_str());
        (w, params)
    }
}

/// Adding a filter adds its condition and its values.
proof fn lemma_step(parts: Seq<Part>, p: Seq<Part>)
    ensures
        params_in(parts + p) == params_in(parts) + params_in(p),
        clauses_of(parts + p) == clauses_of(parts) + clauses_of(p),
{
    lemma_params_in_add(parts, p);
    assert(clauses_of(parts + p) =~= clauses_of(parts) + clauses_of(p));
}


/// How many placeholders each fixed piece of the browser query holds.
proof fn lemma_clause_marks()
    ensures
        marks(" WHERE "@) == 0,
        marks(" AND "@) == 0,
        marks("title LIKE ?"@) == 1,
        marks("status IN ("@) == 0,
        marks("platform IN ("@) == 0,
        marks(")"@) == 0,
        marks("EXISTS (SELECT 1 FROM game_genres gg JOIN genres ge ON ge.id = gg.genre_id WHERE gg.game_id = games.id AND ge.name_normalized IN ("@) == 0,
        marks("))"@) == 0,
        marks("(SELECT COUNT(DISTINCT ge.name_normalized) FROM game_genres gg JOIN genres ge ON ge.id = gg.genre_id WHERE gg.game_id = games.id AND ge.name_normalized IN ("@) == 0,
        marks(")) = ?"@) == 1,
        marks("release_year = ?"@) == 1,
        marks("substr(started_at, 1, 4) = ?"@) == 1,
        marks("substr(finished_at, 1, 4) = ?"@) == 1,
        marks("(started_at IS NOT NULL AND substr(started_at, 1, 4) <= ? AND (finished_at IS NULL OR substr(finished_at, 1, 4) >= ?))"@) == 2,
        marks("rating >= ?"@) == 1,
        marks("rating <= ?"@) == 1,
{
    reveal_with_fuel(marks_from, 11);
    assert(marks(" WHERE "@) == 0) by {
        reveal_strlit(" WHERE ");
    }
    assert(marks(" AND "@) == 0) by {
        reveal_strlit(" AND ");
    }
    assert(marks("title LIKE ?"@) == 1) by {
        reveal_strlit("title LIKE ?");
        assert(marks_from("title LIKE ?"@, 10) == 1);
    }
    assert(marks("status IN ("@) == 0) by {
        reveal_strlit("status IN (");
        assert(marks_from("status IN ("@, 10) == 0);
    }
    assert(marks("platform IN ("@) == 0) by {
        reveal_strlit("platform IN (");
        assert(marks_from("platform IN ("@, 10) == 0);
    }
    assert(marks(")"@) == 0) by {
        reveal_strlit(")");
    }
    assert(marks("EXISTS (SELECT 1 FROM game_genres gg JOIN genres ge ON ge.id = gg.genre_id WHERE gg.game_id = games.id AND ge.name_normalized IN ("@) == 0) by {
        reveal_strlit("EXISTS (SELECT 1 FROM game_genres gg JOIN genres ge ON ge.id = gg.genre_id WHERE gg.game_id = games.id AND ge.name_normalized IN (");
        assert(marks_from("EXISTS (SELECT 1 FROM game_genres gg JOIN genres ge ON ge.id = gg.genre_id WHERE gg.game_id = games.id AND ge.name_normalized IN ("@, 130) == 0);
        assert(marks_from("EXISTS (SELECT 1 FROM game_genres gg JOIN genres ge ON ge.id = gg.genre_id WHERE gg.game_id = games.id AND ge.name_normalized IN ("@, 120) == 0);
        assert(marks_from("EXISTS (SELECT 1 FROM game_genres gg JOIN genres ge ON ge.id = gg.genre_id WHERE gg.game_id = games.id AND ge.name_normalized IN ("@, 110) == 0);
        assert(marks_from("EXISTS (SELECT 1 FROM game_genres gg JOIN genres ge ON ge.id = gg.genre_id WHERE gg.game_id = games.id AND ge.name_normalized IN ("@, 100) == 0);
        assert(marks_from("EXISTS (SELECT 1 FROM game_genres gg JOIN genres ge ON ge.id = gg.genre_id WHERE gg.game_id = games.id AND ge.name_normalized IN ("@, 90) == 0);
        assert(marks_from("EXISTS (SELECT 1 FROM game_genres gg JOIN genres ge ON ge.id = gg.genre_id WHERE gg.game_id = games.id AND ge.name_normalized IN ("@, 80) == 0);
        assert(marks_from("EXISTS (SELECT 1 FROM game_genres gg JOIN genres ge ON ge.id = gg.genre_id WHERE gg.game_id = games.id AND ge.name_normalized IN ("@, 70) == 0);
        assert(marks_from("EXISTS (SELECT 1 FROM game_genres gg JOIN genres ge ON ge.id = gg.genre_id WHERE gg.game_id = games.id AND ge.name_normalized IN ("@, 60) == 0);
        assert(marks_from("EXISTS (SELECT 1 FROM game_genres gg JOIN genres ge ON ge.id = gg.genre_id WHERE gg.game_id = games.id AND ge.name_normalized IN ("@, 50) == 0);
        assert(marks_from("EXISTS (SELECT 1 FROM game_genres gg JOIN genres ge ON ge.id = gg.genre_id WHERE gg.game_id = games.id AND ge.name_normalized IN ("@, 40) == 0);
        assert(marks_from("EXISTS (SELECT 1 FROM game_genres gg JOIN genres ge ON ge.id = gg.genre_id WHERE gg.game_id = games.id AND ge.name_normalized IN ("@, 30) == 0);
        assert(marks_from("EXISTS (SELECT 1 FROM game_genres gg JOIN genres ge ON ge.id = gg.genre_id WHERE gg.game_id = games.id AND ge.name_normalized IN ("@, 20) == 0);
        assert(marks_from("EXISTS (SELECT 1 FROM game_genres gg JOIN genres ge ON ge.id = gg.genre_id WHERE gg.game_id = games.id AND ge.name_normalized IN ("@, 10) == 0);
    }
    assert(marks("))"@) == 0) by {
        reveal_strlit("))");
    }
    assert(marks("(SELECT COUNT(DISTINCT ge.name_normalized) FROM game_genres gg JOIN genres ge ON ge.id = gg.genre_id WHERE gg.game_id = games.id AND ge.name_normalized IN ("@) == 0) by {
        reveal_strlit("(SELECT COUNT(DISTINCT ge.name_normalized) FROM game_genres gg JOIN genres ge ON ge.id = gg.genre_id WHERE gg.game_id = games.id AND ge.name_normalized IN (");
        assert(marks_from("(SELECT COUNT(DISTINCT ge.name_normalized) FROM game_genres gg JOIN genres ge ON ge.id = gg.genre_id WHERE gg.game_id = games.id AND ge.name_normalized IN ("@, 150) == 0);
        assert(marks_from("(SELECT COUNT(DISTINCT ge.name_normalized) FROM game_genres gg JOIN genres ge ON ge.id = gg.genre_id WHERE gg.game_id = games.id AND ge.name_normalized IN ("@, 140) == 0);
        assert(marks_from("(SELECT COUNT(DISTINCT ge.name_normalized) FROM game_genres gg JOIN genres ge ON ge.id = gg.genre_id WHERE gg.game_id = games.id AND ge.name_normalized IN ("@, 130) == 0);
        assert(marks_from("(SELECT COUNT(DISTINCT ge.name_normalized) FROM game_genres gg JOIN genres ge ON ge.id = gg.genre_id WHERE gg.game_id = games.id AND ge.name_normalized IN ("@, 120) == 0);
        assert(marks_from("(SELECT COUNT(DISTINCT ge.name_normalized) FROM game_genres gg JOIN genres ge ON ge.id = gg.genre_id WHERE gg.game_id = games.id AND ge.name_normalized IN ("@, 110) == 0);
        assert(marks_from("(SELECT COUNT(DISTINCT ge.name_normalized) FROM game_genres gg JOIN genres ge ON ge.id = gg.genre_id WHERE gg.game_id = games.id AND ge.name_normalized IN ("@, 100) == 0);
        assert(marks_from("(SELECT COUNT(DISTINCT ge.name_normalized) FROM game_genres gg JOIN genres ge ON ge.id = gg.genre_id WHERE gg.game_id = games.id AND ge.name_normalized IN ("@, 90) == 0);
        assert(marks_from("(SELECT COUNT(DISTINCT ge.name_normalized) FROM game_genres gg JOIN genres ge ON ge.id = gg.genre_id WHERE gg.game_id = games.id AND ge.name_normalized IN ("@, 80) == 0);
        assert(marks_from("(SELECT COUNT(DISTINCT ge.name_normalized) FROM game_genres gg JOIN genres ge ON ge.id = gg.genre_id WHERE gg.game_id = games.id AND ge.name_normalized IN ("@, 70) == 0);
        assert(marks_from("(SELECT COUNT(DISTINCT ge.name_normalized) FROM game_genres gg JOIN genres ge ON ge.id = gg.genre_id WHERE gg.game_id = games.id AND ge.name_normalized IN ("@, 60) == 0);
        assert(marks_from("(SELECT COUNT(DISTINCT ge.name_normalized) FROM game_genres gg JOIN genres ge ON ge.id = gg.genre_id WHERE gg.game_id = games.id AND ge.name_normalized IN ("@, 50) == 0);
        assert(marks_from("(SELECT COUNT(DISTINCT ge.name_normalized) FROM game_genres gg JOIN genres ge ON ge.id = gg.genre_id WHERE gg.game_id = games.id AND ge.name_normalized IN ("@, 40) == 0);
        assert(marks_from("(SELECT COUNT(DISTINCT ge.name_normalized) FROM game_genres gg JOIN genres ge ON ge.id = gg.genre_id WHERE gg.game_id = games.id AND ge.name_normalized IN ("@, 30) == 0);
        assert(marks_from("(SELECT COUNT(DISTINCT ge.name_normalized) FROM game_genres gg JOIN genres ge ON ge.id = gg.genre_id WHERE gg.game_id = games.id AND ge.name_normalized IN ("@, 20) == 0);
        assert(marks_from("(SELECT COUNT(DISTINCT ge.name_normalized) FROM game_genres gg JOIN genres ge ON ge.id = gg.genre_id WHERE gg.game_id = games.id AND ge.name_normalized IN ("@, 10) == 0);
    }
    assert(marks(")) = ?"@) == 1) by {
        reveal_strlit(")) = ?");
    }
    assert(marks("release_year = ?"@) == 1) by {
        reveal_strlit("release_year = ?");
        assert(marks_from("release_year = ?"@, 10) == 1);
    }
    assert(marks("substr(started_at, 1, 4) = ?"@) == 1) by {
        reveal_strlit("substr(started_at, 1, 4) = ?");
        assert(marks_from("substr(started_at, 1, 4) = ?"@, 20) == 1);
        assert(marks_from("substr(started_at, 1, 4) = ?"@, 10) == 1);
    }
    assert(marks("substr(finished_at, 1, 4) = ?"@) == 1) by {
        reveal_strlit("substr(finished_at, 1, 4) = ?");
        assert(marks_from("substr(finished_at, 1, 4) = ?"@, 20) == 1);
        assert(marks_from("substr(finished_at, 1, 4) = ?"@, 10) == 1);
    }
    assert(marks("(started_at IS NOT NULL AND substr(started_at, 1, 4) <= ? AND (finished_at IS NULL OR substr(finished_at, 1, 4) >= ?))"@) == 2) by {
        reveal_strlit("(started_at IS NOT NULL AND substr(started_at, 1, 4) <= ? AND (finished_at IS NULL OR substr(finished_at, 1, 4) >= ?))");
        assert(marks_from("(started_at IS NOT NULL AND substr(started_at, 1, 4) <= ? AND (finished_at IS NULL OR substr(finished_at, 1, 4) >= ?))"@, 110) == 1);
        assert(marks_from("(started_at IS NOT NULL AND substr(started_at, 1, 4) <= ? AND (finished_at IS NULL OR substr(finished_at, 1, 4) >= ?))"@, 100) == 1);
        assert(marks_from("(started_at IS NOT NULL AND substr(started_at, 1, 4) <= ? AND (finished_at IS NULL OR substr(finished_at, 1, 4) >= ?))"@, 90) == 1);
        assert(marks_from("(started_at IS NOT NULL AND substr(started_at, 1, 4) <= ? AND (finished_at IS NULL OR substr(finished_at, 1, 4) >= ?))"@, 80) == 1);
        assert(marks_from("(started_at IS NOT NULL AND substr(started_at, 1, 4) <= ? AND (finished_at IS NULL OR substr(finished_at, 1, 4) >= ?))"@, 70) == 1);
        assert(marks_from("(started_at IS NOT NULL AND substr(started_at, 1, 4) <= ? AND (finished_at IS NULL OR substr(finished_at, 1, 4) >= ?))"@, 60) == 1);
        assert(marks_from("(started_at IS NOT NULL AND substr(started_at, 1, 4) <= ? AND (finished_at IS NULL OR substr(finished_at, 1, 4) >= ?))"@, 50) == 2);
        assert(marks_from("(started_at IS NOT NULL AND substr(started_at, 1, 4) <= ? AND (finished_at IS NULL OR substr(finished_at, 1, 4) >= ?))"@, 40) == 2);
        assert(marks_from("(started_at IS NOT NULL AND substr(started_at, 1, 4) <= ? AND (finished_at IS NULL OR substr(finished_at, 1, 4) >= ?))"@, 30) == 2);
        assert(marks_from("(started_at IS NOT NULL AND substr(started_at, 1, 4) <= ? AND (finished_at IS NULL OR substr(finished_at, 1, 4) >= ?))"@, 20) == 2);
        assert(marks_from("(started_at IS NOT NULL AND substr(started_at, 1, 4) <= ? AND (finished_at IS NULL OR substr(finished_at, 1, 4) >= ?))"@, 10) == 2);
    }
    assert(marks("rating >= ?"@) == 1) by {
        reveal_strlit("rating >= ?");
        assert(marks_from("rating >= ?"@, 10) == 1);
    }
    assert(marks("rating <= ?"@) == 1) by {
        reveal_strlit("rating <= ?");
        assert(marks_from("rating <= ?"@, 10) == 1);
    }
}

/// Each filter binds one value for each of its placeholders.
pub open spec fn balanced(parts: Seq<Part>) -> bool {
    forall|k: int| 0 <= k < parts.len() ==> marks(#[trigger] parts[k].0) == parts[k].1.len()
}

/// Balanced lists put together stay balanced.
proof fn lemma_balanced_add(a: Seq<Part>, b: Seq<Part>)
    requires
        balanced(a),
        balanced(b),
    ensures
        balanced(a + b),
{
    assert forall|k: int| 0 <= k < (a + b).len() implies marks(#[trigger] (a + b)[k].0) == (a
        + b)[k].1.len() by {
        if k < a.len() {
            assert((a + b)[k] == a[k]);
        } else {
            assert((a + b)[k] == b[k - a.len()]);
        }
    }
}

/// In a balanced list the conditions hold as many placeholders as there are
/// values.
proof fn lemma_balanced_counts(parts: Seq<Part>)
    requires
        balanced(parts),
    ensures
        marks_of(clauses_of(parts)) == params_in(parts).len(),
    decreases parts.len(),
{
    if parts.len() > 0 {
        let rest = parts.drop_last();
        assert(balanced(rest)) by {
            assert forall|k: int| 0 <= k < rest.len() implies marks(#[trigger] rest[k].0)
                == rest[k].1.len() by {
                assert(rest[k] == parts[k]);
            }
        }
        lemma_balanced_counts(rest);
        assert(clauses_of(parts).drop_last() =~= clauses_of(rest));
        assert(clauses_of(parts).last() == parts.last().0);
        assert(marks(parts[parts.len() - 1].0) == parts[parts.len() - 1].1.len());
    }
}

/// A condition built around a placeholder list of `n` values.
proof fn lemma_around_list(head: Seq<char>, n: nat, tail: Seq<char>)
    ensures
        marks(head + placeholders(n) + tail) == marks(head) + n + marks(tail),
{
    crate::repositories::sql::lemma_placeholders_marks(n);
    crate::repositories::sql::lemma_marks_add(head, placeholders(n));
    crate::repositories::sql::lemma_marks_add(head + placeholders(n), tail);
}

/// Every filter of a query is balanced.
proof fn lemma_filters_balanced(q: GameQuery)
    ensures
        balanced(filter_parts(q)),
{
    lemma_clause_marks();
    lemma_around_list("status IN ("@, q.statuses@.len(), ")"@);
    let platforms = kept_trimmed(texts(q.platforms@));
    lemma_around_list("platform IN ("@, platforms.len(), ")"@);
    let genres = kept_normalized(texts(q.genres@));
    lemma_around_list(
        "EXISTS (SELECT 1 FROM game_genres gg JOIN genres ge ON ge.id = gg.genre_id WHERE gg.game_id = games.id AND ge.name_normalized IN ("@,
        genres.len(),
        "))"@,
    );
    lemma_around_list(
        "(SELECT COUNT(DISTINCT ge.name_normalized) FROM game_genres gg JOIN genres ge ON ge.id = gg.genre_id WHERE gg.game_id = games.id AND ge.name_normalized IN ("@,
        genres.len(),
        ")) = ?"@,
    );
    let p0 = search_part(q);
    let p1 = status_part(q);
    let p2 = platform_part(q);
    let p3 = genre_part(q);
    let p4 = int_part(q.release_year, "release_year = ?"@);
    let p5 = year_part(q.started_year, "substr(started_at, 1, 4) = ?"@);
    let p6 = year_part(q.finished_year, "substr(finished_at, 1, 4) = ?"@);
    let p7 = played_part(q);
    let p8 = int_part(q.min_rating, "rating >= ?"@);
    let p9 = int_part(q.max_rating, "rating <= ?"@);
    assert(balanced(p0) && balanced(p1) && balanced(p2) && balanced(p3) && balanced(p4));
    assert(balanced(p5) && balanced(p6) && balanced(p7) && balanced(p8) && balanced(p9));
    lemma_balanced_add(p0, p1);
    lemma_balanced_add(p0 + p1, p2);
    lemma_balanced_add(p0 + p1 + p2, p3);
    lemma_balanced_add(p0 + p1 + p2 + p3, p4);
    lemma_balanced_add(p0 + p1 + p2 + p3 + p4, p5);
    lemma_balanced_add(p0 + p1 + p2 + p3 + p4 + p5, p6);
    lemma_balanced_add(p0 + p1 + p2 + p3 + p4 + p5 + p6, p7);
    lemma_balanced_add(p0 + p1 + p2 + p3 + p4 + p5 + p6 + p7, p8);
    lemma_balanced_add(p0 + p1 + p2 + p3 + p4 + p5 + p6 + p7 + p8, p9);
}

/// The `WHERE` clause of the browser query holds exactly one placeholder for
/// each value bound with it, whatever the query: the statement and its values
/// always line up.
pub proof fn lemma_placeholders_match_values(q: GameQuery)
    ensures
        marks(where_text(filter_parts(q))) == params_in(filter_parts(q)).len(),
{
    let parts = filter_parts(q);
    lemma_filters_balanced(q);
    lemma_balanced_counts(parts);
    if parts.len() > 0 {
        lemma_clause_marks();
        crate::repositories::sql::lemma_joined_marks(clauses_of(parts), " AND "@);
        crate::repositories::sql::lemma_marks_add(" WHERE "@, joined(clauses_of(parts), " AND "@));
    }
}

/// The column a sort field orders by; the default ordering has none.
pub open spec fn sort_column(sort: GameSort) -> Seq<char> {
    match sort {
        GameSort::Default => Seq::empty(),
        GameSort::Title => "title COLLATE NOCASE"@,
        GameSort::StartedAt => "started_at"@,
        GameSort::FinishedAt => "finished_at"@,
        GameSort::ReleaseYear => "release_year"@,
        GameSort::Rating => "rating"@,
        GameSort::Status => "status"@,
    }
}

/// The SQL keyword of a direction.
pub open spec fn direction_keyword(direction: SortDirection) -> Seq<char> {
    match direction {
        SortDirection::Asc => "ASC"@,
        SortDirection::Desc => "DESC"@,
    }
}

/// The default ordering, whatever the direction: playing games first, then
/// the most recently finished, then by title and id.
pub open spec fn default_order() -> Seq<char> {
    "CASE status WHEN 'playing' THEN 0 ELSE 1 END, finished_at DESC NULLS LAST, title COLLATE NOCASE ASC, id DESC"@
}

/// A stable `ORDER BY` list: the default ordering, or the field with empty
/// values last, then the id in the same direction.
pub open spec fn order_text(sort: GameSort, direction: SortDirection) -> Seq<char> {
    if sort == GameSort::Default {
        default_order()
    } else {
        sort_column(sort) + " "@ + direction_keyword(direction) + " NULLS LAST, id "@
            + direction_keyword(direction)
    }
}

/// The `ORDER BY` list of a sort field begins with that field: its first key
/// is the column named like the field, followed by a space. The default
/// ordering ignores the direction and begins with the `CASE` that puts
/// playing games first.
pub proof fn lemma_order_starts_with_field(sort: GameSort, direction: SortDirection)
    ensures
        sort != GameSort::Default ==> ({
            let t = order_text(sort, direction);
            let f = sort.field_name();
            &&& t.len() > f.len()
            &&& t.subrange(0, f.len() as int) == f
            &&& t[f.len() as int] == ' '
        }),
        sort == GameSort::Default ==> order_text(sort, direction) == order_text(
            sort,
            SortDirection::Asc,
        ) && order_text(sort, direction).subrange(0, 4) == "CASE"@,
{
    reveal_strlit("title COLLATE NOCASE");
    reveal_strlit("title");
    reveal_strlit("started_at");
    reveal_strlit("finished_at");
    reveal_strlit("release_year");
    reveal_strlit("rating");
    reveal_strlit("status");
    reveal_strlit(" ");
    reveal_strlit("CASE");
    reveal_strlit("CASE status WHEN 'playing' THEN 0 ELSE 1 END, finished_at DESC NULLS LAST, title COLLATE NOCASE ASC, id DESC");
    if sort != GameSort::Default {
        let t = order_text(sort, direction);
        let c = sort_column(sort);
        let f = sort.field_name();
        assert(t == c + (" "@ + direction_keyword(direction) + " NULLS LAST, id "@ + direction_keyword(
            direction,
        )));
        assert(c.subrange(0, f.len() as int) =~= f);
        assert(t.subrange(0, f.len() as int) =~= c.subrange(0, f.len() as int));
        if sort == GameSort::Title {
            assert(t[5] == c[5]);
        } else {
            assert(c =~= f);
            assert(t[f.len() as int] == " "@[0]);
        }
    } else {
        assert(order_text(sort, direction).subrange(0, 4) =~= "CASE"@);
    }
}

/// A sort by a field ends with its empty values last and then the id in the
/// chosen direction: ascending lists end with `NULLS LAST, id ASC`,
/// descending ones with `NULLS LAST, id DESC`.
pub proof fn lemma_order_follows_direction(sort: GameSort, direction: SortDirection)
    requires
        sort != GameSort::Default,
    ensures
        direction == SortDirection::Asc ==> crate::text::has_suffix(
            order_text(sort, direction),
            " NULLS LAST, id ASC"@,
        ),
        direction == SortDirection::Desc ==> crate::text::has_suffix(
            order_text(sort, direction),
            " NULLS LAST, id DESC"@,
        ),
{
    reveal_strlit(" NULLS LAST, id ");
    reveal_strlit("ASC");
    reveal_strlit("DESC");
    reveal_strlit(" NULLS LAST, id ASC");
    reveal_strlit(" NULLS LAST, id DESC");
    let t = order_text(sort, direction);
    let head = sort_column(sort) + " "@ + direction_keyword(direction);
    let tail = " NULLS LAST, id "@ + direction_keyword(direction);
    assert(t == head + tail);
    assert(t.subrange(t.len() - tail.len(), t.len() as int) =~= tail);
    if direction == SortDirection::Asc {
        assert(tail =~= " NULLS LAST, id ASC"@);
    } else {
        assert(tail =~= " NULLS LAST, id DESC"@);
    }
}

/// Different sort fields give different `ORDER BY` lists, whatever the
/// directions.
pub proof fn lemma_order_distinguishes_fields(
    s1: GameSort,
    d1: SortDirection,
    s2: GameSort,
    d2: SortDirection,
)
    requires
        s1 != s2,
    ensures
        order_text(s1, d1) != order_text(s2, d2),
{
    lemma_order_starts_with_field(s1, d1);
    lemma_order_starts_with_field(s2, d2);
    reveal_strlit("title");
    reveal_strlit("started_at");
    reveal_strlit("finished_at");
    reveal_strlit("release_year");
    reveal_strlit("rating");
    reveal_strlit("status");
    reveal_strlit("CASE");
    let t1 = order_text(s1, d1);
    let t2 = order_text(s2, d2);
    let p1 = if s1 == GameSort::Default { "CASE"@ } else { s1.field_name() };
    let p2 = if s2 == GameSort::Default { "CASE"@ } else { s2.field_name() };
    assert(t1.subrange(0, 4) == p1.subrange(0, 4)) by {
        assert(t1.subrange(0, 4) =~= t1.subrange(0, p1.len() as int).subrange(0, 4));
    }
    assert(t2.subrange(0, 4) == p2.subrange(0, 4)) by {
        assert(t2.subrange(0, 4) =~= t2.subrange(0, p2.len() as int).subrange(0, 4));
    }
    if t1 == t2 {
        assert(p1.subrange(0, 4)[0] == p2.subrange(0, 4)[0]);
        assert(p1.subrange(0, 4)[1] == p2.subrange(0, 4)[1]);
        assert(p1.subrange(0, 4)[3] == p2.subrange(0, 4)[3]);
    }
}

/// Map a sort field and direction to a stable `ORDER BY` list.
pub fn order_clause(sort: GameSort, direction: SortDirection) -> (r: String)
    ensures
        r@ == order_text(sort, direction),
{
    if sort == GameSort::Default {
        return "CASE status WHEN 'playing' THEN 0 ELSE 1 END, finished_at DESC NULLS LAST, title COLLATE NOCASE ASC, id DESC".to_owned();
    }
    let column = match sort {
        GameSort::Default => "",
        GameSort::Title => "title COLLATE NOCASE",
        GameSort::StartedAt => "started_at",
        GameSort::FinishedAt => "finished_at",
        GameSort::ReleaseYear => "release_year",
        GameSort::Rating => "rating",
        GameSort::Status => "status",
    };
    let dir = match direction {
        SortDirection::Asc => "ASC",
        SortDirection::Desc => "DESC",
    };
    let mut out = column.to_owned();
    out.append(" ");
    out.append(dir);
    out.append(" NULLS LAST, id ");
    out.append(dir);
    out
}

} // verus!
