//! Genre links: which names a game is linked to, and which genre names each
//! game of a result list shows.
use vstd::prelude::*;
use crate::domain::genre::normalized_name;
use crate::text::trimmed;
use crate::repositories::sql::texts;

verus! {

/// The normalized keys of a list of names.
pub open spec fn keys_of(names: Seq<Seq<char>>) -> Seq<Seq<char>> {
    names.map_values(|n: Seq<char>| normalized_name(n))
}

/// The names to link, in order: the first name of each distinct normalized
/// key, among the names that are not blank.
pub open spec fn first_of_each(names: Seq<Seq<char>>) -> Seq<Seq<char>>
    decreases names.len(),
{
    if names.len() == 0 {
        Seq::empty()
    } else {
        let kept = first_of_each(names.drop_last());
        let key = normalized_name(names.last());
        if trimmed(names.last()).len() > 0 && !keys_of(kept).contains(key) {
            kept.push(names.last())
        } else {
            kept
        }
    }
}

/// Whether a key is among the given keys.
fn contains_key(keys: &Vec<String>, key: &String) -> (r: bool)
    ensures
        r == texts(keys@).contains(key@),
{
    let mut i: usize = 0;
    while i < keys.len()
        invariant
            i <= keys@.len(),
            forall|j: int| 0 <= j < i ==> keys@[j]@ != key@,
        decreases keys.len() - i,
    {
        if keys[i] == *key {
            assert(texts(keys@)[i as int] == key@);
            return true;
        }
        i = i + 1;
    }
    proof {
        if texts(keys@).contains(key@) {
            let j = choose|j: int| 0 <= j < texts(keys@).len() && texts(keys@)[j] == key@;
            assert(keys@[j]@ == key@);
        }
    }
    false
}

/// The names a game is linked to when the user enters `names`: duplicates by
/// normalized name and blank names are skipped, and the first spelling of
/// each genre is kept.
pub fn genres_to_link(names: &Vec<String>) -> (r: Vec<String>)
    ensures
        texts(r@) == first_of_each(texts(names@)),
{
    let mut kept: Vec<String> = Vec::new();
    let mut seen: Vec<String> = Vec::new();
    let n = names.len();
    let mut i: usize = 0;
    while i < n
        invariant
            i <= n == names@.len(),
            texts(kept@) == first_of_each(texts(names@.take(i as int))),
            texts(seen@) == keys_of(texts(kept@)),
        decreases n - i,
    {
        let key = crate::domain::genre::normalize(names[i].as_str());
        proof {
            let ts = texts(names@.take(i as int + 1));
            assert(ts.drop_last() =~= texts(names@.take(i as int)));
            assert(ts.last() == names@[i as int]@);
        }
        if !key.as_str().is_empty() && !contains_key(&seen, &key) {
            let ghost pk = kept@;
            let ghost ps = seen@;
            kept.push(names[i].clone());
            seen.push(key);
            proof {
                assert(texts(kept@) =~= texts(pk).push(names@[i as int]@));
                assert(keys_of(texts(kept@)) =~= keys_of(texts(pk)).push(
                    normalized_name(names@[i as int]@),
                ));
                assert(texts(seen@) =~= texts(ps).push(normalized_name(names@[i as int]@)));
            }
        }
        i = i + 1;
    }
    assert(names@.take(n as int) =~= names@);
    kept
}

/// The names linked to one game, in row order.
pub open spec fn names_for(rows: Seq<(i64, String)>, id: i64) -> Seq<Seq<char>>
    decreases rows.len(),
{
    if rows.len() == 0 {
        Seq::empty()
    } else if rows.last().0 == id {
        names_for(rows.drop_last(), id).push(rows.last().1@)
    } else {
        names_for(rows.drop_last(), id)
    }
}

/// What a game of a result list receives: the names linked to its id, for the
/// first game with that id when there are any; `None` keeps what it has.
pub open spec fn genres_for_game(ids: Seq<i64>, rows: Seq<(i64, String)>, i: int) -> Option<
    Seq<Seq<char>>,
> {
    if (forall|j: int| 0 <= j < i ==> ids[j] != ids[i]) && names_for(rows, ids[i]).len() > 0 {
        Some(names_for(rows, ids[i]))
    } else {
        None
    }
}

/// The texts of an optional list of names.
pub open spec fn opt_texts(o: Option<Vec<String>>) -> Option<Seq<Seq<char>>> {
    match o {
        Some(v) => Some(texts(v@)),
        None => None,
    }
}

/// The names of one game, in row order.
fn collect_names(rows: &Vec<(i64, String)>, id: i64) -> (r: Vec<String>)
    ensures
        texts(r@) == names_for(rows@, id),
{
    let mut out: Vec<String> = Vec::new();
    let mut k: usize = 0;
    while k < rows.len()
        invariant
            k <= rows@.len(),
            texts(out@) == names_for(rows@.take(k as int), id),
        decreases rows.len() - k,
    {
        proof {
            assert(rows@.take(k as int + 1).drop_last() =~= rows@.take(k as int));
        }
        if rows[k].0 == id {
            let ghost prev = out@;
            out.push(rows[k].1.clone());
            assert(texts(out@) =~= texts(prev).push(rows@[k as int].1@));
        }
        k = k + 1;
    }
    assert(rows@.take(rows@.len() as int) =~= rows@);
    out
}

/// Group genre rows `(game id, name)` by game for a list of games: entry `i`
/// holds the names for `ids[i]`, or `None` when the game keeps its list.
pub fn group_genres(ids: &Vec<i64>, rows: &Vec<(i64, String)>) -> (r: Vec<Option<Vec<String>>>)
    ensures
        r@.len() == ids@.len(),
        forall|i: int| 0 <= i < ids@.len() ==> opt_texts(#[trigger] r@[i]) == genres_for_game(ids@, rows@, i),
{
    let mut out: Vec<Option<Vec<String>>> = Vec::new();
    let mut i: usize = 0;
    while i < ids.len()
        invariant
            i <= ids@.len(),
            out@.len() == i,
            forall|k: int| 0 <= k < i ==> opt_texts(#[trigger] out@[k]) == genres_for_game(ids@, rows@, k),
        decreases ids.len() - i,
    {
        let id = ids[i];
        let mut earlier = false;
        let mut j: usize = 0;
        while j < i
            invariant
                j <= i < ids@.len(),
                id == ids@[i as int],
                earlier == exists|k: int| 0 <= k < j && ids@[k] == id,
            decreases i - j,
        {
            if ids[j] == id {
                earlier = true;
            }
            j = j + 1;
        }
        let names = collect_names(rows, id);
        if !earlier && names.len() > 0 {
            out.push(Some(names));
        } else {
            out.push(None);
        }
        i = i + 1;
    }
    out
}


/// A game is linked to each genre once: the linked names are not blank and
/// have distinct normalized keys, every entered name that is not blank has
/// its genre among them, and blank names alone link nothing.
pub proof fn lemma_links_distinct_and_complete(names: Seq<Seq<char>>)
    ensures
        forall|i: int, j: int|
            0 <= i < j < first_of_each(names).len() ==> keys_of(first_of_each(names))[i] != keys_of(
                first_of_each(names),
            )[j],
        forall|i: int|
            0 <= i < first_of_each(names).len() ==> trimmed(#[trigger] first_of_each(names)[i]).len()
                > 0,
        forall|k: int|
            0 <= k < names.len() && trimmed(#[trigger] names[k]).len() > 0 ==> keys_of(
                first_of_each(names),
            ).contains(normalized_name(names[k])),
        (forall|k: int| 0 <= k < names.len() ==> trimmed(#[trigger] names[k]).len() == 0)
            ==> first_of_each(names).len() == 0,
    decreases names.len(),
{
    if names.len() > 0 {
        let d = names.drop_last();
        assert forall|k: int| 0 <= k < d.len() implies d[k] == names[k] by {}
        lemma_links_distinct_and_complete(d);
        let kept = first_of_each(d);
        let key = normalized_name(names.last());
        let r = first_of_each(names);
        if trimmed(names.last()).len() > 0 && !keys_of(kept).contains(key) {
            assert(r =~= kept.push(names.last()));
            assert(keys_of(r) =~= keys_of(kept).push(key));
            assert forall|i: int, j: int| 0 <= i < j < r.len() implies keys_of(r)[i] != keys_of(r)[j] by {
                if j == r.len() - 1 {
                    assert(keys_of(kept)[i] == keys_of(r)[i]);
                }
            }
            assert forall|i: int| 0 <= i < r.len() implies trimmed(#[trigger] r[i]).len() > 0 by {
                if i < kept.len() {
                    assert(r[i] == kept[i]);
                }
            }
        }
        assert forall|k: int|
            0 <= k < names.len() && trimmed(#[trigger] names[k]).len() > 0 implies keys_of(r).contains(
                normalized_name(names[k]),
            ) by {
            if k < d.len() {
                assert(d[k] == names[k]);
                assert(trimmed(d[k]).len() > 0);
                let w = choose|w: int| 0 <= w < keys_of(kept).len() && keys_of(kept)[w] == normalized_name(d[k]);
                if trimmed(names.last()).len() > 0 && !keys_of(kept).contains(key) {
                    assert(keys_of(r)[w] == keys_of(kept)[w]);
                }
            } else {
                if !keys_of(kept).contains(key) {
                    assert(keys_of(r)[r.len() - 1] == key);
                }
            }
        }
        if forall|k: int| 0 <= k < names.len() ==> trimmed(#[trigger] names[k]).len() == 0 {
            assert(trimmed(names[names.len() - 1]).len() == 0);
            assert forall|k: int| 0 <= k < d.len() implies trimmed(#[trigger] d[k]).len() == 0 by {
                assert(d[k] == names[k]);
            }
        }
    }
}

} // verus!
