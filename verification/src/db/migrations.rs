//! The ordered list of schema migrations and which of them a database still
//! needs.
use vstd::prelude::*;

verus! {

/// How many migrations there are. Migration `i` brings a database to
/// version `i + 1`.
pub const MIGRATION_COUNT: usize = 8;

/// The names of the migrations, in the order they apply; each names the
/// script of its schema change.
pub open spec fn migration_names() -> Seq<Seq<char>> {
    seq![
        "0001_init"@,
        "0002_genres_journal"@,
        "0003_settings"@,
        "0004_achievements"@,
        "0005_play_sessions"@,
        "0006_endless_status"@,
        "0007_automatic_tracking"@,
        "0008_daily_play_time"@,
    ]
}

/// The name of migration `index`.
pub fn migration_name(index: usize) -> (r: &'static str)
    requires
        index < MIGRATION_COUNT,
    ensures
        r@ == migration_names()[index as int],
{
    match index {
        0 => "0001_init",
        1 => "0002_genres_journal",
        2 => "0003_settings",
        3 => "0004_achievements",
        4 => "0005_play_sessions",
        5 => "0006_endless_status",
        6 => "0007_automatic_tracking",
        _ => "0008_daily_play_time",
    }
}

/// The schema version a fully migrated database has.
pub fn current_version() -> (r: i64)
    ensures
        r == MIGRATION_COUNT,
{
    MIGRATION_COUNT as i64
}

/// The indexes of the migrations to apply to a database at `user_version`,
/// in order; each one that applies advances the version to its index plus one.
pub fn pending_migrations(user_version: i64) -> (r: Vec<usize>)
    ensures
        forall|k: int| 0 <= k < r@.len() ==> #[trigger] r@[k] < MIGRATION_COUNT && r@[k] + 1 > user_version,
        forall|k: int, l: int| 0 <= k < l < r@.len() ==> r@[k] < r@[l],
        forall|i: usize| i < MIGRATION_COUNT && i + 1 > user_version ==> #[trigger] r@.contains(i),
{
    let mut out: Vec<usize> = Vec::new();
    let mut i: usize = 0;
    while i < MIGRATION_COUNT
        invariant
            i <= MIGRATION_COUNT,
            forall|k: int| 0 <= k < out@.len() ==> #[trigger] out@[k] < i && out@[k] + 1 > user_version,
            forall|k: int, l: int| 0 <= k < l < out@.len() ==> out@[k] < out@[l],
            forall|j: usize| j < i && j + 1 > user_version ==> #[trigger] out@.contains(j),
        decreases MIGRATION_COUNT - i,
    {
        if (i as i64) + 1 > user_version {
            let ghost prev = out@;
            out.push(i);
            proof {
                assert forall|j: usize| j < i + 1 && j + 1 > user_version implies #[trigger] out@.contains(j) by {
                    if j == i {
                        assert(out@[out@.len() - 1] == i);
                    } else {
                        assert(prev.contains(j));
                        let w = choose|w: int| 0 <= w < prev.len() && prev[w] == j;
                        assert(out@[w] == j);
                    }
                }
            }
        }
        i = i + 1;
    }
    out
}

/// Applying the pending migrations in order leaves a database that is not
/// newer than the code at the current version: the last pending one is the
/// final migration whenever any is pending.
pub proof fn lemma_migrations_reach_current(user_version: i64, r: Seq<usize>)
    requires
        forall|k: int| 0 <= k < r.len() ==> #[trigger] r[k] < MIGRATION_COUNT && r[k] + 1 > user_version,
        forall|i: usize| i < MIGRATION_COUNT && i + 1 > user_version ==> #[trigger] r.contains(i),
        forall|k: int, l: int| 0 <= k < l < r.len() ==> r[k] < r[l],
    ensures
        user_version < MIGRATION_COUNT ==> r.len() > 0 && r.last() + 1 == MIGRATION_COUNT,
        user_version >= MIGRATION_COUNT ==> r.len() == 0,
{
    if user_version < MIGRATION_COUNT {
        let last: usize = (MIGRATION_COUNT - 1) as usize;
        assert(r.contains(last));
        let w = choose|w: int| 0 <= w < r.len() && r[w] == last;
        if w < r.len() - 1 {
            assert(r[w] < r[r.len() - 1]);
        }
    }
    if user_version >= MIGRATION_COUNT && r.len() > 0 {
        assert(r[0] < MIGRATION_COUNT);
    }
}

} // verus!
