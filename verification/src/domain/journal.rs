//! Journal entries: the player's notes on a playthrough, owned by a game.
use vstd::prelude::*;

verus! {

/// A stored journal entry.
#[derive(Debug, Clone)]
pub struct JournalEntry {
    pub id: i64,
    pub game_id: i64,
    pub body: String,
    pub created_at: String,
    pub updated_at: String,
}

/// Fields for creating a journal entry.
#[derive(Debug, Clone)]
pub struct NewJournalEntry {
    pub game_id: i64,
    pub body: String,
}

/// Fields for editing a journal entry; the owning game never changes.
#[derive(Debug, Clone)]
pub struct JournalEntryUpdate {
    pub body: String,
}

} // verus!
