//! Reusable genres, recognised by their normalized name.
use vstd::prelude::*;
use crate::text::{lowercase, trimmed};

verus! {

/// A genre. `name` keeps the first-seen casing.
#[derive(Debug, Clone)]
pub struct Genre {
    pub id: i64,
    pub name: String,
}

/// The key under which genre names are recognised and deduplicated.
pub open spec fn normalized_name(name: Seq<char>) -> Seq<char> {
    lowercase(trimmed(name))
}

/// Normalize a genre name: trimmed, then lowercased.
pub fn normalize(name: &str) -> (r: String)
    ensures
        r@ == normalized_name(name@),
        r@.len() == 0 <==> trimmed(name@).len() == 0,
{
    crate::text::to_lowercase(crate::text::trim(name))
}

} // verus!
