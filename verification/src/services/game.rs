//! Game rules applied before a game is stored.
use vstd::prelude::*;
use crate::domain::game::GameInput;
use crate::error::{AppError, fails_with};
use crate::text::trimmed;
use crate::validation::{empty_message, range_message};

verus! {

/// A game needs a title, and a rating, when given, lies in `0..=10`.
pub fn validate_game(input: &GameInput) -> (r: Result<(), AppError>)
    ensures
        trimmed(input.title@).len() == 0 ==> fails_with(r, empty_message("title"@)),
        trimmed(input.title@).len() > 0 && (input.rating matches Some(v) && (v < 0 || v > 10))
            ==> fails_with(r, range_message("rating"@, 0, 10)),
        r is Ok <==> trimmed(input.title@).len() > 0 && (input.rating matches Some(v) ==> 0 <= v
            <= 10),
{
    crate::validation::require_non_empty("title", input.title.as_str())?;
    crate::validation::require_in_range("rating", input.rating, 0, 10)?;
    Ok(())
}

} // verus!
