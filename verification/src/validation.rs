//! Reusable business validation rules shared across the services.
use vstd::prelude::*;
use crate::error::{AppError, fails_with};
use crate::text::{trimmed, int_text};

verus! {

/// The message of a blank required field.
pub open spec fn empty_message(field: Seq<char>) -> Seq<char> {
    field + " must not be empty"@
}

/// The message of a number outside `min..=max`.
pub open spec fn range_message(field: Seq<char>, min: int, max: int) -> Seq<char> {
    field + " must be between "@ + int_text(min) + " and "@ + int_text(max)
}

/// Ensure a required text field is not blank once trimmed.
pub fn require_non_empty(field: &str, value: &str) -> (r: Result<(), AppError>)
    ensures
        r is Ok <==> trimmed(value@).len() > 0,
        r is Err ==> fails_with(r, empty_message(field@)),
{
    if crate::text::is_blank(value) {
        return Err(AppError::Validation(crate::text::concat(field, " must not be empty")));
    }
    Ok(())
}

/// Ensure an optional integer, when present, lies within `min..=max`.
pub fn require_in_range(field: &str, value: Option<i64>, min: i64, max: i64) -> (r: Result<
    (),
    AppError,
>)
    ensures
        r is Ok <==> (value matches Some(v) ==> min <= v <= max),
        r is Err ==> fails_with(r, range_message(field@, min as int, max as int)),
{
    if let Some(value) = value {
        if value < min || value > max {
            let mut message = crate::text::concat(field, " must be between ");
            crate::text::push_int(&mut message, min);
            message.append(" and ");
            crate::text::push_int(&mut message, max);
            return Err(AppError::Validation(message));
        }
    }
    Ok(())
}

} // verus!
