//! Replacing the registered Play/Stop shortcut.
use vstd::prelude::*;
use crate::error::{AppError, fails_with};
use crate::services::achievement::opt_text;

verus! {

/// Whether the registration has to change at all.
pub fn shortcut_changes(previous: &Option<String>, next: &Option<String>) -> (r: bool)
    ensures
        r == (opt_text(*previous) != opt_text(*next)),
{
    match (previous, next) {
        (Some(p), Some(n)) => !crate::text::str_eq(p.as_str(), n.as_str()),
        (None, None) => false,
        _ => true,
    }
}

/// The error of an accelerator the system refused.
pub fn shortcut_error(reason: &str) -> (r: AppError)
    ensures
        fails_with(Err::<(), AppError>(r), "shortcut is invalid or already in use: "@ + reason@),
{
    AppError::Validation(crate::text::concat("shortcut is invalid or already in use: ", reason))
}

} // verus!
