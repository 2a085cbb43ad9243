//! Journal rules applied before an entry is stored.
use vstd::prelude::*;
use crate::error::{AppError, fails_with};
use crate::text::trimmed;
use crate::validation::empty_message;

verus! {

/// A journal entry needs a body that is not blank.
pub fn validate_entry_body(body: &str) -> (r: Result<(), AppError>)
    ensures
        r is Ok <==> trimmed(body@).len() > 0,
        r is Err ==> fails_with(r, empty_message("entry"@)),
{
    crate::validation::require_non_empty("entry", body)
}

} // verus!
