//! The single error type that flows from the rules up to the command layer.
use vstd::prelude::*;

verus! {

/// What went wrong. Storage, file and JSON failures carry the message of the
/// underlying error; rule failures carry their own message.
#[derive(Debug, Clone, PartialEq, Eq)]
pub enum AppError {
    Database(String),
    Io(String),
    Json(String),
    NotFound,
    Validation(String),
}

/// `r` failed with a validation error whose message is `msg`.
pub open spec fn fails_with<T>(r: Result<T, AppError>, msg: Seq<char>) -> bool {
    r matches Err(AppError::Validation(m)) && m@ == msg
}

impl AppError {
    /// The text the frontend shows for this error.
    pub open spec fn spec_message(&self) -> Seq<char> {
        match self {
            AppError::Database(m) => "database error: "@ + m@,
            AppError::Io(m) => "file error: "@ + m@,
            AppError::Json(m) => "invalid sync metadata: "@ + m@,
            AppError::NotFound => "not found"@,
            AppError::Validation(m) => "validation error: "@ + m@,
        }
    }

    /// The text the frontend shows for this error.
    pub fn message(&self) -> (r: String)
        ensures
            r@ == self.spec_message(),
    {
        match self {
            AppError::Database(m) => crate::text::concat("database error: ", m.as_str()),
            AppError::Io(m) => crate::text::concat("file error: ", m.as_str()),
            AppError::Json(m) => crate::text::concat("invalid sync metadata: ", m.as_str()),
            AppError::NotFound => "not found".to_owned(),
            AppError::Validation(m) => crate::text::concat("validation error: ", m.as_str()),
        }
    }

    /// A validation error with the given message.
    pub fn validation(message: &str) -> (r: AppError)
        ensures
            r matches AppError::Validation(m) && m@ == message@,
    {
        AppError::Validation(message.to_owned())
    }
}

} // verus!
