//! Errors of the repositories.
use crate::text::join;
use vstd::prelude::*;

verus! {

/// Why a repository call failed. The database and pool variants hold the text of the
/// driver's or the pool's error.
#[derive(Debug)]
pub enum RepositoryError {
    NotFound,
    DatabaseError(String),
    PoolError(String),
    ParseError(String),
}

/// The text of a repository error, as it is displayed.
pub open spec fn repository_error_message(e: RepositoryError) -> Seq<char> {
    match e {
        RepositoryError::NotFound => "Entity not found"@,
        RepositoryError::DatabaseError(s) => "Database error: "@ + s@,
        RepositoryError::PoolError(s) => "Pool error: "@ + s@,
        RepositoryError::ParseError(s) => "Parse error: "@ + s@,
    }
}

impl RepositoryError {
    /// The text of the error, as it is displayed.
    pub fn message(&self) -> (s: String)
        ensures
            s@ == repository_error_message(*self),
    {
        match self {
            RepositoryError::NotFound => String::from_str("Entity not found"),
            RepositoryError::DatabaseError(e) => join("Database error: ", e.as_str()),
            RepositoryError::PoolError(e) => join("Pool error: ", e.as_str()),
            RepositoryError::ParseError(e) => join("Parse error: ", e.as_str()),
        }
    }
}

} // verus!
