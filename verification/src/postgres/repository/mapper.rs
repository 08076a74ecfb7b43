//! Mapping of single columns read from a row.
use crate::postgres::model::result::RepositoryError;
use crate::text::join;
use vstd::prelude::*;

verus! {

/// The error for a column that could not be read: the column's name, a colon and a
/// space, then the driver's text for what went wrong.
pub fn column_error(column_name: &str, detail: &str) -> (e: RepositoryError)
    ensures
        match e {
            RepositoryError::ParseError(m) => m@ == column_name@ + ": "@ + detail@,
            _ => false,
        },
{
    let prefix = join(column_name, ": ");
    let message = join(prefix.as_str(), detail);
    RepositoryError::ParseError(message)
}

} // verus!
