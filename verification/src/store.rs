//! Rules of the note store that do not depend on how the store keeps its data.

use vstd::prelude::*;

verus! {

/// A failure of the store (the database could not be read or written).
#[derive(Debug, PartialEq, Eq, Structural)]
pub struct StoreError;

/// The category that a note gets when none is given.
pub fn default_category() -> (c: &'static str)
    ensures
        c@ == "Allgemein"@,
{
    "Allgemein"
}

/// Whether a statement that updates or deletes rows changed any: an update
/// or a deletion succeeds exactly when a row matched it.
pub fn changed_any(executed: Result<usize, StoreError>) -> (r: Result<bool, StoreError>)
    ensures
        match executed {
            Ok(rows) => r == Ok::<bool, StoreError>(rows > 0),
            Err(e) => r == Err::<bool, StoreError>(e),
        },
{
    match executed {
        Ok(rows) => Ok(rows > 0),
        Err(e) => Err(e),
    }
}

/// Whether the notes table still lacks its `category` column and must be
/// migrated, given how many columns of that name the table has (`None` where
/// the count could not be read, which is taken as none).
pub fn needs_category_migration(category_columns: Option<i64>) -> (r: bool)
    ensures
        r == match category_columns {
            Some(n) => n == 0,
            None => true,
        },
{
    match category_columns {
        Some(n) => n == 0,
        None => true,
    }
}

} // verus!
