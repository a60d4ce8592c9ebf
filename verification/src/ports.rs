//! What the engine needs to know of the event store: where it is, and that
//! reading or writing it can fail.

use vstd::prelude::*;

verus! {

/// A failure of the event store, with the store's own words.
#[derive(Debug, Clone, PartialEq, Eq)]
pub struct DbError(pub String);

impl DbError {
    /// The store's own words.
    pub fn to_string(&self) -> (text: String)
        ensures
            text@ == self.0@,
    {
        self.0.clone()
    }
}

/// What the event store answers.
pub type DbResult<T> = Result<T, DbError>;

/// Where the event store is.
#[derive(Debug, Clone, PartialEq, Eq)]
pub struct DatabaseUrl(pub String);

/// What was read from the store, or nothing if the read failed.
pub open spec fn read_of<T: DeepView>(result: DbResult<T>) -> Option<T::V> {
    match result {
        Ok(value) => Some(value.deep_view()),
        Err(_) => None,
    }
}

} // verus!
