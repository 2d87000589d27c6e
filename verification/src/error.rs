//! The library's error taxonomy: a missing row (surfaced only by
//! toggle-favorite) and a store failure wrapping the engine's message.

use vstd::prelude::*;

verus! {

/// What a store operation can fail with.
#[derive(Debug, Clone, PartialEq, Eq)]
pub enum DbError {
    /// No row carries the requested id; only toggle-favorite reports this.
    RowNotFound,
    /// The backing engine failed; the payload is its display message.
    Store(String),
}

impl DbError {
    /// The display string handed across the command boundary.
    pub open spec fn message_spec(&self) -> Seq<char> {
        match self {
            DbError::RowNotFound => "Query returned no rows"@,
            DbError::Store(m) => m@,
        }
    }

    /// Renders the error as the opaque text the UI shows.
    pub fn message(&self) -> (r: String)
        ensures
            r@ == self.message_spec(),
    {
        match self {
            DbError::RowNotFound => "Query returned no rows".to_owned(),
            DbError::Store(m) => m.clone(),
        }
    }
}

} // verus!
