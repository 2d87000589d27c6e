//! The command surface: the process-wide state the UI shell invokes, one
//! method per named command.  Create and update stamp the invocation-time
//! clock reading here, not in the adapter, and every store failure crosses
//! this boundary as an opaque display string.

use vstd::prelude::*;

use crate::db::Database;
use crate::model::{RowModel, has_row, row_index, spec_create, spec_delete, spec_search,
    spec_toggle, spec_update, table_wf};
use crate::schema::{Snippet, snippet_of_row};
use crate::store;

verus! {

/// The singleton state behind the commands: one adapter, one logical
/// connection.  The embedding shell serializes all access through one
/// mutual-exclusion lock; the lock itself lives outside this crate.
pub struct AppState {
    db: Database,
}

impl AppState {
    /// The rows of the table behind the state, in store order.
    pub closed spec fn rows(&self) -> Seq<RowModel> {
        self.db.rows()
    }

    /// The id the store will assign to the next created snippet.
    pub closed spec fn next_id(&self) -> int {
        self.db.next_id()
    }

    /// The state's invariant, carried from construction on.
    pub open spec fn inv(&self) -> bool {
        table_wf(self.rows(), self.next_id())
    }

    /// Builds the state against the fixed local database path.  A failure
    /// here is fatal at process start: there is no retry or recovery path.
    pub fn new() -> (r: Result<AppState, String>)
        ensures
            r matches Ok(s) ==> s.inv(),
    {
        match Database::new("snippets.db") {
            Ok(db) => Ok(AppState { db }),
            Err(e) => Err(e.message()),
        }
    }

    /// Builds the state over a fresh store held in memory: an empty table
    /// whose first assigned id will be 1.
    pub fn new_in_memory() -> (r: Result<AppState, String>)
        ensures
            r matches Ok(s) ==> {
                &&& s.inv()
                &&& s.rows() == Seq::<RowModel>::empty()
                &&& s.next_id() == 1
            },
    {
        match Database::new_in_memory() {
            Ok(db) => Ok(AppState { db }),
            Err(e) => Err(e.message()),
        }
    }

    /// The get_snippets command: every stored snippet, in store order.
    pub fn get_snippets(&self) -> (r: Result<Vec<Snippet>, String>)
        ensures
            r matches Ok(v) ==> {
                &&& v@.len() == self.rows().len()
                &&& forall|i: int|
                    0 <= i < v@.len() ==> #[trigger] v@[i]@ == snippet_of_row(self.rows()[i])
            },
    {
        match self.db.get_all_snippets() {
            Ok(v) => Ok(v),
            Err(e) => Err(e.message()),
        }
    }

    /// The create_snippet command: reads the clock once, stamps the reading
    /// as both creation and update timestamp of a brand-new row (favorite
    /// flag false), inserts it, and returns the store-assigned id.
    pub fn create_snippet(
        &mut self,
        title: String,
        code: String,
        language: String,
        tags: String,
    ) -> (r: Result<i64, String>)
        requires
            old(self).inv(),
        ensures
            final(self).inv(),
            r matches Ok(id) ==> {
                &&& id as int == old(self).next_id()
                &&& 1 <= id
                &&& exists|ts: Seq<char>|
                    final(self).rows() == spec_create(
                        old(self).rows(),
                        id as int,
                        title@,
                        code@,
                        language@,
                        tags@,
                        ts,
                        ts,
                    )
                &&& final(self).next_id() == id as int + 1
            },
            r is Err ==> final(self).rows() == old(self).rows(),
    {
        let now = store::now_rfc3339();
        let snippet = Snippet {
            id: None,
            title,
            code,
            language,
            tags,
            is_favorite: false,
            created_at: now.clone(),
            updated_at: now,
        };
        match self.db.create_snippet(&snippet) {
            Ok(id) => {
                proof {
                    let ts = snippet@.created_at;
                    assert(snippet@.updated_at == ts);
                    assert(self.rows() == spec_create(
                        old(self).rows(),
                        id as int,
                        title@,
                        code@,
                        language@,
                        tags@,
                        ts,
                        ts,
                    ));
                }
                Ok(id)
            },
            Err(e) => Err(e.message()),
        }
    }

    /// The update_snippet command: reads the clock once, rewrites the content
    /// fields and updated_at of the row carrying the id, and leaves the
    /// stored created_at and favorite flag alone — the record it hands the
    /// adapter carries an empty created_at placeholder, which is never
    /// written through.  An id no row carries succeeds with no change.
    pub fn update_snippet(
        &mut self,
        id: i32,
        title: String,
        code: String,
        language: String,
        tags: String,
    ) -> (r: Result<(), String>)
        requires
            old(self).inv(),
        ensures
            final(self).inv(),
            final(self).next_id() == old(self).next_id(),
            r is Ok ==> exists|ts: Seq<char>|
                final(self).rows() == spec_update(
                    old(self).rows(),
                    id as int,
                    title@,
                    code@,
                    language@,
                    tags@,
                    ts,
                ),
            r is Err ==> final(self).rows() == old(self).rows(),
    {
        let now = store::now_rfc3339();
        let snippet = Snippet {
            id: Some(id),
            title,
            code,
            language,
            tags,
            is_favorite: false,
            created_at: String::new(),
            updated_at: now,
        };
        match self.db.update_snippet(&snippet) {
            Ok(()) => {
                proof {
                    let ts = snippet@.updated_at;
                    assert(self.rows() == spec_update(
                        old(self).rows(),
                        id as int,
                        title@,
                        code@,
                        language@,
                        tags@,
                        ts,
                    ));
                }
                Ok(())
            },
            Err(e) => Err(e.message()),
        }
    }

    /// The delete_snippet command: removes the row carrying the id; an id no
    /// row carries succeeds with no change.
    pub fn delete_snippet(&mut self, id: i32) -> (r: Result<(), String>)
        requires
            old(self).inv(),
        ensures
            final(self).inv(),
            final(self).next_id() == old(self).next_id(),
            r is Ok ==> final(self).rows() == spec_delete(old(self).rows(), id as int),
            r is Err ==> final(self).rows() == old(self).rows(),
    {
        match self.db.delete_snippet(id) {
            Ok(()) => Ok(()),
            Err(e) => Err(e.message()),
        }
    }

    /// The search_snippets command: exactly the stored snippets whose title,
    /// code or tags field matches the query as a LIKE substring, in store
    /// order; an empty query matches every row.
    pub fn search_snippets(&self, query: String) -> (r: Result<Vec<Snippet>, String>)
        ensures
            r matches Ok(v) ==> {
                let hits = spec_search(self.rows(), query@);
                &&& v@.len() == hits.len()
                &&& forall|i: int| 0 <= i < v@.len() ==> #[trigger] v@[i]@ == snippet_of_row(hits[i])
            },
    {
        match self.db.search_snippets(query.as_str()) {
            Ok(v) => Ok(v),
            Err(e) => Err(e.message()),
        }
    }

    /// The toggle_favorite command: flips the favorite flag of the row
    /// carrying the id and returns the value now stored.  Unlike update and
    /// delete, an id no row carries is a visible failure, never a success.
    pub fn toggle_favorite(&mut self, id: i32) -> (r: Result<bool, String>)
        requires
            old(self).inv(),
        ensures
            final(self).inv(),
            final(self).next_id() == old(self).next_id(),
            r matches Ok(b) ==> {
                let t = old(self).rows();
                &&& has_row(t, id as int)
                &&& final(self).rows() == spec_toggle(t, id as int)
                &&& b == !t[row_index(t, id as int)].is_favorite
            },
            r is Err ==> final(self).rows() == old(self).rows(),
            !has_row(old(self).rows(), id as int) ==> !(r is Ok),
    {
        match self.db.toggle_favorite(id) {
            Ok(b) => Ok(b),
            Err(e) => Err(e.message()),
        }
    }
}

} // verus!
