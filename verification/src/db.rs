//! The persistence adapter: one connection to the embedded store and the six
//! operations, each a single statement, with its effect stated over the table
//! model of [`crate::model`].

use vstd::prelude::*;

use crate::error::DbError;
use crate::model::{
    RowModel, has_row, lemma_delete_wf, row_index, spec_create, spec_delete, spec_search,
    spec_toggle, spec_update, table_wf,
};
use crate::schema::{Snippet, snippet_of_row};
use crate::store;

verus! {

/// Owns one connection to the embedded store.  The table behind it is read
/// through [`Database::rows`], and [`Database::inv`] holds from construction
/// on: the store's primary key keeps it true.
pub struct Database {
    conn: rusqlite::Connection,
}

impl Database {
    /// The rows of the `snippets` table behind this adapter, in store order.
    pub closed spec fn rows(&self) -> Seq<RowModel> {
        store::table_of(self.conn)
    }

    /// The id the store will assign to the next created snippet.
    pub closed spec fn next_id(&self) -> int {
        store::next_rowid(self.conn)
    }

    /// The adapter's invariant: ids unique, positive, and below the next one.
    pub open spec fn inv(&self) -> bool {
        table_wf(self.rows(), self.next_id())
    }

    /// Opens (or creates) the backing store at `path` and makes sure the
    /// table exists; repeating the call is harmless.  Fails only when the
    /// store cannot be opened or written.
    pub fn new(path: &str) -> (r: Result<Database, DbError>)
        ensures
            r matches Ok(db) ==> db.inv(),
    {
        match store::open_conn(path) {
            Ok(conn) => Ok(Database { conn }),
            Err(e) => Err(e),
        }
    }

    /// Opens a fresh store held in memory: an empty table whose first
    /// assigned id will be 1.
    pub fn new_in_memory() -> (r: Result<Database, DbError>)
        ensures
            r matches Ok(db) ==> {
                &&& db.inv()
                &&& db.rows() == Seq::<RowModel>::empty()
                &&& db.next_id() == 1
            },
    {
        match store::open_memory_conn() {
            Ok(conn) => Ok(Database { conn }),
            Err(e) => Err(e),
        }
    }

    /// Inserts a new row carrying the snippet's fields and returns the
    /// store-assigned id.  The favorite flag of the new row is false whatever
    /// the input holds; duplicates of title or content are permitted.  On
    /// failure the table is unchanged.
    pub fn create_snippet(&mut self, snippet: &Snippet) -> (r: Result<i64, DbError>)
        requires
            old(self).inv(),
            snippet.id is None,
        ensures
            final(self).inv(),
            r matches Ok(id) ==> {
                &&& id as int == old(self).next_id()
                &&& 1 <= id
                &&& final(self).rows() == spec_create(
                    old(self).rows(),
                    id as int,
                    snippet@.title,
                    snippet@.code,
                    snippet@.language,
                    snippet@.tags,
                    snippet@.created_at,
                    snippet@.updated_at,
                )
                &&& final(self).next_id() == id as int + 1
            },
            r is Err ==> final(self).rows() == old(self).rows(),
    {
        let got = store::insert_row(
            &mut self.conn,
            snippet.title.as_str(),
            snippet.code.as_str(),
            snippet.language.as_str(),
            snippet.tags.as_str(),
            snippet.created_at.as_str(),
            snippet.updated_at.as_str(),
        );
        proof {
            let t0 = old(self).rows();
            let t1 = self.rows();
            if got is Ok {
                assert forall|i: int, j: int|
                    0 <= i < t1.len() && 0 <= j < t1.len() && i != j implies t1[i].id
                    != t1[j].id by {
                    assert(forall|k: int| 0 <= k < t0.len() ==> t1[k] == t0[k]);
                }
            }
        }
        got
    }

    /// Hands back every stored snippet, each with its assigned id, in store
    /// order.  An empty table yields an empty vector, never a failure.
    pub fn get_all_snippets(&self) -> (r: Result<Vec<Snippet>, DbError>)
        ensures
            r matches Ok(v) ==> {
                &&& v@.len() == self.rows().len()
                &&& forall|i: int|
                    0 <= i < v@.len() ==> #[trigger] v@[i]@ == snippet_of_row(self.rows()[i])
            },
    {
        store::select_all_rows(&self.conn)
    }

    /// Rewrites title, code, language, tags and updated_at of the row whose
    /// id matches the snippet's; created_at and the favorite flag stay as
    /// stored whatever the input holds.  When no row carries the id, the call
    /// succeeds and changes nothing.  On failure the table is unchanged.
    pub fn update_snippet(&mut self, snippet: &Snippet) -> (r: Result<(), DbError>)
        requires
            old(self).inv(),
            snippet.id is Some,
        ensures
            final(self).inv(),
            final(self).next_id() == old(self).next_id(),
            r is Ok ==> final(self).rows() == spec_update(
                old(self).rows(),
                snippet@.id->0,
                snippet@.title,
                snippet@.code,
                snippet@.language,
                snippet@.tags,
                snippet@.updated_at,
            ),
            r is Err ==> final(self).rows() == old(self).rows(),
    {
        let id = snippet.id.unwrap();
        let got = store::update_row(
            &mut self.conn,
            id,
            snippet.title.as_str(),
            snippet.code.as_str(),
            snippet.language.as_str(),
            snippet.tags.as_str(),
            snippet.updated_at.as_str(),
        );
        proof {
            let t0 = old(self).rows();
            let t1 = self.rows();
            if got is Ok {
                assert(forall|k: int| 0 <= k < t0.len() ==> #[trigger] t1[k].id == t0[k].id);
            }
        }
        got
    }

    /// Removes the row whose id matches; every other row stays as it was.
    /// When no row carries the id, the call succeeds and changes nothing.
    /// The id of a removed row is never assigned again.  On failure the table
    /// is unchanged.
    pub fn delete_snippet(&mut self, id: i32) -> (r: Result<(), DbError>)
        requires
            old(self).inv(),
        ensures
            final(self).inv(),
            final(self).next_id() == old(self).next_id(),
            r is Ok ==> final(self).rows() == spec_delete(old(self).rows(), id as int),
            r is Err ==> final(self).rows() == old(self).rows(),
    {
        let got = store::delete_row(&mut self.conn, id);
        proof {
            if got is Ok {
                lemma_delete_wf(old(self).rows(), id as int, old(self).next_id());
            }
        }
        got
    }

    /// Hands back exactly the stored snippets whose title, code or tags field
    /// matches the query as a LIKE substring, in store order.  A `%` or `_`
    /// in the query keeps its wildcard meaning; an empty query matches every
    /// row.
    pub fn search_snippets(&self, query: &str) -> (r: Result<Vec<Snippet>, DbError>)
        ensures
            r matches Ok(v) ==> {
                let hits = spec_search(self.rows(), query@);
                &&& v@.len() == hits.len()
                &&& forall|i: int| 0 <= i < v@.len() ==> #[trigger] v@[i]@ == snippet_of_row(hits[i])
            },
    {
        store::select_matching_rows(&self.conn, query)
    }

    /// Atomically flips the favorite flag of the row whose id matches and
    /// returns the new value — the one now stored.  Unlike update and delete,
    /// an unknown id is a visible failure: [`DbError::RowNotFound`] comes
    /// back exactly when no row carries the id, and the call never succeeds
    /// on one.  On failure the table is unchanged.
    pub fn toggle_favorite(&mut self, id: i32) -> (r: Result<bool, DbError>)
        requires
            old(self).inv(),
        ensures
            final(self).inv(),
            final(self).next_id() == old(self).next_id(),
            r matches Ok(b) ==> {
                let t = old(self).rows();
                &&& has_row(t, id as int)
                &&& final(self).rows() == spec_toggle(t, id as int)
                &&& b == !t[row_index(t, id as int)].is_favorite
            },
            r is Err ==> final(self).rows() == old(self).rows(),
            r matches Err(e) && e is RowNotFound ==> !has_row(old(self).rows(), id as int),
            !has_row(old(self).rows(), id as int) ==> !(r is Ok),
    {
        let got = store::toggle_row(&mut self.conn, id);
        proof {
            let t0 = old(self).rows();
            let t1 = self.rows();
            if got is Ok {
                assert(forall|k: int| 0 <= k < t0.len() ==> #[trigger] t1[k].id == t0[k].id);
            }
        }
        got
    }
}

} // verus!
