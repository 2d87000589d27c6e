//! The trusted boundary to the embedded store and to the clock: the SQLite
//! connection type, names for what a connection holds, and one wrapper per
//! statement the library executes.  Everything below is believed, not proved;
//! each item's comment names the outside code it relies on.

use vstd::prelude::*;

use crate::error::DbError;
use crate::model::{
    RowModel, has_row, inserted_row, like_match, row_index, spec_delete, spec_search, spec_toggle,
    spec_update, table_wf, wild_pattern,
};
use crate::schema::{Snippet, snippet_of_row};

verus! {

/// Declares `rusqlite::Connection` so it can stand in signatures and fields;
/// a connection value is opaque, and the two names below say what it holds.
#[verifier::external_type_specification]
#[verifier::external_body]
pub struct ExConnection(rusqlite::Connection);

/// Names the rows of the `snippets` table behind a connection, in rowid
/// order: the order an unqualified SELECT walks an unmodified table in.
pub uninterp spec fn table_of(conn: rusqlite::Connection) -> Seq<RowModel>;

/// Names the id the store will assign to the next inserted row.  The column
/// is INTEGER PRIMARY KEY AUTOINCREMENT, so this is one more than the largest
/// id the table has ever held, and it never moves backwards.
pub uninterp spec fn next_rowid(conn: rusqlite::Connection) -> int;

/// Relies on `rusqlite::Connection::open` and `Connection::execute` running
/// CREATE TABLE IF NOT EXISTS: opens (or creates) the database file and makes
/// sure the `snippets` table exists, idempotently.  SQLite's INTEGER PRIMARY
/// KEY AUTOINCREMENT keeps stored ids unique, positive and below the next id
/// to be assigned.
#[verifier::external_body]
pub(crate) fn open_conn(path: &str) -> (r: Result<rusqlite::Connection, DbError>)
    ensures
        r matches Ok(conn) ==> table_wf(table_of(conn), next_rowid(conn)),
{
    let conn = match rusqlite::Connection::open(path) {
        Ok(c) => c,
        Err(e) => return Err(DbError::Store(e.to_string())),
    };
    let made = conn.execute(
        "CREATE TABLE IF NOT EXISTS snippets (
            id INTEGER PRIMARY KEY AUTOINCREMENT,
            title TEXT NOT NULL,
            code TEXT NOT NULL,
            language TEXT NOT NULL,
            tags TEXT NOT NULL,
            created_at TEXT NOT NULL,
            updated_at TEXT NOT NULL,
            is_favorite BOOLEAN NOT NULL DEFAULT 0
        )",
        [],
    );
    match made {
        Ok(_) => Ok(conn),
        Err(e) => Err(DbError::Store(e.to_string())),
    }
}

/// Relies on `rusqlite::Connection::open_in_memory` and the same CREATE TABLE
/// statement as [`open_conn`]: a fresh in-memory database starts with an
/// empty table, and SQLite assigns a first AUTOINCREMENT id of 1.
#[verifier::external_body]
pub(crate) fn open_memory_conn() -> (r: Result<rusqlite::Connection, DbError>)
    ensures
        r matches Ok(conn) ==> table_of(conn) == Seq::<RowModel>::empty() && next_rowid(conn) == 1,
{
    let conn = match rusqlite::Connection::open_in_memory() {
        Ok(c) => c,
        Err(e) => return Err(DbError::Store(e.to_string())),
    };
    let made = conn.execute(
        "CREATE TABLE IF NOT EXISTS snippets (
            id INTEGER PRIMARY KEY AUTOINCREMENT,
            title TEXT NOT NULL,
            code TEXT NOT NULL,
            language TEXT NOT NULL,
            tags TEXT NOT NULL,
            created_at TEXT NOT NULL,
            updated_at TEXT NOT NULL,
            is_favorite BOOLEAN NOT NULL DEFAULT 0
        )",
        [],
    );
    match made {
        Ok(_) => Ok(conn),
        Err(e) => Err(DbError::Store(e.to_string())),
    }
}

/// Relies on `rusqlite::Connection::execute` with an INSERT statement and on
/// `Connection::last_insert_rowid`: SQLite appends one row whose
/// AUTOINCREMENT id is the next unused id and returns that id; `is_favorite`
/// is not named in the statement and takes its declared default of false.  A
/// failed single statement leaves the table as it was.
#[verifier::external_body]
pub(crate) fn insert_row(
    conn: &mut rusqlite::Connection,
    title: &str,
    code: &str,
    language: &str,
    tags: &str,
    created_at: &str,
    updated_at: &str,
) -> (r: Result<i64, DbError>)
    ensures
        r matches Ok(id) ==> {
            &&& id as int == next_rowid(*old(conn))
            &&& table_of(*final(conn)) == table_of(*old(conn)).push(
                inserted_row(
                    id as int,
                    title@,
                    code@,
                    language@,
                    tags@,
                    created_at@,
                    updated_at@,
                ),
            )
            &&& next_rowid(*final(conn)) == next_rowid(*old(conn)) + 1
        },
        r is Err ==> table_of(*final(conn)) == table_of(*old(conn)) && next_rowid(*final(conn))
            >= next_rowid(*old(conn)),
{
    let done = conn.execute(
        "INSERT INTO snippets (title, code, language, tags, created_at, updated_at)
         VALUES (?1, ?2, ?3, ?4, ?5, ?6)",
        (title, code, language, tags, created_at, updated_at),
    );
    match done {
        Ok(_) => Ok(conn.last_insert_rowid()),
        Err(e) => Err(DbError::Store(e.to_string())),
    }
}

/// Relies on `rusqlite::Connection::prepare`, `Statement::query_map` and
/// collecting the mapped rows: an unqualified SELECT over an unmodified table
/// hands back every row, in rowid order, with each column as it is stored.
/// Reading a column fails (and the whole call reports a store error) if a
/// stored id does not fit the record's id field.
#[verifier::external_body]
pub(crate) fn select_all_rows(conn: &rusqlite::Connection) -> (r: Result<Vec<Snippet>, DbError>)
    ensures
        r matches Ok(v) ==> {
            &&& v@.len() == table_of(*conn).len()
            &&& forall|i: int|
                0 <= i < v@.len() ==> #[trigger] v@[i]@ == snippet_of_row(table_of(*conn)[i])
        },
{
    let sql = "SELECT id, title, code, language, tags, created_at, updated_at, is_favorite
               FROM snippets";
    let run = conn.prepare(sql).and_then(|mut stmt| {
        stmt.query_map([], |row| Ok(Snippet {
            id: Some(row.get(0)?), title: row.get(1)?, code: row.get(2)?, language: row.get(3)?,
            tags: row.get(4)?, created_at: row.get(5)?, updated_at: row.get(6)?,
            is_favorite: row.get(7)?,
        }))?.collect::<rusqlite::Result<Vec<Snippet>>>()
    });
    run.map_err(|e| DbError::Store(e.to_string()))
}

/// Relies on the same SELECT machinery as [`select_all_rows`], restricted by
/// `WHERE title LIKE ?1 OR code LIKE ?1 OR tags LIKE ?1` with the query
/// wrapped in `%` wildcards: SQLite keeps exactly the rows whose title, code
/// or tags field the LIKE operator matches, in rowid order.
#[verifier::external_body]
pub(crate) fn select_matching_rows(conn: &rusqlite::Connection, query: &str) -> (r: Result<
    Vec<Snippet>,
    DbError,
>)
    ensures
        r matches Ok(v) ==> {
            let hits = spec_search(table_of(*conn), query@);
            &&& v@.len() == hits.len()
            &&& forall|i: int| 0 <= i < v@.len() ==> #[trigger] v@[i]@ == snippet_of_row(hits[i])
        },
        r matches Ok(v) ==> forall|i: int|
            0 <= i < v@.len() ==> {
                ||| like_match(wild_pattern(query@), (#[trigger] v@[i])@.title)
                ||| like_match(wild_pattern(query@), v@[i]@.code)
                ||| like_match(wild_pattern(query@), v@[i]@.tags)
            },
{
    let pattern = format!("%{}%", query);
    let sql = "SELECT id, title, code, language, tags, created_at, updated_at, is_favorite
               FROM snippets WHERE title LIKE ?1 OR code LIKE ?1 OR tags LIKE ?1";
    let run = conn.prepare(sql).and_then(|mut stmt| {
        stmt.query_map([&pattern], |row| Ok(Snippet {
            id: Some(row.get(0)?), title: row.get(1)?, code: row.get(2)?, language: row.get(3)?,
            tags: row.get(4)?, created_at: row.get(5)?, updated_at: row.get(6)?,
            is_favorite: row.get(7)?,
        }))?.collect::<rusqlite::Result<Vec<Snippet>>>()
    });
    run.map_err(|e| DbError::Store(e.to_string()))
}

/// Relies on `rusqlite::Connection::execute` with an UPDATE statement:
/// rewrites title, code, language, tags and updated_at of every row whose id
/// matches (at most one, the id being the primary key), touches no other row
/// and no other column, and succeeds with no effect when no row matches.  A
/// failed single statement leaves the table as it was.
#[verifier::external_body]
pub(crate) fn update_row(
    conn: &mut rusqlite::Connection,
    id: i32,
    title: &str,
    code: &str,
    language: &str,
    tags: &str,
    updated_at: &str,
) -> (r: Result<(), DbError>)
    ensures
        next_rowid(*final(conn)) == next_rowid(*old(conn)),
        r is Ok ==> table_of(*final(conn)) == spec_update(
            table_of(*old(conn)),
            id as int,
            title@,
            code@,
            language@,
            tags@,
            updated_at@,
        ),
        r is Err ==> table_of(*final(conn)) == table_of(*old(conn)),
{
    let done = conn.execute(
        "UPDATE snippets SET title = ?1, code = ?2, language = ?3, tags = ?4, updated_at = ?5
         WHERE id = ?6",
        (title, code, language, tags, updated_at, id),
    );
    match done {
        Ok(_) => Ok(()),
        Err(e) => Err(DbError::Store(e.to_string())),
    }
}

/// Relies on `rusqlite::Connection::execute` with a DELETE statement: removes
/// every row whose id matches (at most one, the id being the primary key),
/// keeps the rest in their order, and succeeds with no effect when no row
/// matches.  AUTOINCREMENT keeps the next id unchanged, so a deleted id is
/// never reassigned.  A failed single statement leaves the table as it was.
#[verifier::external_body]
pub(crate) fn delete_row(conn: &mut rusqlite::Connection, id: i32) -> (r: Result<(), DbError>)
    ensures
        next_rowid(*final(conn)) == next_rowid(*old(conn)),
        r is Ok ==> table_of(*final(conn)) == spec_delete(table_of(*old(conn)), id as int),
        r is Err ==> table_of(*final(conn)) == table_of(*old(conn)),
{
    match conn.execute("DELETE FROM snippets WHERE id = ?1", [id]) {
        Ok(_) => Ok(()),
        Err(e) => Err(DbError::Store(e.to_string())),
    }
}

/// Relies on `rusqlite::Connection::query_row` with
/// `UPDATE ... SET is_favorite = NOT is_favorite ... RETURNING is_favorite`:
/// atomically flips the flag of the row whose id matches and hands back the
/// new value; when no row matches, rusqlite reports `QueryReturnedNoRows`,
/// which comes back as [`DbError::RowNotFound`].  A failed statement leaves
/// the table as it was.
#[verifier::external_body]
pub(crate) fn toggle_row(conn: &mut rusqlite::Connection, id: i32) -> (r: Result<bool, DbError>)
    ensures
        next_rowid(*final(conn)) == next_rowid(*old(conn)),
        r matches Ok(b) ==> {
            let t = table_of(*old(conn));
            &&& has_row(t, id as int)
            &&& table_of(*final(conn)) == spec_toggle(t, id as int)
            &&& b == !t[row_index(t, id as int)].is_favorite
        },
        r is Err ==> table_of(*final(conn)) == table_of(*old(conn)),
        r matches Err(e) && e is RowNotFound ==> !has_row(table_of(*old(conn)), id as int),
{
    let got = conn.query_row(
        "UPDATE snippets SET is_favorite = NOT is_favorite WHERE id = ?1 RETURNING is_favorite",
        [id],
        |row| row.get(0),
    );
    match got {
        Ok(b) => Ok(b),
        Err(rusqlite::Error::QueryReturnedNoRows) => Err(DbError::RowNotFound),
        Err(e) => Err(DbError::Store(e.to_string())),
    }
}

/// Relies on `chrono::Utc::now` and `DateTime::to_rfc3339`: an ISO-8601
/// timestamp for the current instant.  The value depends on the clock, so
/// nothing is assumed of it.
#[verifier::external_body]
pub(crate) fn now_rfc3339() -> String {
    chrono::Utc::now().to_rfc3339()
}

} // verus!
