//! The trusted boundary to SQLite: the `rusqlite` connection and
//! error types, the abstract contents of the `todos` table, and one
//! wrapper per statement the store issues. Each contract states what
//! the `rusqlite` source and the SQLite documentation promise of the
//! call, over `db_todos`; nothing here is verified.

use vstd::prelude::*;

use crate::todo::RowV;
use crate::todo::opt_view;
use rusqlite::OptionalExtension;

verus! {

/// `rusqlite::Connection`, opaque to verification.
#[verifier::external_type_specification]
#[verifier::external_body]
pub struct ExConnection(rusqlite::Connection);

/// `rusqlite::Error`, opaque to verification.
#[verifier::external_type_specification]
#[verifier::external_body]
pub struct ExSqliteError(rusqlite::Error);

/// A table with no rows at all.
pub open spec fn empty_db() -> Map<Seq<char>, RowV> {
    Map::empty()
}

/// The rows of the `todos` table behind a connection, keyed by the
/// `id` column, each carrying (title, completed, due) with the
/// completion flag as its stored integer. A database without that
/// table holds no rows.
pub uninterp spec fn db_todos(c: rusqlite::Connection) -> Map<Seq<char>, RowV>;

/// What a sequence of raw rows must be to enumerate a table's
/// contents: one row per stored key, each carrying the stored
/// values, no key twice, no key missing.
pub open spec fn raw_lists(
    v: Seq<(String, String, i64, Option<String>)>,
    m: Map<Seq<char>, RowV>,
) -> bool {
    &&& v.len() == m.dom().len()
    &&& forall|i: int|
        0 <= i < v.len() ==> m.contains_key(#[trigger] v[i].0@) && m[v[i].0@] == (
            v[i].1@,
            v[i].2 as int,
            opt_view(v[i].3),
        )
    &&& forall|i: int, j: int| 0 <= i < j < v.len() ==> v[i].0@ != v[j].0@
    &&& forall|k: Seq<char>|
        #[trigger] m.contains_key(k) ==> exists|i: int| 0 <= i < v.len() && v[i].0@ == k
}

/// Relies on `rusqlite::Connection::open`: opens, creating the file
/// if absent, the database at `path`. The table holds finitely many
/// rows — whatever the file already held; nothing more is assumed.
#[verifier::external_body]
pub(crate) fn open_file(path: &str) -> (r: Result<rusqlite::Connection, rusqlite::Error>)
    ensures
        r matches Ok(c) ==> db_todos(c).dom().finite(),
{
    rusqlite::Connection::open(path)
}

/// Relies on `rusqlite::Connection::open_in_memory`: a freshly
/// created, empty database, so the `todos` table holds no rows.
#[verifier::external_body]
pub(crate) fn open_memory() -> (r: Result<rusqlite::Connection, rusqlite::Error>)
    ensures
        r matches Ok(c) ==> db_todos(c) == empty_db(),
{
    rusqlite::Connection::open_in_memory()
}

/// Relies on `rusqlite::Connection::execute` with
/// `CREATE TABLE IF NOT EXISTS`: idempotent, never touches the rows
/// of an existing table, and a freshly created table holds none.
#[verifier::external_body]
pub(crate) fn exec_create_table(c: &mut rusqlite::Connection) -> (r: Result<
    (),
    rusqlite::Error,
>)
    ensures
        db_todos(*final(c)) == db_todos(*old(c)),
{
    let sql = "CREATE TABLE IF NOT EXISTS todos (
        id TEXT PRIMARY KEY,
        title TEXT NOT NULL,
        completed INTEGER NOT NULL CHECK (completed IN (0, 1)),
        due TEXT
    )";
    c.execute(sql, ()).map(|_| ())
}

/// Relies on `rusqlite::Connection::execute` with a parameterized
/// single-row INSERT into a table whose `id` column is the primary
/// key: on success exactly one row was inserted and the key was
/// absent before; on any failure (a duplicate key included) the
/// statement changes nothing.
#[verifier::external_body]
pub(crate) fn exec_insert(
    c: &mut rusqlite::Connection,
    id: &str,
    title: &str,
    completed: bool,
    due: &Option<String>,
) -> (r: Result<usize, rusqlite::Error>)
    ensures
        r matches Ok(n) ==> n == 1 && !db_todos(*old(c)).contains_key(id@) && db_todos(*final(c))
            == db_todos(*old(c)).insert(
            id@,
            (title@, if completed { 1int } else { 0int }, opt_view(*due)),
        ),
        r is Err ==> db_todos(*final(c)) == db_todos(*old(c)),
{
    c.execute(
        "INSERT INTO todos (id, title, completed, due) VALUES (?1, ?2, ?3, ?4)",
        (id, title, completed, due.as_deref()),
    )
}

/// Relies on `rusqlite::Connection::execute` with a parameterized
/// DELETE by primary key: on success the changed-row count is 1 if
/// the key was present and 0 if not, and the row is gone; on failure
/// nothing changes.
#[verifier::external_body]
pub(crate) fn exec_delete(c: &mut rusqlite::Connection, id: &str) -> (r: Result<
    usize,
    rusqlite::Error,
>)
    ensures
        r matches Ok(n) ==> n == (if db_todos(*old(c)).contains_key(id@) {
            1int
        } else {
            0int
        }) && db_todos(*final(c)) == db_todos(*old(c)).remove(id@),
        r is Err ==> db_todos(*final(c)) == db_todos(*old(c)),
{
    c.execute("DELETE FROM todos WHERE id = ?1", (id,))
}

/// Relies on `rusqlite::Connection::query_row` with `.optional()`
/// and a SELECT by primary key: at most one row matches, a returned
/// row is the stored one, and `None` means no row has that key.
#[verifier::external_body]
pub(crate) fn query_by_id(c: &rusqlite::Connection, id: &str) -> (r: Result<
    Option<(String, String, i64, Option<String>)>,
    rusqlite::Error,
>)
    ensures
        r matches Ok(Some(row)) ==> db_todos(*c).contains_key(id@) && row.0@ == id@ && db_todos(
            *c,
        )[id@] == (row.1@, row.2 as int, opt_view(row.3)),
        r matches Ok(None) ==> !db_todos(*c).contains_key(id@),
{
    c.query_row(
        "SELECT id, title, completed, due FROM todos WHERE id = ?1",
        (id,),
        |row| Ok((row.get(0)?, row.get(1)?, row.get(2)?, row.get(3)?)),
    ).optional()
}

/// Relies on `rusqlite` `prepare` and `query_map` with a SELECT over
/// the whole table: every stored row is returned exactly once.
#[verifier::external_body]
pub(crate) fn query_all(c: &rusqlite::Connection) -> (r: Result<
    Vec<(String, String, i64, Option<String>)>,
    rusqlite::Error,
>)
    ensures
        r matches Ok(v) ==> raw_lists(v@, db_todos(*c)),
{
    let mut stmt = c.prepare("SELECT id, title, completed, due FROM todos")?;
    let rows = stmt.query_map((), |row| Ok((row.get(0)?, row.get(1)?, row.get(2)?, row.get(3)?)))?;
    let mut out = Vec::new();
    for row in rows {
        out.push(row?);
    }
    Ok(out)
}

} // verus!
