//! The storage adapter: a single SQLite connection behind four
//! operations — insert, list, find, delete. The abstract state is
//! the map from record identifiers to stored rows; every operation
//! says exactly how it reads or changes that map, and on which
//! inputs each error comes.

use vstd::prelude::*;

use crate::db;
use crate::db::db_todos;
use crate::db::empty_db;
use crate::db::raw_lists;
use crate::ids::is_valid_id;
use crate::ids::valid_id;
use crate::todo::RowV;
use crate::todo::StoreError;
use crate::todo::Todo;
use crate::todo::opt_view;

verus! {

/// What a decoded listing must be: one record per stored key, each
/// matching the stored row, no key twice, no key missing.
pub open spec fn lists(v: Seq<Todo>, m: Map<Seq<char>, RowV>) -> bool {
    &&& v.len() == m.dom().len()
    &&& forall|i: int|
        0 <= i < v.len() ==> m.contains_key(#[trigger] v[i].id@) && m[v[i].id@] == v[i].row()
    &&& forall|i: int, j: int| 0 <= i < j < v.len() ==> v[i].id@ != v[j].id@
    &&& forall|k: Seq<char>|
        #[trigger] m.contains_key(k) ==> exists|i: int| 0 <= i < v.len() && v[i].id@ == k
}

/// The store: sole owner of the persistent connection. Its abstract
/// state is the map of stored rows; exclusive access is what `&mut`
/// already demands, so operations never interleave.
pub struct Store {
    conn: rusqlite::Connection,
}

impl View for Store {
    type V = Map<Seq<char>, RowV>;

    closed spec fn view(&self) -> Map<Seq<char>, RowV> {
        db_todos(self.conn)
    }
}

impl Store {
    /// Opens the store at the given file path, creating the file and
    /// the table if absent; creation is idempotent and never touches
    /// existing rows, so the opened store holds whatever the file
    /// already held — finitely many rows, nothing else is known of
    /// them.
    pub fn open(path: &str) -> (r: Result<Store, StoreError>)
        ensures
            r matches Ok(s) ==> s@.dom().finite(),
            r matches Err(e) ==> e == StoreError::Storage,
    {
        match db::open_file(path) {
            Ok(mut conn) => match db::exec_create_table(&mut conn) {
                Ok(()) => Ok(Store { conn }),
                Err(_) => Err(StoreError::Storage),
            },
            Err(_) => Err(StoreError::Storage),
        }
    }

    /// Opens a fresh in-memory store, which holds no records.
    pub fn open_in_memory() -> (r: Result<Store, StoreError>)
        ensures
            r matches Ok(s) ==> s@ == empty_db(),
            r matches Err(e) ==> e == StoreError::Storage,
    {
        match db::open_memory() {
            Ok(mut conn) => match db::exec_create_table(&mut conn) {
                Ok(()) => Ok(Store { conn }),
                Err(_) => Err(StoreError::Storage),
            },
            Err(_) => Err(StoreError::Storage),
        }
    }

    /// Writes one new record, whose identifier must be in canonical
    /// form — anything else would store a row that the find and
    /// delete operations, which reject a non-canonical identifier
    /// before consulting the store, could never reach. Success means
    /// exactly one row was inserted: the record's identifier was
    /// absent and now maps to the record's row, all other rows
    /// untouched. Any failure — a duplicate identifier included — is
    /// a storage error and leaves the store unchanged.
    pub fn insert(&mut self, todo: &Todo) -> (r: Result<(), StoreError>)
        requires
            valid_id(todo.id@),
        ensures
            r is Ok ==> !old(self)@.contains_key(todo.id@) && final(self)@ == old(self)@.insert(
                todo.id@,
                todo.row(),
            ),
            r is Err ==> final(self)@ == old(self)@,
            r matches Err(e) ==> e == StoreError::Storage,
    {
        match db::exec_insert(
            &mut self.conn,
            todo.id.as_str(),
            todo.title.as_str(),
            todo.completed,
            &todo.due,
        ) {
            Ok(n) => {
                if n == 1 {
                    Ok(())
                } else {
                    Err(StoreError::Storage)
                }
            },
            Err(_) => Err(StoreError::Storage),
        }
    }

    /// Returns every stored record, one per stored key, in whatever
    /// order the store yields them. A row whose completion column is
    /// not 0 or 1 fails the whole listing with a decode error; a
    /// storage failure reports as such. An empty store yields the
    /// empty vector, not an error.
    pub fn list_all(&self) -> (r: Result<Vec<Todo>, StoreError>)
        ensures
            r matches Ok(v) ==> lists(v@, self@),
            r matches Err(e) ==> e == StoreError::Storage || e == StoreError::Decode,
    {
        let mut rows = match db::query_all(&self.conn) {
            Ok(rows) => rows,
            Err(_) => {
                return Err(StoreError::Storage);
            },
        };
        let ghost all = rows@;
        let ghost n = all.len() as int;
        let mut out: Vec<Todo> = Vec::new();
        loop
            invariant
                raw_lists(all, self@),
                n == all.len(),
                rows@ == all.subrange(0, rows@.len() as int),
                out@.len() + rows@.len() == all.len(),
                forall|j: int|
                    0 <= j < out@.len() ==> (#[trigger] out@[j].id@) == all[n - 1 - j].0@
                        && out@[j].row() == self@[all[n - 1 - j].0@],
            ensures
                out@.len() == all.len(),
                forall|j: int|
                    0 <= j < out@.len() ==> (#[trigger] out@[j].id@) == all[n - 1 - j].0@
                        && out@[j].row() == self@[all[n - 1 - j].0@],
            decreases rows@.len(),
        {
            let row = match rows.pop() {
                Some(row) => row,
                None => {
                    break ;
                },
            };
            let ghost k = rows@.len() as int;
            proof {
                assert(rows@ =~= all.subrange(0, rows@.len() as int));
                assert(all[k] == row);
                assert(self@.contains_key(all[k].0@) && self@[all[k].0@] == (
                    all[k].1@,
                    all[k].2 as int,
                    opt_view(all[k].3),
                ));
            }
            let todo = match Todo::from_row(row.0, row.1, row.2, row.3) {
                Ok(todo) => todo,
                Err(_) => {
                    return Err(StoreError::Decode);
                },
            };
            let ghost prev = out@;
            out.push(todo);
            assert forall|j: int| 0 <= j < out@.len() implies (#[trigger] out@[j].id@)
                == all[n - 1 - j].0@ && out@[j].row() == self@[all[n - 1 - j].0@] by {
                if j < out@.len() - 1 {
                    assert(out@[j] == prev[j]);
                } else {
                    assert(n - 1 - j == k);
                }
            }
        }
        proof {
            assert(out@.len() == self@.dom().len());
            assert forall|i: int, j: int| 0 <= i < j < out@.len() implies out@[i].id@
                != out@[j].id@ by {
                assert(all[n - 1 - j].0@ != all[n - 1 - i].0@);
            }
            assert forall|k: Seq<char>| #[trigger] self@.contains_key(k) implies exists|i: int|
                0 <= i < out@.len() && out@[i].id@ == k by {
                let i = choose|i: int| 0 <= i < all.len() && all[i].0@ == k;
                assert(out@[n - 1 - i].id@ == k);
            }
        }
        Ok(out)
    }

    /// Fetches the record whose identifier is `id`. A malformed
    /// identifier is rejected as invalid before the store is
    /// consulted; a well-formed identifier with no record fails with
    /// not-found; a returned record is exactly the stored one.
    pub fn find_by_id(&self, id: &str) -> (r: Result<Todo, StoreError>)
        ensures
            r matches Ok(t) ==> valid_id(id@) && self@.contains_key(id@) && t.id@ == id@ && t.row()
                == self@[id@],
            r matches Err(e) && e == StoreError::Validation <==> !valid_id(id@),
            r matches Err(e) && e == StoreError::NotFound ==> !self@.contains_key(id@),
            valid_id(id@) && !self@.contains_key(id@) ==> (r matches Err(e) && (e
                == StoreError::NotFound || e == StoreError::Storage)),
            valid_id(id@) && self@.contains_key(id@) ==> r is Ok || (r matches Err(e) && e
                == StoreError::Storage),
    {
        if !is_valid_id(id) {
            return Err(StoreError::Validation);
        }
        match db::query_by_id(&self.conn, id) {
            Ok(Some((rid, title, completed, due))) => match Todo::from_row(
                rid,
                title,
                completed,
                due,
            ) {
                Ok(t) => Ok(t),
                Err(_) => Err(StoreError::Storage),
            },
            Ok(None) => Err(StoreError::NotFound),
            Err(_) => Err(StoreError::Storage),
        }
    }

    /// Removes the record whose identifier is `id`. A malformed
    /// identifier is rejected as invalid before the store is
    /// consulted. Success means the record existed and exactly that
    /// row is gone; not-found means no such record; every failure
    /// leaves the store unchanged.
    pub fn delete_by_id(&mut self, id: &str) -> (r: Result<(), StoreError>)
        ensures
            r is Ok ==> valid_id(id@) && old(self)@.contains_key(id@) && final(self)@ == old(
                self,
            )@.remove(id@),
            r is Err ==> final(self)@ == old(self)@,
            r matches Err(e) && e == StoreError::Validation <==> !valid_id(id@),
            r matches Err(e) && e == StoreError::NotFound ==> !old(self)@.contains_key(id@),
            valid_id(id@) && !old(self)@.contains_key(id@) ==> (r matches Err(e) && (e
                == StoreError::NotFound || e == StoreError::Storage)),
            valid_id(id@) && old(self)@.contains_key(id@) ==> r is Ok || (r matches Err(e) && e
                == StoreError::Storage),
    {
        if !is_valid_id(id) {
            return Err(StoreError::Validation);
        }
        match db::exec_delete(&mut self.conn, id) {
            Ok(n) => {
                if n == 0 {
                    proof {
                        assert(old(self)@.remove(id@) =~= old(self)@);
                    }
                    Err(StoreError::NotFound)
                } else if n == 1 {
                    Ok(())
                } else {
                    Err(StoreError::Storage)
                }
            },
            Err(_) => Err(StoreError::Storage),
        }
    }
}

} // verus!
