//! The request handlers: one per endpoint. Each validates the
//! transport-level input it is handed, delegates to the store, and
//! maps the outcome to a status code and a response body shape. The
//! HTTP and JSON plumbing around them lives outside the library and
//! hands them plain values.

use vstd::prelude::*;

use crate::ids::new_id;
use crate::ids::valid_id;
use crate::store::Store;
use crate::store::lists;
use crate::todo::StoreError;
use crate::todo::Todo;
use crate::todo::opt_view;
use crate::todo::some_view;

verus! {

/// The body of a response: nothing at all, the empty envelope `{}`,
/// one record under `todo`, or all records under `todos`.
pub enum ReplyBody {
    Nothing,
    EmptyObject,
    OneTodo(Todo),
    ManyTodos(Vec<Todo>),
}

/// A handler's outcome: an HTTP status code and the body to render.
pub struct Reply {
    pub status: u16,
    pub body: ReplyBody,
}

/// The greeting of the health-check route.
pub fn greeting() -> (r: &'static str)
    ensures
        r@ == "Hello"@,
{
    "Hello"
}

/// Creates a record from a request body already reduced to its two
/// fields. A missing or empty title is rejected with 400 and
/// nothing is created — the title of a record is non-empty text.
/// Otherwise a record with a fresh identifier, the given title and
/// due value, and a false completion flag is written: 201 with the
/// empty envelope on success, 500 with nothing stored on a storage
/// failure.
pub fn handle_create(store: &mut Store, title: Option<String>, due: Option<String>) -> (r: Reply)
    ensures
        r.status == 201 || r.status == 400 || r.status == 500,
        r.status == 400 <==> (title is None || some_view(title).len() == 0),
        r.status == 201 ==> r.body is EmptyObject && (exists|id: Seq<char>|
            valid_id(id) && !old(store)@.contains_key(id) && final(store)@ == old(
                store,
            )@.insert(id, (some_view(title), 0int, opt_view(due)))),
        r.status != 201 ==> final(store)@ == old(store)@ && r.body is Nothing,
{
    let ghost title_v = some_view(title);
    let ghost due_v = opt_view(due);
    let t = match title {
        Some(t) => t,
        None => {
            return Reply { status: 400, body: ReplyBody::Nothing };
        },
    };
    if t.as_str().unicode_len() == 0 {
        return Reply { status: 400, body: ReplyBody::Nothing };
    }
    let id = new_id();
    let todo = Todo::from_partial(id, t, due);
    match store.insert(&todo) {
        Ok(()) => {
            proof {
                assert(valid_id(todo.id@) && !old(store)@.contains_key(todo.id@) && store@ == old(
                    store,
                )@.insert(todo.id@, (title_v, 0int, due_v)));
            }
            Reply { status: 201, body: ReplyBody::EmptyObject }
        },
        Err(_) => Reply { status: 500, body: ReplyBody::Nothing },
    }
}

/// Lists every record: 200 with all of them under `todos` — the
/// empty store gives 200 with none — or 500 with nothing when the
/// store fails to list or a row fails to decode.
pub fn handle_list(store: &Store) -> (r: Reply)
    ensures
        r.status == 200 || r.status == 500,
        r.status == 200 ==> (r.body matches ReplyBody::ManyTodos(v) && lists(v@, store@)),
        r.status == 500 ==> r.body is Nothing,
{
    match store.list_all() {
        Ok(todos) => Reply { status: 200, body: ReplyBody::ManyTodos(todos) },
        Err(_) => Reply { status: 500, body: ReplyBody::Nothing },
    }
}

/// Fetches one record by the identifier taken from the request
/// path: 200 with the stored record under `todo`, or 404 with
/// nothing — for a malformed identifier, a missing record, and a
/// storage failure alike.
pub fn handle_get(store: &Store, id: &str) -> (r: Reply)
    ensures
        r.status == 200 || r.status == 404,
        r.status == 200 ==> (r.body matches ReplyBody::OneTodo(t) && valid_id(id@)
            && store@.contains_key(id@) && t.id@ == id@ && t.row() == store@[id@]),
        !valid_id(id@) || !store@.contains_key(id@) ==> r.status == 404,
        r.status == 404 ==> r.body is Nothing,
{
    match store.find_by_id(id) {
        Ok(t) => Reply { status: 200, body: ReplyBody::OneTodo(t) },
        Err(_) => Reply { status: 404, body: ReplyBody::Nothing },
    }
}

/// Deletes one record by the identifier taken from the request
/// path: 204 with the empty envelope when exactly that record is
/// removed, 404 with nothing when the identifier is malformed or no
/// record has it, 500 with nothing on a storage failure; the store
/// is unchanged unless 204 is returned.
pub fn handle_delete(store: &mut Store, id: &str) -> (r: Reply)
    ensures
        r.status == 204 || r.status == 404 || r.status == 500,
        r.status == 204 ==> valid_id(id@) && old(store)@.contains_key(id@) && final(store)@ == old(
            store,
        )@.remove(id@) && r.body is EmptyObject,
        r.status != 204 ==> final(store)@ == old(store)@ && r.body is Nothing,
        !valid_id(id@) ==> r.status == 404,
        r.status == 404 ==> !valid_id(id@) || !old(store)@.contains_key(id@),
        valid_id(id@) && !old(store)@.contains_key(id@) ==> r.status == 404 || r.status == 500,
        valid_id(id@) && old(store)@.contains_key(id@) ==> r.status == 204 || r.status == 500,
{
    match store.delete_by_id(id) {
        Ok(()) => Reply { status: 204, body: ReplyBody::EmptyObject },
        Err(e) => match e {
            StoreError::NotFound | StoreError::Validation => Reply {
                status: 404,
                body: ReplyBody::Nothing,
            },
            StoreError::Storage | StoreError::Decode => Reply {
                status: 500,
                body: ReplyBody::Nothing,
            },
        },
    }
}

} // verus!
