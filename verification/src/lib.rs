//! A small task-tracking library: todo records held in a file-backed
//! SQLite store, with the request-handling layer that maps the four
//! REST operations (create, list, fetch, delete) onto it.

mod db;
mod handlers;
mod ids;
mod laws;
mod store;
mod todo;

pub use laws::lemma_create_grows_listing;
pub use laws::lemma_create_then_find;
pub use laws::lemma_creates_distinct;
pub use laws::lemma_delete_then_find;
pub use laws::lemma_list_of_empty;

pub use handlers::Reply;
pub use handlers::ReplyBody;
pub use handlers::greeting;
pub use handlers::handle_create;
pub use handlers::handle_delete;
pub use handlers::handle_get;
pub use handlers::handle_list;

pub use db::db_todos;
pub use db::empty_db;
pub use db::raw_lists;
pub use ids::is_valid_id;
pub use ids::valid_id;
pub use store::Store;
pub use store::lists;
pub use todo::RowV;
pub use todo::StoreError;
pub use todo::Todo;
pub use todo::opt_view;
pub use todo::some_view;
