//! The record model: the `Todo` entity, its stored-row view, the
//! failure taxonomy, and the two construction paths — from a create
//! request and from a stored row.

use vstd::prelude::*;

verus! {

/// The failure taxonomy: malformed client input, a missing record,
/// a storage-level failure, and a stored row that does not decode
/// to a record.
#[derive(Clone, Copy, Debug, PartialEq, Eq, Structural)]
pub enum StoreError {
    Validation,
    NotFound,
    Storage,
    Decode,
}

/// One todo record: an immutable identifier in canonical form, an
/// immutable title, a completion flag that starts false, and an
/// optional due timestamp carried as its textual form.
#[derive(Clone, Debug)]
pub struct Todo {
    pub id: String,
    pub title: String,
    pub completed: bool,
    pub due: Option<String>,
}

/// The view of an optional string.
pub open spec fn opt_view(o: Option<String>) -> Option<Seq<char>> {
    match o {
        Some(s) => Some(s@),
        None => None,
    }
}

/// The view of the string a present optional holds; the empty
/// sequence when it holds none.
pub open spec fn some_view(o: Option<String>) -> Seq<char> {
    match o {
        Some(s) => s@,
        None => Seq::empty(),
    }
}

/// How a record is stored, identifier aside: the title text, the
/// completion flag as the integer 0 or 1, and the due text or null.
pub type RowV = (Seq<char>, int, Option<Seq<char>>);

impl Todo {
    /// The stored-row view of this record.
    pub open spec fn row(&self) -> RowV {
        (self.title@, if self.completed { 1int } else { 0int }, opt_view(self.due))
    }

    /// Builds the record for a create request: the given fresh
    /// identifier, the submitted title and due value, and a
    /// completion flag that starts false.
    pub fn from_partial(id: String, title: String, due: Option<String>) -> (t: Todo)
        ensures
            t.id@ == id@,
            t.title@ == title@,
            !t.completed,
            t.due == due,
            t.row() == (title@, 0int, opt_view(due)),
    {
        Todo { id, title, completed: false, due }
    }

    /// Reconstructs a record from the four stored columns, in their
    /// fixed order; the completion column must hold exactly 0 or 1.
    pub fn from_row(id: String, title: String, completed: i64, due: Option<String>) -> (r: Result<
        Todo,
        StoreError,
    >)
        ensures
            r is Ok <==> completed == 0 || completed == 1,
            r matches Ok(t) ==> t.id@ == id@ && t.row() == (title@, completed as int, opt_view(due)),
            r matches Err(e) ==> e == StoreError::Decode,
    {
        if completed == 0 || completed == 1 {
            Ok(Todo { id, title, completed: completed == 1, due })
        } else {
            Err(StoreError::Decode)
        }
    }
}

} // verus!
