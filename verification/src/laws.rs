//! Laws that relate the operations to one another, stated over the
//! abstract store state — the map from identifiers to stored rows —
//! that every contract in this crate speaks of.

use vstd::prelude::*;

use crate::db::empty_db;
use crate::store::lists;
use crate::todo::RowV;
use crate::todo::Todo;

verus! {

/// A record just created is found intact: once a fresh identifier
/// maps to the submitted row, looking that identifier up yields
/// exactly that row, so a fetch right after a successful create
/// returns the submitted title and due value with a false
/// completion flag.
pub proof fn lemma_create_then_find(m: Map<Seq<char>, RowV>, id: Seq<char>, row: RowV)
    requires
        !m.contains_key(id),
    ensures
        m.insert(id, row).contains_key(id),
        m.insert(id, row)[id] == row,
{
}

/// A record just deleted stays gone: after an identifier is
/// removed, the store no longer holds it, so a fetch or a second
/// delete right after a successful delete reports not-found.
pub proof fn lemma_delete_then_find(m: Map<Seq<char>, RowV>, id: Seq<char>)
    ensures
        !m.remove(id).contains_key(id),
        m.remove(id).remove(id) == m.remove(id),
{
    assert(m.remove(id).remove(id) =~= m.remove(id));
}

/// Listing the empty store yields the empty sequence.
pub proof fn lemma_list_of_empty(v: Seq<Todo>)
    requires
        lists(v, empty_db()),
    ensures
        v.len() == 0,
{
    assert(empty_db().dom() =~= Set::<Seq<char>>::empty());
}

/// Each successful creation grows the store by exactly its own
/// record: a listing of the grown store has one more record than
/// the store had keys, the fresh identifier is listed with the
/// submitted row, and every record the store already held is still
/// listed unchanged.
pub proof fn lemma_create_grows_listing(
    m: Map<Seq<char>, RowV>,
    id: Seq<char>,
    row: RowV,
    v: Seq<Todo>,
)
    requires
        m.dom().finite(),
        !m.contains_key(id),
        lists(v, m.insert(id, row)),
    ensures
        v.len() == m.dom().len() + 1,
        exists|i: int| 0 <= i < v.len() && v[i].id@ == id && v[i].row() == row,
        forall|k: Seq<char>|
            #[trigger] m.contains_key(k) ==> exists|i: int|
                0 <= i < v.len() && v[i].id@ == k && v[i].row() == m[k],
{
    let m2 = m.insert(id, row);
    vstd::set::axiom_set_insert_len(m.dom(), id);
    assert(m2.dom() =~= m.dom().insert(id));
    assert(m2.contains_key(id));
    let i = choose|i: int| 0 <= i < v.len() && v[i].id@ == id;
    assert(v[i].row() == m2[id]);
    assert forall|k: Seq<char>| #[trigger] m.contains_key(k) implies exists|i: int|
        0 <= i < v.len() && v[i].id@ == k && v[i].row() == m[k] by {
        assert(m2.contains_key(k));
        let j = choose|j: int| 0 <= j < v.len() && v[j].id@ == k;
        assert(v[j].row() == m2[k]);
        assert(m2[k] == m[k]);
    }
}

/// Two successful creations never produce colliding identifiers:
/// each successful insert demands that its identifier was absent,
/// and the first one's identifier is present from then on, so the
/// second identifier differs from the first.
pub proof fn lemma_creates_distinct(
    m: Map<Seq<char>, RowV>,
    id1: Seq<char>,
    row1: RowV,
    id2: Seq<char>,
)
    requires
        !m.insert(id1, row1).contains_key(id2),
    ensures
        id1 != id2,
{
}

} // verus!
