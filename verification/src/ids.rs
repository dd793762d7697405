//! The record identifier: a UUID in its canonical textual form,
//! 36 characters, lowercase hexadecimal with hyphens at the four
//! fixed positions. Fresh identifiers come from the `uuid` crate;
//! the shape check on incoming identifiers is verified here.

use vstd::prelude::*;

verus! {

/// A lowercase hexadecimal digit.
pub open spec fn is_hex_char(c: char) -> bool {
    ('0' <= c && c <= '9') || ('a' <= c && c <= 'f')
}

/// What position `i` of a well-formed identifier must hold: a hyphen
/// at the four fixed positions, a lowercase hexadecimal digit
/// everywhere else.
pub open spec fn id_char_ok(s: Seq<char>, i: int) -> bool {
    if i == 8 || i == 13 || i == 18 || i == 23 {
        s[i] == '-'
    } else {
        is_hex_char(s[i])
    }
}

/// The canonical textual form of a record identifier.
pub open spec fn valid_id(s: Seq<char>) -> bool {
    &&& s.len() == 36
    &&& forall|i: int| 0 <= i < 36 ==> #[trigger] id_char_ok(s, i)
}

/// Decides whether `s` is a well-formed identifier, exactly as
/// `valid_id` states it.
pub fn is_valid_id(s: &str) -> (r: bool)
    ensures
        r == valid_id(s@),
{
    let len = s.unicode_len();
    if len != 36 {
        return false;
    }
    let mut i: usize = 0;
    while i < 36
        invariant
            0 <= i <= 36,
            s@.len() == 36,
            forall|j: int| 0 <= j < i ==> #[trigger] id_char_ok(s@, j),
        decreases 36 - i,
    {
        let c = s.get_char(i);
        if i == 8 || i == 13 || i == 18 || i == 23 {
            if c != '-' {
                assert(!id_char_ok(s@, i as int));
                return false;
            }
        } else {
            if !(('0' <= c && c <= '9') || ('a' <= c && c <= 'f')) {
                assert(!id_char_ok(s@, i as int));
                return false;
            }
        }
        assert(id_char_ok(s@, i as int));
        i = i + 1;
    }
    true
}

/// Relies on `uuid::Uuid::new_v4` and its `Display` form: a fresh
/// random version-4 identifier rendered as 36 lowercase hexadecimal
/// characters with hyphens at the four fixed positions. Nothing is
/// assumed about which identifier comes back.
#[verifier::external_body]
pub(crate) fn new_id() -> (r: String)
    ensures
        valid_id(r@),
{
    uuid::Uuid::new_v4().to_string()
}

} // verus!
