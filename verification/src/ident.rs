//! Fresh identifiers for profiles, tags, saved operations and runs.

use vstd::prelude::*;

verus! {

/// Whether `c` is a decimal digit or one of the letters `a` to `f`.
pub open spec fn is_lower_hex(c: char) -> bool {
    ('0' <= c && c <= '9') || ('a' <= c && c <= 'f')
}

/// Whether `s` has the shape of a hyphenated identifier: 36 characters,
/// hyphens at positions 8, 13, 18 and 23, lower-case hexadecimal digits
/// everywhere else.
pub open spec fn is_hyphenated_id(s: Seq<char>) -> bool {
    &&& s.len() == 36
    &&& forall|i: int|
        0 <= i < 36 ==> if i == 8 || i == 13 || i == 18 || i == 23 {
            #[trigger] s[i] == '-'
        } else {
            is_lower_hex(s[i])
        }
}

/// A new random identifier. This is `uuid::Uuid::new_v4`, written out by
/// `to_string`.
///
/// Not proved, but read off the source of `uuid`: the `Display` of `Uuid`
/// is its lower-case hyphenated form, 32 hexadecimal digits in groups of 8,
/// 4, 4, 4 and 12 with a hyphen between the groups. Only this shape is
/// claimed; which identifier comes out is left open, and two calls may give
/// the same or different ones.
#[verifier::external_body]
pub(crate) fn fresh_id() -> (id: String)
    ensures
        is_hyphenated_id(id@),
{
    uuid::Uuid::new_v4().to_string()
}

} // verus!
