//! Fresh identifiers for reservations, orders and payments.

use vstd::prelude::*;

verus! {

/// The length of an identifier in its hyphenated form.
pub const ID_LEN: usize = 36;

/// Whether `s` has the outline of a hyphenated identifier: five groups of
/// 8, 4, 4, 4 and 12 characters, with a hyphen between neighbours.
pub open spec fn hyphenated(s: Seq<char>) -> bool {
    &&& s.len() == ID_LEN
    &&& s[8] == '-'
    &&& s[13] == '-'
    &&& s[18] == '-'
    &&& s[23] == '-'
}

/// Draws a random identifier with `uuid::Uuid::new_v4` and writes it out with
/// the `Display` of `Uuid` (`to_string`).
///
/// Believed, not proved: the text has the hyphenated outline, 36 characters
/// with hyphens at offsets 8, 13, 18 and 23. Which identifier comes back is
/// left open: it is random, and nothing says that it differs from an earlier one.
#[verifier::external_body]
pub(crate) fn fresh_id() -> (id: String)
    ensures
        hyphenated(id@),
{
    uuid::Uuid::new_v4().to_string()
}

} // verus!
