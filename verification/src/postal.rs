//! What a postal address says.

use vstd::prelude::*;

verus! {

/// The lines of a postal address.
pub struct AddressView {
    pub street: Seq<char>,
    pub city: Seq<char>,
    pub state: Seq<char>,
    pub postal_code: Seq<char>,
    pub country: Seq<char>,
}

} // verus!
