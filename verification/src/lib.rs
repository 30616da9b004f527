//! A guided tour of ownership, borrowing, lifetimes, mutability, error
//! handling and type composition. Each stop is a small routine that works on
//! fixed values. All of it is verified: no stop can panic, and the helpers
//! that the stops call return what their contracts say.

use vstd::prelude::*;

pub mod associated_functions;
pub mod enums;
pub mod errors;
pub mod lifetimes;
pub mod mutability;
pub mod ownership;
pub mod references;
pub mod structs;
pub mod text_order;
pub mod traits;

verus! {

/// The text that [`documentation`] hands out, as a sequence of characters.
pub open spec fn documentation_text() -> Seq<char> {
    "You bet"@
}

/// The text is seven characters long and reads `You bet`.
pub proof fn documentation_text_spelled()
    ensures
        documentation_text() == seq!['Y', 'o', 'u', ' ', 'b', 'e', 't'],
{
    reveal_strlit("You bet");
    assert(documentation_text() =~= seq!['Y', 'o', 'u', ' ', 'b', 'e', 't']);
}

/// Returns a fresh `String` that holds exactly the text `You bet`, on every
/// call.
pub fn documentation() -> (text: String)
    ensures
        text@ == documentation_text(),
{
    "You bet".to_string()
}

/// Makes every stop of the tour once, in order. There is nothing to require
/// and nothing to return: each stop runs to its end on the values it fixes
/// for itself.
pub fn tour() {
    ownership::ownership();
    references::references();
    lifetimes::lifetimes();
    lifetimes::lifetimes_structs();
    mutability::mutability();
    errors::errors();
    structs::structs();
    associated_functions::associated_functions();
    enums::enums();
    traits::traits();
}

} // verus!
