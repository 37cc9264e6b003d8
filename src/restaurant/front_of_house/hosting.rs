use vstd::prelude::*;

verus! {

/// Adds a party to the list of those waiting for a table.
pub fn add_to_waitlist() {
}

} // verus!
