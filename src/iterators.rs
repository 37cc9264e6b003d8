use vstd::prelude::*;

verus! {

/// A source of items handed out one at a time, `None` once it is used up.
pub trait Iterator {
    type Item;

    fn next(&mut self) -> Option<Self::Item>;
}

} // verus!
