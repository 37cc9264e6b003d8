use vstd::prelude::*;
use vstd::string::*;

verus! {

/// Returns the longer of two strings by their length in bytes, the second
/// where the lengths are equal.
pub fn longest<'a>(x: &'a str, y: &'a str) -> (r: &'a str)
    ensures
        r@ == if x.len() > y.len() { x@ } else { y@ },
{
    if x.len() > y.len() {
        x
    } else {
        y
    }
}

} // verus!
