use vstd::prelude::*;
use vstd::string::*;

verus! {

/// Returns a string that it owns itself, whatever it is given.
pub fn longest(x: &str, y: &str) -> (r: String)
    ensures
        r@ == "really long string"@,
{
    let result = String::from_str("really long string");
    result
}

} // verus!
