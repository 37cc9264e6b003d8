use vstd::prelude::*;

verus! {

/// Returns a closure that adds one to its argument.
pub fn returns_closure() -> (r: impl Fn(i32) -> i32)
    ensures
        forall|x: i32| x < i32::MAX ==> #[trigger] call_requires(r, (x,)),
        forall|x: i32, y: i32| #[trigger] call_ensures(r, (x,), y) ==> y == x + 1,
{
    |x: i32| -> (y: i32)
        requires
            x < i32::MAX,
        ensures
            y == x + 1,
        { x + 1 }
}

} // verus!
