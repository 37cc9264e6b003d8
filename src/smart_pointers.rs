use vstd::prelude::*;

verus! {

/// A box that holds one value in place.
pub struct MyBox<T>(pub T);

impl<T> MyBox<T> {
    /// Puts `x` in a box.
    pub fn new(x: T) -> (r: MyBox<T>)
        ensures
            r.0 == x,
    {
        MyBox(x)
    }
}

impl<T> std::ops::Deref for MyBox<T> {
    type Target = T;

    fn deref(&self) -> (r: &T)
        ensures
            *r == self.0,
    {
        &self.0
    }
}

} // verus!
