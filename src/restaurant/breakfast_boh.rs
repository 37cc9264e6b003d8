use vstd::prelude::*;
use vstd::string::*;

verus! {

/// A breakfast: toast of the guest's choice, with the season's fruit, which
/// the kitchen picks.
pub struct Breakfast {
    pub toast: String,
    seasonal_fruit: String,
}

impl Breakfast {
    /// The toast that the guest chose.
    pub closed spec fn toast_text(&self) -> Seq<char> {
        self.toast@
    }

    /// The fruit that comes with the breakfast.
    pub closed spec fn fruit(&self) -> Seq<char> {
        self.seasonal_fruit@
    }

    /// A summer breakfast: the given toast, with peaches.
    pub fn summer(toast: &str) -> (r: Breakfast)
        ensures
            r.toast_text() == toast@,
            r.fruit() == "peaches"@,
    {
        Breakfast { toast: String::from_str(toast), seasonal_fruit: String::from_str("peaches") }
    }

    /// The fruit that comes with the breakfast.
    pub fn seasonal_fruit(&self) -> (r: &str)
        ensures
            r@ == self.fruit(),
    {
        self.seasonal_fruit.as_str()
    }
}

} // verus!
