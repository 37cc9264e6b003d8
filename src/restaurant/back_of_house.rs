use vstd::prelude::*;

verus! {

/// Sends a wrong order back to the kitchen to be cooked again and served.
pub(crate) fn fix_incorrect_order() {
    cook_order();
    super::serve_order();
}

/// Cooks an order.
pub(crate) fn cook_order() {
}

/// The appetizers on the menu.
#[derive(Clone, Copy, Debug, PartialEq, Eq, Structural)]
pub enum Appetizer {
    Soup,
    Salad,
}

} // verus!
