mod back_of_house;
mod breakfast_boh;
pub mod front_of_house;

pub use self::back_of_house::Appetizer;
pub use self::breakfast_boh::Breakfast;
pub use self::front_of_house::hosting;

use vstd::prelude::*;

verus! {

/// Brings a finished order to the table.
pub(crate) fn serve_order() {
}

/// Puts a party on the waitlist twice, once through the module's full path
/// and once through its path relative to here.
pub fn eat_at_restaurant() {
    crate::restaurant::front_of_house::hosting::add_to_waitlist();
    front_of_house::hosting::add_to_waitlist();
}

/// Orders soup as an appetizer.
pub fn eat_at_breakfast_restaurant() {
    let order1 = back_of_house::Appetizer::Soup;
}

/// Puts a party on the waitlist through the imported `hosting` module.
pub fn eat_at_restaurant_use() {
    hosting::add_to_waitlist();
}

} // verus!
