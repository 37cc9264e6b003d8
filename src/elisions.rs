use crate::slices::is_first_word;
use vstd::prelude::*;

verus! {

/// Returns the first word of `s`, with the lifetime that ties the result to
/// `s` written out.
pub fn first_word1<'a>(s: &'a str) -> (r: &'a str)
    ensures
        is_first_word(s@, r@),
{
    crate::slices::first_word(s)
}

/// Returns the first word of `s`, with the lifetime left to elision.
pub fn first_word(s: &str) -> (r: &str)
    ensures
        is_first_word(s@, r@),
{
    crate::slices::first_word(s)
}

} // verus!
