use unicode_segmentation::UnicodeSegmentation;
use vstd::prelude::*;
use vstd::string::*;

verus! {

/// The extended grapheme clusters of a text, in order, as Unicode's text
/// segmentation rules divide it.
pub uninterp spec fn graphemes_of(s: Seq<char>) -> Seq<Seq<char>>;

/// The texts of a list of strings.
pub open spec fn texts(v: Seq<String>) -> Seq<Seq<char>> {
    v.map_values(|g: String| g@)
}

/// Relies on `UnicodeSegmentation::graphemes` with extended clusters: it hands
/// out consecutive non-empty slices of `s` from its start to its end.
#[verifier::external_body]
fn extended_graphemes(s: &str) -> (r: Vec<String>)
    ensures
        texts(r@) == graphemes_of(s@),
        texts(r@).flatten() == s@,
        forall|i: int| 0 <= i < r@.len() ==> #[trigger] r@[i]@.len() > 0,
{
    s.graphemes(true).map(|g| g.to_string()).collect()
}

/// Returns the text of `s1` followed by that of `s2`.
pub fn concat(s1: &str, s2: &str) -> (r: String)
    ensures
        r@ == s1@ + s2@,
{
    let mut r = String::from_str(s1);
    r.append(s2);
    r
}

/// Returns the extended grapheme clusters of `s`, each as a string of its own:
/// none is empty, and together, in order, they spell `s`.
pub fn graphemes(s: &str) -> (r: Vec<String>)
    ensures
        texts(r@) == graphemes_of(s@),
        texts(r@).flatten() == s@,
        forall|i: int| 0 <= i < r@.len() ==> #[trigger] r@[i]@.len() > 0,
        s@.len() == 0 ==> r@.len() == 0,
        r@.len() <= s@.len(),
{
    let r = extended_graphemes(s);
    proof {
        lemma_flatten_len_bound(texts(r@));
    }
    r
}

/// A list of non-empty texts holds no more texts than its concatenation holds
/// characters.
proof fn lemma_flatten_len_bound(v: Seq<Seq<char>>)
    requires
        forall|i: int| 0 <= i < v.len() ==> #[trigger] v[i].len() > 0,
    ensures
        v.len() <= v.flatten().len(),
    decreases v.len(),
{
    if v.len() > 0 {
        assert(v.flatten() == v.first() + v.drop_first().flatten());
        assert forall|i: int| 0 <= i < v.drop_first().len() implies #[trigger] v.drop_first()[i].len() > 0 by {
            assert(v.drop_first()[i] == v[i + 1]);
        }
        lemma_flatten_len_bound(v.drop_first());
    }
}

} // verus!
