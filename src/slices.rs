use vstd::prelude::*;
use vstd::string::*;

verus! {

/// `w` is the first word of `s`: the part of `s` before its first space, or
/// all of `s` where it holds no space.
pub open spec fn is_first_word(s: Seq<char>, w: Seq<char>) -> bool {
    &&& w.len() <= s.len()
    &&& w == s.subrange(0, w.len() as int)
    &&& forall|i: int| 0 <= i < w.len() ==> #[trigger] w[i] != ' '
    &&& w.len() < s.len() ==> s[w.len() as int] == ' '
}

/// A text has exactly one first word.
pub proof fn lemma_first_word_unique(s: Seq<char>, w1: Seq<char>, w2: Seq<char>)
    requires
        is_first_word(s, w1),
        is_first_word(s, w2),
    ensures
        w1 == w2,
{
    if w1.len() < w2.len() {
        assert(w2[w1.len() as int] == s[w1.len() as int]);
    } else if w2.len() < w1.len() {
        assert(w1[w2.len() as int] == s[w2.len() as int]);
    }
}

/// Returns the first word of `s`, a slice of `s` that ends before its first
/// space (the whole of `s` if it holds none).
pub fn first_word(s: &str) -> (r: &str)
    ensures
        is_first_word(s@, r@),
{
    let n = s.unicode_len();
    let mut i: usize = 0;
    while i < n
        invariant
            n == s@.len(),
            i <= n,
            forall|j: int| 0 <= j < i ==> #[trigger] s@[j] != ' ',
        decreases n - i,
    {
        if s.get_char(i) == ' ' {
            return s.substring_char(0, i);
        }
        i = i + 1;
    }
    s.substring_char(0, n)
}

} // verus!
