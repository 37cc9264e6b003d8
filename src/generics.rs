use std::cmp::Ordering;
use vstd::prelude::*;
use vstd::std_specs::cmp::PartialOrdSpec;

verus! {

/// The element that a left-to-right scan keeps as the largest: it starts at
/// the first element and moves to each later one that is greater than what it
/// holds, so that among equal largest elements the first is kept.
pub open spec fn largest_of<T: PartialOrd>(s: Seq<T>) -> T
    recommends
        s.len() > 0,
    decreases s.len(),
{
    if s.len() <= 1 {
        s[0]
    } else {
        let rest = largest_of(s.drop_last());
        if greater(s.last(), rest) {
            s.last()
        } else {
            rest
        }
    }
}

/// Returns the largest element of a non-empty list: for an ordering that
/// obeys its specification, the element that `largest_of` picks; in any case
/// an element of the list.
pub fn get_largest<T: PartialOrd + Copy>(num_list: Vec<T>) -> (r: T)
    requires
        num_list.len() > 0,
    ensures
        num_list@.contains(r),
        T::obeys_partial_cmp_spec() ==> r == largest_of(num_list@),
{
    let mut largest = num_list[0];
    let mut i: usize = 1;
    assert(num_list@.subrange(0, 1).drop_last().len() == 0);
    while i < num_list.len()
        invariant
            1 <= i <= num_list.len(),
            num_list@.contains(largest),
            T::obeys_partial_cmp_spec() ==> largest == largest_of(num_list@.subrange(0, i as int)),
        decreases num_list.len() - i,
    {
        let num = num_list[i];
        proof {
            let s = num_list@.subrange(0, i as int + 1);
            assert(s.drop_last() =~= num_list@.subrange(0, i as int));
            assert(s.last() == num);
        }
        if num > largest {
            largest = num;
        }
        i = i + 1;
    }
    assert(num_list@.subrange(0, num_list.len() as int) =~= num_list@);
    largest
}

/// `a` is greater than `b` by the type's ordering.
pub open spec fn greater<T: PartialOrd>(a: T, b: T) -> bool {
    a.partial_cmp_spec(&b) == Some(Ordering::Greater)
}

/// The ordering of `T` is total, and "greater" is asymmetric and transitive.
pub open spec fn total_order<T: PartialOrd>() -> bool {
    &&& forall|a: T, b: T| #[trigger] greater(a, b) ==> !greater(b, a)
    &&& forall|a: T, b: T, c: T| #[trigger] greater(a, b) && #[trigger] greater(b, c) ==> greater(a, c)
    &&& forall|a: T| !#[trigger] greater(a, a)
}

/// Under a total ordering the element that `largest_of` picks is one of the
/// list's elements and no element of the list is greater than it.
pub proof fn lemma_largest_is_greatest<T: PartialOrd>(s: Seq<T>)
    requires
        s.len() > 0,
        total_order::<T>(),
    ensures
        s.contains(largest_of(s)),
        forall|i: int| 0 <= i < s.len() ==> !greater(#[trigger] s[i], largest_of(s)),
    decreases s.len(),
{
    if s.len() > 1 {
        let p = s.drop_last();
        lemma_largest_is_greatest(p);
        let l = largest_of(p);
        assert(p.contains(l));
        let w = choose|j: int| 0 <= j < p.len() && p[j] == l;
        assert(s[w] == l);
        let last = s.last();
        assert(p.len() == s.len() - 1);
        assert forall|i: int| 0 <= i < s.len() implies !greater(#[trigger] s[i], largest_of(s)) by {
            if i < s.len() - 1 {
                assert(s[i] == p[i]);
                assert(!greater(p[i], l));
                if greater(last, l) {
                    assert(largest_of(s) == last);
                    if greater(s[i], last) {
                        assert(greater(s[i], l));
                    }
                }
            } else {
                assert(s[i] == last);
                if !greater(last, l) {
                    assert(largest_of(s) == l);
                }
            }
        }
        assert(s[s.len() - 1] == s.last());
    } else {
        assert(s[0] == largest_of(s));
    }
}

/// Machine integers are totally ordered.
pub proof fn lemma_total_orders()
    ensures
        total_order::<i32>(),
        total_order::<u64>(),
{
}

/// A point in the plane with both coordinates of one type.
pub struct Point<T> {
    pub x: T,
    pub y: T,
}

impl<U> Point<U> {
    /// The first coordinate.
    pub fn x(&self) -> (r: &U)
        ensures
            *r == self.x,
    {
        &self.x
    }
}

} // verus!
