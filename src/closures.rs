use std::collections::HashMap;
use std::hash::Hash;
use vstd::multiset::Multiset;
use vstd::prelude::*;
use vstd::std_specs::hash::obeys_key_model;

verus! {

broadcast use vstd::std_specs::hash::group_hash_axioms;

/// A type whose `clone` hands back a value equal to the original.
pub open spec fn clone_is_copy<A: Clone>() -> bool {
    forall|a: A, b: A| #[trigger] vstd::pervasive::strictly_cloned(a, b) ==> a == b
}

/// What a cache over keys `K` and values `V` needs of its two types: keys that
/// hash and compare faithfully, and clones of keys and values that equal their
/// originals.
pub open spec fn memo_types<K: Clone, V: Clone>() -> bool {
    &&& obeys_key_model::<K>()
    &&& clone_is_copy::<K>()
    &&& clone_is_copy::<V>()
}

/// Memoizes a computation: the result for each distinct key is computed once
/// and handed back from the table on every later request.
#[verifier::reject_recursive_types(K)]
#[verifier::reject_recursive_types(V)]
pub struct Cacher<T, K, V> where T: Fn(K) -> V, K: Eq + Hash + Clone, V: Clone {
    calculation: T,
    values: HashMap<K, V>,
    /// The keys on which the computation has been invoked, one entry per call.
    calls: Ghost<Multiset<K>>,
}

impl<T, K, V> Cacher<T, K, V> where T: Fn(K) -> V, K: Eq + Hash + Clone, V: Clone {
    /// The entry table: each key that has been computed, with its result.
    pub closed spec fn view(&self) -> Map<K, V> {
        self.values@
    }

    /// The computation that the cache wraps.
    pub closed spec fn computation(&self) -> T {
        self.calculation
    }

    /// How many times the computation has been invoked on `k`.
    pub closed spec fn invocations(&self, k: K) -> nat {
        self.calls@.count(k)
    }

    /// Each cached value is a result of the computation on its key, and the
    /// computation has run exactly once on each cached key and never on any
    /// other.
    pub closed spec fn wf(&self) -> bool {
        &&& forall|k: K| #[trigger] self.values@.contains_key(k)
            ==> call_ensures(self.calculation, (k,), self.values@[k])
        &&& forall|k: K| #[trigger] self.calls@.count(k)
            == if self.values@.contains_key(k) { 1nat } else { 0nat }
    }

    /// What one lookup of `arg` does, taking the cache from `pre` to `post`
    /// and returning `r`: the result is one the computation gives for `arg`;
    /// a cached key returns its stored result, leaves the table as it was and
    /// does not invoke the computation; a new key invokes it once and stores
    /// its result; no other key's entry or invocation count changes.
    pub open spec fn value_step(pre: Self, post: Self, arg: K, r: V) -> bool {
        &&& post.computation() == pre.computation()
        &&& call_ensures(pre.computation(), (arg,), r)
        &&& post@ == pre@.insert(arg, r)
        &&& pre@.contains_key(arg) ==> r == pre@[arg] && post@ == pre@
        &&& pre@.contains_key(arg) ==> post.invocations(arg) == pre.invocations(arg)
        &&& !pre@.contains_key(arg) ==> post.invocations(arg) == pre.invocations(arg) + 1
        &&& post.invocations(arg) == 1
        &&& forall|k: K| k != arg ==> #[trigger] post.invocations(k) == pre.invocations(k)
    }

    /// In a well-formed cache, a key has been computed once if it is held and
    /// never otherwise.
    pub proof fn lemma_invocations_match(&self, k: K)
        requires
            self.wf(),
        ensures
            self.invocations(k) == if self@.contains_key(k) { 1nat } else { 0nat },
    {
    }

    /// Wraps `calculation` in a cache that holds no results yet.
    pub fn new(calculation: T) -> (r: Self)
        ensures
            r.wf(),
            r@ == Map::<K, V>::empty(),
            r.computation() == calculation,
            forall|k: K| r.invocations(k) == 0,
    {
        Cacher { calculation, values: HashMap::new(), calls: Ghost(Multiset::empty()) }
    }

    /// Returns the result of the computation on `arg`, computing it only if
    /// `arg` has not been seen before.
    pub fn value(&mut self, arg: K) -> (r: V)
        requires
            old(self).wf(),
            memo_types::<K, V>(),
            call_requires(old(self).computation(), (arg,)),
        ensures
            final(self).wf(),
            Self::value_step(*old(self), *final(self), arg, r),
    {
        match self.values.get(&arg) {
            Some(v) => {
                let r = v.clone();
                assert(vstd::pervasive::strictly_cloned(*v, r));
                assert(self.values@.insert(arg, r) =~= self.values@);
                r
            },
            None => {
                let key = arg.clone();
                assert(vstd::pervasive::strictly_cloned(arg, key));
                let v = (self.calculation)(key);
                let stored = v.clone();
                assert(vstd::pervasive::strictly_cloned(v, stored));
                let k2 = arg.clone();
                assert(vstd::pervasive::strictly_cloned(arg, k2));
                self.values.insert(k2, stored);
                proof {
                    self.calls@ = self.calls@.insert(arg);
                }
                v
            },
        }
    }

    /// The number of keys whose result is held.
    pub fn len(&self) -> (r: usize)
        requires
            obeys_key_model::<K>(),
        ensures
            r == self@.len(),
    {
        self.values.len()
    }

    /// Whether the result for `k` is held, so that a lookup of `k` will not
    /// invoke the computation.
    pub fn is_cached(&self, k: &K) -> (r: bool)
        requires
            obeys_key_model::<K>(),
        ensures
            r == self@.contains_key(*k),
    {
        self.values.contains_key(k)
    }
}

/// A first lookup of a key invokes the computation on it exactly once and
/// returns a result of the computation on that key.
pub proof fn lemma_first_lookup_computes<T, K, V>(
    c0: Cacher<T, K, V>,
    c1: Cacher<T, K, V>,
    k: K,
    r: V,
) where T: Fn(K) -> V, K: Eq + Hash + Clone, V: Clone
    requires
        c0.invocations(k) == 0,
        c0.wf(),
        Cacher::value_step(c0, c1, k, r),
    ensures
        c1.invocations(k) == 1,
        call_ensures(c0.computation(), (k,), r),
        c1@.contains_key(k) && c1@[k] == r,
{
    if c0@.contains_key(k) {
        assert(c0.invocations(k) == 1) by { c0.lemma_invocations_match(k); }
    }
}

/// A second lookup of a key returns the result of the first and does not
/// invoke the computation again.
pub proof fn lemma_repeat_lookup_is_cached<T, K, V>(
    c0: Cacher<T, K, V>,
    c1: Cacher<T, K, V>,
    c2: Cacher<T, K, V>,
    k: K,
    r1: V,
    r2: V,
) where T: Fn(K) -> V, K: Eq + Hash + Clone, V: Clone
    requires
        Cacher::value_step(c0, c1, k, r1),
        Cacher::value_step(c1, c2, k, r2),
    ensures
        r2 == r1,
        c2.invocations(k) == c1.invocations(k),
        c2@ == c1@,
{
    assert(c1@.contains_key(k));
}

/// A lookup of one key leaves the entry and the invocation count of every
/// other key as they were.
pub proof fn lemma_distinct_keys_independent<T, K, V>(
    c0: Cacher<T, K, V>,
    c1: Cacher<T, K, V>,
    k1: K,
    r1: V,
    k2: K,
) where T: Fn(K) -> V, K: Eq + Hash + Clone, V: Clone
    requires
        k1 != k2,
        Cacher::value_step(c0, c1, k1, r1),
    ensures
        c1@.contains_key(k2) == c0@.contains_key(k2),
        c0@.contains_key(k2) ==> c1@[k2] == c0@[k2],
        c1.invocations(k2) == c0.invocations(k2),
{
}

/// Looking up one key `n` times in a row returns the same result every time,
/// and over the whole run the computation is invoked on that key once if it
/// was not cached at the start and never if it was.
pub proof fn lemma_lookups_idempotent<T, K, V>(
    cs: Seq<Cacher<T, K, V>>,
    rs: Seq<V>,
    k: K,
) where T: Fn(K) -> V, K: Eq + Hash + Clone, V: Clone
    requires
        rs.len() >= 1,
        cs.len() == rs.len() + 1,
        forall|i: int| 0 <= i < rs.len() ==> Cacher::value_step(#[trigger] cs[i], cs[i + 1], k, rs[i]),
    ensures
        forall|i: int| 0 <= i < rs.len() ==> #[trigger] rs[i] == rs[0],
        cs.last().invocations(k) == 1,
        cs.last().invocations(k) == cs[0].invocations(k) + if cs[0]@.contains_key(k) { 0int } else { 1int },
    decreases rs.len(),
{
    if rs.len() > 1 {
        let n = rs.len() - 1;
        lemma_lookups_idempotent(cs.drop_last(), rs.drop_last(), k);
        assert(Cacher::value_step(cs[n - 1], cs[n], k, rs[n - 1]));
        assert(Cacher::value_step(cs[n], cs[n + 1], k, rs[n]));
        assert(cs.drop_last().last() == cs[n]);
        assert(forall|i: int| 0 <= i < n ==> rs.drop_last()[i] == rs[i]);
    } else {
        assert(Cacher::value_step(cs[0], cs[1], k, rs[0]));
    }
}

} // verus!

verus! {

/// Integer keys and values meet what a cache needs of its types.
pub proof fn lemma_u32_memo_types()
    ensures
        memo_types::<u32, u32>(),
{
    assert forall|a: u32, b: u32| #[trigger] vstd::pervasive::strictly_cloned(a, b) implies a == b by {
    }
}

/// The exercise plan for one day.
#[derive(Clone, Copy, Debug, PartialEq, Eq, Structural)]
pub enum Workout {
    /// Push-ups then sit-ups, each as many as the computed amount.
    Strength { pushups: u32, situps: u32 },
    /// A day off.
    Rest,
    /// A run of the computed number of minutes.
    Run { minutes: u32 },
}

/// Plans a day's workout from its intensity and a random draw. Below
/// intensity 25 it is push-ups and sit-ups, both as many as the computation
/// gives for the intensity; otherwise a draw of 3 means rest, and any other
/// draw a run of as many minutes as the computation gives. The computation
/// runs through a cache, so it is invoked at most once.
pub fn generate_workout<F: Fn(u32) -> u32>(intensity: u32, random_number: u32, expensive: F) -> (r: Workout)
    requires
        call_requires(expensive, (intensity,)),
    ensures
        match r {
            Workout::Strength { pushups, situps } => {
                &&& intensity < 25
                &&& pushups == situps
                &&& call_ensures(expensive, (intensity,), pushups)
            },
            Workout::Rest => intensity >= 25 && random_number == 3,
            Workout::Run { minutes } => {
                &&& intensity >= 25
                &&& random_number != 3
                &&& call_ensures(expensive, (intensity,), minutes)
            },
        },
{
    proof {
        lemma_u32_memo_types();
    }
    let mut cached_result = Cacher::new(expensive);
    if intensity < 25 {
        let pushups = cached_result.value(intensity);
        let situps = cached_result.value(intensity);
        Workout::Strength { pushups, situps }
    } else {
        if random_number == 3 {
            Workout::Rest
        } else {
            Workout::Run { minutes: cached_result.value(intensity) }
        }
    }
}

} // verus!
