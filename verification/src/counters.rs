//! A fixed-length array of counters with bounds-checked indexing and
//! hash-routed increments.

use vstd::prelude::*;

use crate::counter::Counter;
use crate::counter::never_zero_inc;
use crate::counter::saturating_inc;

verus! {

/// The digest that `fxhash` computes for a key's bytes. It is a pure function
/// of the bytes (the hasher is unseeded), but its value is pinned only by the
/// outside crate.
pub uninterp spec fn fx_hash_of(key: Seq<u8>) -> u64;

/// The index that a key is routed to in an array of `n` counters.
pub open spec fn hash_index(key: Seq<u8>, n: nat) -> int
    recommends
        n > 0,
{
    fx_hash_of(key) as int % n as int
}

/// Relies on fxhash::hash64: an unseeded digest that depends on the key's
/// bytes alone.
#[verifier::external_body]
fn fx_hash(key: &[u8]) -> (h: u64)
    ensures
        h == fx_hash_of(key@),
{
    fxhash::hash64(key)
}

/// A collection of `n` counters, contiguous and in a fixed order, viewed as
/// the sequence of their 8-bit values.
///
/// An array always holds at least one counter: construction with length zero
/// fails, so every reachable `Counters` can be indexed and can route a hashed
/// key. Counters start at zero and change only through the increment
/// operations, each of which touches exactly one position.
pub struct Counters {
    counters: Vec<Counter>,
}

impl View for Counters {
    type V = Seq<u8>;

    closed spec fn view(&self) -> Seq<u8> {
        self.counters@.map(|i: int, c: Counter| c@)
    }
}

impl Counters {
    /// Construct `n` counters, all zero. There is no valid empty counter
    /// array — nothing could be indexed or registered — so construction
    /// fails exactly when `n` is zero.
    pub fn new(n: usize) -> (r: Option<Counters>)
        ensures
            r is Some <==> n > 0,
            r matches Some(c) ==> c@ == Seq::new(n as nat, |i: int| 0u8),
    {
        if n == 0 {
            return None;
        }
        let mut counters: Vec<Counter> = Vec::new();
        let mut i: usize = 0;
        while i < n
            invariant
                i <= n,
                counters@.len() == i,
                forall|j: int| 0 <= j < i ==> counters@[j]@ == 0,
            decreases n - i,
        {
            counters.push(Counter::new());
            i = i + 1;
        }
        let c = Counters { counters };
        proof {
            assert(c@ =~= Seq::new(n as nat, |i: int| 0u8));
        }
        Some(c)
    }

    /// How many counters the array holds.
    pub fn len(&self) -> (n: usize)
        ensures
            n == self@.len(),
    {
        self.counters.len()
    }

    /// The counter at index `i`. Each index names its own counter; an index
    /// at or past the length is a programmer error and is ruled out here, not
    /// clamped or wrapped.
    pub fn index(&self, i: usize) -> (c: &Counter)
        requires
            i < self@.len(),
        ensures
            c@ == self@[i as int],
    {
        &self.counters[i]
    }

    /// Give the counter at index `i` a never-zero increment; every other
    /// counter is untouched.
    pub fn increment_at(&mut self, i: usize)
        requires
            i < old(self)@.len(),
        ensures
            final(self)@ == old(self)@.update(i as int, never_zero_inc(old(self)@[i as int])),
    {
        let c = &mut self.counters[i];
        c.increment();
        proof {
            assert(self@ =~= old(self)@.update(i as int, never_zero_inc(old(self)@[i as int])));
        }
    }

    /// Give the counter at index `i` a saturating increment; every other
    /// counter is untouched.
    pub fn saturating_increment_at(&mut self, i: usize)
        requires
            i < old(self)@.len(),
        ensures
            final(self)@ == old(self)@.update(i as int, saturating_inc(old(self)@[i as int])),
    {
        let c = &mut self.counters[i];
        c.saturating_increment();
        proof {
            assert(self@ =~= old(self)@.update(i as int, saturating_inc(old(self)@[i as int])));
        }
    }

    /// Route `key` through the hash to one of the physical counters and give
    /// it a never-zero increment. This maps an unbounded set of logical keys
    /// onto the bounded array; distinct keys may alias the same counter, and
    /// that is accepted silently.
    pub fn hash_increment(&mut self, key: &[u8])
        requires
            old(self)@.len() > 0,
        ensures
            final(self)@ == old(self)@.update(
                hash_index(key@, old(self)@.len()),
                never_zero_inc(old(self)@[hash_index(key@, old(self)@.len())]),
            ),
    {
        let h = fx_hash(key);
        let n = self.counters.len();
        let i = (h % (n as u64)) as usize;
        self.increment_at(i);
    }

    /// The backing counters, one contiguous array in index order — the live
    /// cells themselves, not a copy, so a reader sees later increments.
    pub fn as_array(&self) -> (arr: &Vec<Counter>)
        ensures
            arr@.len() == self@.len(),
            forall|i: int| 0 <= i < arr@.len() ==> arr@[i]@ == self@[i],
    {
        &self.counters
    }
}

/// Hash routing always lands inside the array: for a nonempty array the
/// routed index is in bounds, whatever the key.
pub proof fn lemma_hash_route_in_bounds(key: Seq<u8>, n: nat)
    requires
        n > 0,
    ensures
        0 <= hash_index(key, n) < n,
{
}

/// Hash routing is deterministic: the same key against arrays of the same
/// length is always routed to the same physical counter, so repeating a key
/// repeats the counter it lands on.
pub proof fn lemma_hash_route_deterministic(k1: Seq<u8>, k2: Seq<u8>, n: nat)
    requires
        k1 == k2,
        n > 0,
    ensures
        hash_index(k1, n) == hash_index(k2, n),
{
}

} // verus!
