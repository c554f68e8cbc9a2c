//! A single 8-bit execution-frequency counter and its two increment policies.

use vstd::prelude::*;

verus! {

/// The value a counter holds after one "never-zero" increment: the successor
/// of `v`, except that the overflow at 255 carries back in, so the step after
/// 255 is 1, never 0.
pub open spec fn never_zero_inc(v: u8) -> u8 {
    if v == 255 {
        1
    } else {
        (v + 1) as u8
    }
}

/// The value a counter holds after one saturating increment: the successor of
/// `v`, clamped at 255.
pub open spec fn saturating_inc(v: u8) -> u8 {
    if v == 255 {
        255
    } else {
        (v + 1) as u8
    }
}

/// The value after `k` consecutive never-zero increments starting from `v`.
pub open spec fn iter_never_zero_inc(v: u8, k: nat) -> u8
    decreases k,
{
    if k == 0 {
        v
    } else {
        never_zero_inc(iter_never_zero_inc(v, (k - 1) as nat))
    }
}

/// The value after `k` consecutive saturating increments starting from `v`.
pub open spec fn iter_saturating_inc(v: u8, k: nat) -> u8
    decreases k,
{
    if k == 0 {
        v
    } else {
        saturating_inc(iter_saturating_inc(v, (k - 1) as nat))
    }
}

/// A single 8-bit counter.
///
/// A counter starts at zero, and its value is the whole of its state; the
/// only mutations are [`Counter::increment`] and
/// [`Counter::saturating_increment`]. Counter values wrap or saturate;
/// indices into a counter array never do.
pub struct Counter {
    value: u8,
}

impl View for Counter {
    type V = u8;

    closed spec fn view(&self) -> u8 {
        self.value
    }
}

impl Counter {
    /// A fresh counter, holding zero.
    pub fn new() -> (c: Counter)
        ensures
            c@ == 0,
    {
        Counter { value: 0 }
    }

    /// The current value. The external consumer reads counters straight from
    /// memory; this accessor exists so callers and tests can observe one.
    pub fn get(&self) -> (v: u8)
        ensures
            v == self@,
    {
        self.value
    }

    /// Increment this counter under the never-zero policy: the overflow at
    /// 255 is carried back in, so once a counter has been incremented it is
    /// never zero again, whatever multiple-of-256 harmonics the increment
    /// pattern has.
    pub fn increment(&mut self)
        ensures
            final(self)@ == never_zero_inc(old(self)@),
    {
        if self.value == 255 {
            self.value = 1;
        } else {
            self.value = self.value + 1;
        }
    }

    /// Increment this counter, saturating at 255.
    pub fn saturating_increment(&mut self)
        ensures
            final(self)@ == saturating_inc(old(self)@),
    {
        if self.value < 255 {
            self.value = self.value + 1;
        }
    }
}

/// The first increment of a fresh counter yields exactly 1.
pub proof fn lemma_first_increment_is_one()
    ensures
        never_zero_inc(0) == 1,
{
}

/// A single never-zero increment never yields zero, whatever value the
/// counter held before.
pub proof fn lemma_never_zero_inc_nonzero(v: u8)
    ensures
        never_zero_inc(v) != 0,
{
}

/// After at least one never-zero increment a counter is never zero, however
/// many increments follow: the never-zero policy survives the wrap at 255,
/// so a zero counter is one that was never touched.
pub proof fn lemma_increments_never_zero(v: u8, k: nat)
    requires
        k >= 1,
    ensures
        iter_never_zero_inc(v, k) != 0,
{
    assert(iter_never_zero_inc(v, k) == never_zero_inc(iter_never_zero_inc(v, (k - 1) as nat)));
    lemma_never_zero_inc_nonzero(iter_never_zero_inc(v, (k - 1) as nat));
}

/// Saturating increments never push a counter past 255, and a counter that
/// has reached 255 stays there.
pub proof fn lemma_saturating_bounded(v: u8, k: nat)
    ensures
        iter_saturating_inc(v, k) <= 255,
        v == 255 ==> iter_saturating_inc(v, k) == 255,
    decreases k,
{
    if k > 0 {
        lemma_saturating_bounded(v, (k - 1) as nat);
    }
}

} // verus!
