//! The shared request counter: an unsigned integer that every request handler
//! increments, with a wraparound rule at the largest representable value.
//! Atomicity across threads is the runtime's concern; the value transition of
//! each increment, and the laws that follow from it, are stated and proved
//! here.

use vstd::prelude::*;
use vstd::arithmetic::div_mod::{
    lemma_fundamental_div_mod,
    lemma_fundamental_div_mod_converse,
    lemma_small_mod,
};

verus! {

/// The stored value after one increment on `v`: the successor, except that
/// reaching the largest representable value resets the store to zero.
pub open spec fn next_count(v: nat) -> nat {
    if v + 1 == usize::MAX as nat {
        0
    } else {
        v + 1
    }
}

/// The stored value after `n` increments on a fresh counter.
pub open spec fn count_after(n: nat) -> nat
    decreases n,
{
    if n == 0 {
        0
    } else {
        next_count(count_after((n - 1) as nat))
    }
}

/// The value the `k`-th increment (counting from one) on a fresh counter
/// hands back to its caller.
pub open spec fn nth_return(k: nat) -> nat
    recommends
        k >= 1,
{
    count_after((k - 1) as nat) + 1
}

/// The process-wide request counter.  The stored value never rests at the
/// maximum: the increment that reaches it resets the store to zero in the
/// same step.
pub struct Counter {
    pub value: usize,
}

impl Counter {
    /// The counter's invariant: the store is never left at the maximum.
    pub open spec fn wf(&self) -> bool {
        (self.value as nat) < usize::MAX as nat
    }

    /// A fresh counter holding zero.
    pub fn new() -> (c: Counter)
        ensures
            c.value == 0,
            c.wf(),
    {
        Counter { value: 0 }
    }

    /// Adds one to the stored value and returns the new value.  When the new
    /// value is the largest representable one, the store is reset to zero in
    /// the same step (the returned value is still the maximum); this overflow
    /// handling is internal and never surfaced as an error.
    pub fn fetch_increment(&mut self) -> (count: usize)
        requires
            old(self).wf(),
        ensures
            count == old(self).value + 1,
            final(self).value as nat == next_count(old(self).value as nat),
            final(self).wf(),
    {
        let count = self.value + 1;
        if count == usize::MAX {
            self.value = 0;
        } else {
            self.value = count;
        }
        count
    }
}

/// Law: after `n` increments on a fresh counter the stored value is
/// `n` modulo the largest representable value.
pub proof fn lemma_count_after_mod(n: nat)
    ensures
        count_after(n) == n % (usize::MAX as nat),
    decreases n,
{
    let m = usize::MAX as nat;
    if n == 0 {
        lemma_small_mod(0, m);
    } else {
        lemma_count_after_mod((n - 1) as nat);
        lemma_fundamental_div_mod((n - 1) as int, m as int);
        let q = (n - 1) as int / m as int;
        let r = (n - 1) as int % m as int;
        if r + 1 == m as int {
            assert((q + 1) * m as int == q * m as int + m as int) by (nonlinear_arith);
            lemma_fundamental_div_mod_converse(n as int, m as int, q + 1, 0);
        } else {
            lemma_fundamental_div_mod_converse(n as int, m as int, q, r + 1);
        }
    }
}

/// Law: among the first `usize::MAX` increments on a fresh counter, the
/// `k`-th one returns `k` itself.
pub proof fn lemma_nth_return(k: nat)
    requires
        1 <= k <= usize::MAX as nat,
    ensures
        nth_return(k) == k,
{
    lemma_count_after_mod((k - 1) as nat);
    lemma_small_mod((k - 1) as nat, usize::MAX as nat);
}

/// Law: no two of the first `usize::MAX` increments on a fresh counter
/// observe the same new value.  (From the wraparound on, values repeat, so
/// the bound is as far as uniqueness can hold.)
pub proof fn lemma_returns_unique(i: nat, j: nat)
    requires
        1 <= i < j <= usize::MAX as nat,
    ensures
        nth_return(i) != nth_return(j),
{
    lemma_nth_return(i);
    lemma_nth_return(j);
}

} // verus!
