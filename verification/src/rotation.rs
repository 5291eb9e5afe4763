//! Egress rotation: the shared counter and the policy that turns its value
//! into an index into the egress client pool. The policy is `counter mod
//! pool size`, so consecutive counter values cycle through the pool in index
//! order.

use vstd::prelude::*;
use vstd::arithmetic::div_mod::lemma_add_mod_noop;
use vstd::arithmetic::div_mod::lemma_mod_multiples_vanish;
use vstd::arithmetic::div_mod::lemma_small_mod;

verus! {

/// The egress index the rotation policy picks for a counter value and a pool
/// of the given size.
pub open spec fn spec_rotation_index(counter: nat, pool_len: nat) -> nat
    recommends
        pool_len > 0,
{
    counter % pool_len
}

/// Picks the egress index for one request: the counter value reduced modulo
/// the pool size.
pub fn rotation_index(counter: usize, pool_len: usize) -> (i: usize)
    requires
        pool_len > 0,
    ensures
        i == spec_rotation_index(counter as nat, pool_len as nat),
        i < pool_len,
{
    counter % pool_len
}

/// The only mutable shared state of the proxy: a monotonically increasing
/// counter, used solely as `counter mod pool size`. This is the sequential
/// model of the policy; a concurrent deployment wraps an atomic
/// fetch-and-increment around the same index computation.
pub struct RotationCounter {
    /// Number of selections made so far, wrapping at the machine limit.
    pub count: usize,
}

impl RotationCounter {
    /// A fresh counter, starting at zero.
    pub fn new() -> (c: RotationCounter)
        ensures
            c.count == 0,
    {
        RotationCounter { count: 0 }
    }

    /// Fetch-and-increment: returns the index for the current counter value
    /// and advances the counter by one (wrapping at the machine limit).
    pub fn next_index(&mut self, pool_len: usize) -> (i: usize)
        requires
            pool_len > 0,
        ensures
            i == spec_rotation_index(old(self).count as nat, pool_len as nat),
            i < pool_len,
            old(self).count < usize::MAX ==> final(self).count == old(self).count + 1,
            old(self).count == usize::MAX ==> final(self).count == 0,
    {
        let i = rotation_index(self.count, pool_len);
        if self.count == usize::MAX {
            self.count = 0;
        } else {
            self.count = self.count + 1;
        }
        i
    }
}

/// Round-robin fairness: over any window of `k` consecutive counter values,
/// no index of a pool of size `k` is picked twice — together with
/// `lemma_rotation_covers_pool`, each index is picked exactly once.
pub proof fn lemma_rotation_no_repeat(c: nat, k: nat, i: nat, j: nat)
    requires
        k > 0,
        i < k,
        j < k,
        i != j,
    ensures
        spec_rotation_index(c + i, k) != spec_rotation_index(c + j, k),
{
    if i < j {
        lemma_rotation_no_repeat_ordered(c, k, i, j);
    } else {
        lemma_rotation_no_repeat_ordered(c, k, j, i);
    }
}

proof fn lemma_rotation_no_repeat_ordered(c: nat, k: nat, i: nat, j: nat)
    requires
        k > 0,
        i < j < k,
    ensures
        spec_rotation_index(c + i, k) != spec_rotation_index(c + j, k),
{
    let ci = c as int;
    let ki = k as int;
    let d: int = j - i;
    let r: int = (ci + i) % ki;
    lemma_add_mod_noop(ci + i, d, ki);
    lemma_small_mod(d as nat, k);
    assert((ci + j) % ki == (r + d) % ki);
    if r + d < ki {
        lemma_small_mod((r + d) as nat, k);
    } else {
        lemma_mod_multiples_vanish(1, r + d - ki, ki);
        lemma_small_mod((r + d - ki) as nat, k);
    }
}

/// Round-robin order: the index picked for the next counter value is the
/// successor of the current one modulo the pool size, and after a full pool
/// of selections the cycle repeats.
pub proof fn lemma_rotation_in_index_order(c: nat, k: nat)
    requires
        k > 0,
    ensures
        spec_rotation_index(c + 1, k) == (spec_rotation_index(c, k) + 1) % k,
        spec_rotation_index(c + k, k) == spec_rotation_index(c, k),
{
    let ci = c as int;
    let ki = k as int;
    lemma_add_mod_noop(ci, 1int, ki);
    if k == 1 {
        lemma_mod_multiples_vanish(ci, 0int, 1int);
        lemma_mod_multiples_vanish(ci + 1, 0int, 1int);
        lemma_mod_multiples_vanish(ci % 1int + 1, 0int, 1int);
    } else {
        lemma_small_mod(1nat, k);
    }
    lemma_mod_multiples_vanish(1int, ci, ki);
}

/// Round-robin coverage: over any window of `k` consecutive counter values,
/// every index of a pool of size `k` is picked at least once.
pub proof fn lemma_rotation_covers_pool(c: nat, k: nat, target: nat)
    requires
        k > 0,
        target < k,
    ensures
        exists|i: nat| i < k && #[trigger] spec_rotation_index(c + i, k) == target,
{
    let ci = c as int;
    let ki = k as int;
    let r: int = ci % ki;
    vstd::arithmetic::div_mod::lemma_mod_division_less_than_divisor(ci, ki);
    lemma_small_mod(target, k);
    if target >= r {
        let i: int = target - r;
        lemma_add_mod_noop(ci, i, ki);
        lemma_small_mod(i as nat, k);
        lemma_small_mod((r + i) as nat, k);
        assert(spec_rotation_index((c + i) as nat, k) == target);
        assert(i < ki);
    } else {
        let i: int = target + ki - r;
        lemma_add_mod_noop(ci, i, ki);
        lemma_small_mod(i as nat, k);
        lemma_mod_multiples_vanish(1, target as int, ki);
        assert(spec_rotation_index((c + i) as nat, k) == target);
        assert(i < ki);
    }
}

} // verus!
