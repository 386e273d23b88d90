//! The cumulative size index: a binary indexed tree over the effective item sizes, with
//! logarithmic point update, prefix sum and offset to count lookup.
use vstd::prelude::*;
use crate::lowbit::{
    is_pow2, lemma_lsb_add_multiple, lemma_lsb_basic, lemma_lsb_between, lemma_lsb_step_up,
    lemma_pow2_lsb, lowest_bit, lsb,
};

verus! {

/// Effective size of item `i` of `s`: its size, plus `gap` unless it is the last item.
pub open spec fn eff(s: Seq<u32>, gap: u32, i: int) -> int {
    if i + 1 < s.len() {
        s[i] + gap
    } else {
        s[i] as int
    }
}

/// Sum of the first `k` effective sizes.
pub open spec fn sum_eff(s: Seq<u32>, gap: u32, k: int) -> int
    decreases k,
{
    if k <= 0 {
        0
    } else {
        sum_eff(s, gap, k - 1) + eff(s, gap, k - 1)
    }
}

/// The largest `j <= k` whose first `j` effective sizes sum to at most `t`: how many items
/// end at or before `t`.
pub open spec fn consumed(s: Seq<u32>, gap: u32, t: int, k: int) -> int
    decreases k,
{
    if k <= 0 {
        0
    } else if sum_eff(s, gap, k) <= t {
        k
    } else {
        consumed(s, gap, t, k - 1)
    }
}

/// What node `i` of the tree holds: the effective sizes of items `i - lsb(i) .. i`.
pub open spec fn node(s: Seq<u32>, gap: u32, i: int) -> int {
    sum_eff(s, gap, i) - sum_eff(s, gap, i - lsb(i))
}

pub proof fn lemma_sum_eff_nonneg(s: Seq<u32>, gap: u32, k: int)
    ensures
        sum_eff(s, gap, k) >= 0,
    decreases k,
{
    if k > 0 {
        lemma_sum_eff_nonneg(s, gap, k - 1);
    }
}

/// Sums never decrease with the count.
pub proof fn lemma_sum_eff_monotone(s: Seq<u32>, gap: u32, j: int, k: int)
    requires
        j <= k,
    ensures
        sum_eff(s, gap, j) <= sum_eff(s, gap, k),
    decreases k - j,
{
    if j < k {
        lemma_sum_eff_monotone(s, gap, j, k - 1);
    }
}

/// Each effective size is below `2^33`.
pub proof fn lemma_sum_eff_bound(s: Seq<u32>, gap: u32, k: int)
    requires
        0 <= k <= s.len(),
    ensures
        sum_eff(s, gap, k) <= k * 8589934590,
    decreases k,
{
    if k > 0 {
        lemma_sum_eff_bound(s, gap, k - 1);
    }
}

/// Sums up to `k` depend only on the first `k` sizes and the length.
pub proof fn lemma_sum_eff_agree(s: Seq<u32>, t: Seq<u32>, gap: u32, k: int)
    requires
        s.len() == t.len(),
        k <= s.len(),
        forall|i: int| 0 <= i < k ==> s[i] == t[i],
    ensures
        sum_eff(s, gap, k) == sum_eff(t, gap, k),
    decreases k,
{
    if k > 0 {
        lemma_sum_eff_agree(s, t, gap, k - 1);
    }
}

/// Replacing size `i` moves every sum past `i` by the change of that size.
pub proof fn lemma_sum_eff_update(s: Seq<u32>, gap: u32, i: int, v: u32, k: int)
    requires
        0 <= i < s.len(),
        k <= s.len(),
    ensures
        sum_eff(s.update(i, v), gap, k) == sum_eff(s, gap, k) + (if k > i { v - s[i] } else { 0 }),
    decreases k,
{
    if k > 0 {
        lemma_sum_eff_update(s, gap, i, v, k - 1);
    }
}

/// `consumed` is characterised by the boundary it stops at.
pub proof fn lemma_consumed_is(s: Seq<u32>, gap: u32, t: int, k: int, r: int)
    requires
        0 <= r <= k,
        t >= 0,
        sum_eff(s, gap, r) <= t,
        r < k ==> sum_eff(s, gap, r + 1) > t,
    ensures
        consumed(s, gap, t, k) == r,
    decreases k,
{
    if k > r {
        lemma_sum_eff_monotone(s, gap, r + 1, k);
        lemma_consumed_is(s, gap, t, k - 1, r);
    }
}

/// `consumed` is the largest count whose sum fits in `t`.
pub proof fn lemma_consumed_bounds(s: Seq<u32>, gap: u32, t: int, k: int)
    requires
        k >= 0,
        t >= 0,
    ensures
        0 <= consumed(s, gap, t, k) <= k,
        sum_eff(s, gap, consumed(s, gap, t, k)) <= t,
        consumed(s, gap, t, k) < k ==> sum_eff(s, gap, consumed(s, gap, t, k) + 1) > t,
    decreases k,
{
    if k > 0 && sum_eff(s, gap, k) > t {
        lemma_consumed_bounds(s, gap, t, k - 1);
        let c = consumed(s, gap, t, k - 1);
        if c + 1 < k {
            lemma_sum_eff_monotone(s, gap, c + 1, k - 1);
        }
    }
}

/// `consumed` grows with its target.
pub proof fn lemma_consumed_monotone(s: Seq<u32>, gap: u32, t1: int, t2: int, k: int)
    requires
        0 <= t1 <= t2,
        k >= 0,
    ensures
        consumed(s, gap, t1, k) <= consumed(s, gap, t2, k),
{
    lemma_consumed_bounds(s, gap, t1, k);
    lemma_consumed_bounds(s, gap, t2, k);
    let c1 = consumed(s, gap, t1, k);
    let c2 = consumed(s, gap, t2, k);
    if c2 < c1 {
        lemma_sum_eff_monotone(s, gap, c2 + 1, c1);
    }
}

/// A binary indexed tree: node `i` (from 1) holds `node(sizes, gap, i)`.
pub struct CumulativeSizeIndex {
    tree: Vec<u128>,
    total: u128,
    max_bit: usize,
}

impl CumulativeSizeIndex {
    /// The index is the tree over `s` under `gap`.
    pub closed spec fn matches(&self, s: Seq<u32>, gap: u32) -> bool {
        &&& self.tree@.len() == s.len() + 1
        &&& s.len() < usize::MAX
        &&& self.total == sum_eff(s, gap, s.len() as int)
        &&& forall|i: int| 1 <= i <= s.len() ==> self.tree@[i] == node(s, gap, i)
        &&& s.len() == 0 ==> self.max_bit == 0
        &&& s.len() > 0 ==> is_pow2(self.max_bit as int) && self.max_bit <= s.len() < 2 * self.max_bit
    }

    /// Builds the tree over `s` with `gap` after each item but the last.
    pub fn build(s: &Vec<u32>, gap: u32) -> (r: CumulativeSizeIndex)
        requires
            s@.len() < usize::MAX,
        ensures
            r.matches(s@, gap),
    {
        let n = s.len();
        let mut sums: Vec<u128> = Vec::new();
        sums.push(0);
        let mut k: usize = 0;
        while k < n
            invariant
                n == s@.len(),
                n < usize::MAX,
                k <= n,
                sums@.len() == k + 1,
                forall|j: int| 0 <= j <= k ==> sums@[j] == sum_eff(s@, gap, j),
            decreases n - k,
        {
            proof {
                lemma_sum_eff_bound(s@, gap, k + 1);
                assert((k + 1) * 8589934590 <= 0x1_0000_0000_0000_0000 * 8589934590) by (nonlinear_arith)
                    requires
                        k + 1 <= 0x1_0000_0000_0000_0000,
                ;
            }
            let mut e: u128 = s[k] as u128;
            if k + 1 < n {
                e = e + gap as u128;
            }
            let v = sums[k] + e;
            sums.push(v);
            k = k + 1;
        }
        let mut tree: Vec<u128> = Vec::new();
        tree.push(0);
        let mut i: usize = 1;
        while i <= n
            invariant
                n == s@.len(),
                n < usize::MAX,
                1 <= i <= n + 1,
                sums@.len() == n + 1,
                forall|j: int| 0 <= j <= n ==> sums@[j] == sum_eff(s@, gap, j),
                tree@.len() == i,
                forall|j: int| 1 <= j < i ==> tree@[j] == node(s@, gap, j),
            decreases n + 1 - i,
        {
            let l = lowest_bit(i);
            proof {
                lemma_lsb_basic(i as int);
                lemma_sum_eff_monotone(s@, gap, i - l, i as int);
            }
            tree.push(sums[i] - sums[i - l]);
            i = i + 1;
        }
        let mut max_bit: usize = 0;
        if n > 0 {
            max_bit = 1;
            while max_bit <= n / 2
                invariant
                    n > 0,
                    is_pow2(max_bit as int),
                    1 <= max_bit <= n,
                decreases n - max_bit,
            {
                proof {
                    crate::lowbit::lemma_pow2_double(max_bit as int);
                }
                max_bit = max_bit * 2;
            }
        }
        CumulativeSizeIndex { tree, total: sums[n], max_bit }
    }

    /// Brings the tree up to date after item `index` of the sizes changed: one node per
    /// level is touched.
    pub fn update(&mut self, old_sizes: Ghost<Seq<u32>>, s: &Vec<u32>, gap: u32, index: usize, old_size: u32)
        requires
            old(self).matches(old_sizes@, gap),
            old_size == old_sizes@[index as int],
            old_sizes@.len() == s@.len(),
            index < s@.len(),
            forall|i: int| 0 <= i < s@.len() && i != index ==> old_sizes@[i] == s@[i],
        ensures
            final(self).matches(s@, gap),
    {
        let ghost so = old_sizes@;
        let ghost sn = s@;
        let n = s.len();
        let j: usize = index + 1;
        let v = s[index];
        proof {
            assert(sn =~= so.update(index as int, v));
        }
        let ghost d: int = v - so[index as int];
        let cur = old_size;
        let grow = v >= cur;
        let mag: u128 = if grow { (v - cur) as u128 } else { (cur - v) as u128 };
        assert(grow ==> d == mag);
        assert(!grow ==> d == -mag);
        proof {
            lemma_sum_eff_update(so, gap, index as int, v, n as int);
            lemma_sum_eff_bound(sn, gap, n as int);
            lemma_sum_eff_nonneg(so, gap, n as int);
            assert(n * 8589934590 <= 0x1_0000_0000_0000_0000 * 8589934590) by (nonlinear_arith)
                requires
                    n <= 0x1_0000_0000_0000_0000,
            ;
        }
        proof {
            lemma_sum_eff_nonneg(sn, gap, n as int);
        }
        self.total = if grow { self.total + mag } else { self.total - mag };
        let mut i: usize = j;
        proof {
            assert forall|k: int| 1 <= k < j implies node(sn, gap, k) == node(so, gap, k) by {
                lemma_lsb_basic(k);
                lemma_sum_eff_update(so, gap, index as int, v, k);
                lemma_sum_eff_update(so, gap, index as int, v, k - lsb(k));
            }
            lemma_lsb_basic(j as int);
        }
        while i <= n
            invariant
                n == sn.len(),
                n == so.len(),
                n < usize::MAX,
                sn == so.update(index as int, v),
                self.total == sum_eff(sn, gap, n as int),
                old(self).max_bit == self.max_bit,
                index < n,
                j == index + 1,
                d == v - so[index as int],
                grow ==> d == mag,
                !grow ==> d == -mag,
                j <= i <= n + 1,
                i <= n ==> i - lsb(i as int) < j,
                self.tree@.len() == n + 1,
                forall|k: int| 1 <= k < i && k <= n ==> self.tree@[k] == node(sn, gap, k),
                forall|k: int| i <= k <= n ==> self.tree@[k] == node(so, gap, k),
            decreases n + 1 - i,
        {
            let l = lowest_bit(i);
            proof {
                lemma_lsb_basic(i as int);
                lemma_sum_eff_update(so, gap, index as int, v, i as int);
                lemma_sum_eff_update(so, gap, index as int, v, i - l);
                lemma_sum_eff_monotone(sn, gap, i - l, i as int);
                lemma_sum_eff_bound(sn, gap, i as int);
                lemma_sum_eff_nonneg(sn, gap, i - l);
                assert(i * 8589934590 <= 0x1_0000_0000_0000_0000 * 8589934590) by (nonlinear_arith)
                    requires
                        i <= 0x1_0000_0000_0000_0000,
                ;
            }
            let cur_node = self.tree[i];
            proof {
                assert(cur_node == node(so, gap, i as int));
                assert(lsb(i as int) == l);
                assert(sum_eff(sn, gap, i as int) == sum_eff(so, gap, i as int) + d);
                assert(sum_eff(sn, gap, i - l) == sum_eff(so, gap, i - l));
                assert(node(sn, gap, i as int) == cur_node + d);
            }
            let next_val = if grow { cur_node + mag } else { cur_node - mag };
            self.tree.set(i, next_val);
            let ghost next_i: int = i + l;
            proof {
                assert forall|k: int| i < k < next_i && k <= n implies node(sn, gap, k) == node(so, gap, k) by {
                    lemma_lsb_between(i as int, k);
                    lemma_lsb_basic(k);
                    lemma_sum_eff_update(so, gap, index as int, v, k);
                    lemma_sum_eff_update(so, gap, index as int, v, k - lsb(k));
                }
                lemma_lsb_step_up(i as int);
                if next_i > 0 {
                    lemma_lsb_basic(next_i);
                }
            }
            if l > n - i {
                i = n + 1;
            } else {
                i = i + l;
            }
        }
    }

    /// Sum of the first `k` effective sizes (all of them when `k` is past the end).
    pub fn prefix_sum(&self, Ghost(s): Ghost<Seq<u32>>, Ghost(gap): Ghost<u32>, k: usize) -> (r: u128)
        requires
            self.matches(s, gap),
        ensures
            k <= s.len() ==> r == sum_eff(s, gap, k as int),
            k > s.len() ==> r == sum_eff(s, gap, s.len() as int),
    {
        let n = self.tree.len() - 1;
        let k0: usize = if k <= n { k } else { n };
        let mut i: usize = k0;
        let mut sum: u128 = 0;
        proof {
            lemma_sum_eff_bound(s, gap, k0 as int);
            assert(k0 * 8589934590 <= 0x1_0000_0000_0000_0000 * 8589934590) by (nonlinear_arith)
                requires
                    k0 <= 0x1_0000_0000_0000_0000,
            ;
        }
        while i > 0
            invariant
                n == s.len(),
                self.matches(s, gap),
                k0 <= n,
                0 <= i <= k0,
                sum + sum_eff(s, gap, i as int) == sum_eff(s, gap, k0 as int),
                sum_eff(s, gap, k0 as int) <= k0 * 8589934590,
                k0 * 8589934590 <= 0x1_0000_0000_0000_0000 * 8589934590,
            decreases i,
        {
            let l = lowest_bit(i);
            proof {
                lemma_lsb_basic(i as int);
                lemma_sum_eff_nonneg(s, gap, i - l);
                lemma_sum_eff_monotone(s, gap, i - l, i as int);
                lemma_sum_eff_nonneg(s, gap, i as int);
            }
            assert(self.tree@[i as int] == node(s, gap, i as int));
            sum = sum + self.tree[i];
            i = i - l;
        }
        sum
    }

    /// Sum of all effective sizes.
    pub fn total(&self, Ghost(s): Ghost<Seq<u32>>, Ghost(gap): Ghost<u32>) -> (r: u128)
        requires
            self.matches(s, gap),
        ensures
            r == sum_eff(s, gap, s.len() as int),
    {
        self.total
    }

    /// How many items have effective sizes summing to at most `target`: a descent over the
    /// powers of two from the largest at most the count.
    pub fn lower_bound(&self, Ghost(s): Ghost<Seq<u32>>, Ghost(gap): Ghost<u32>, target: u64) -> (r: usize)
        requires
            self.matches(s, gap),
        ensures
            r == consumed(s, gap, target as int, s.len() as int),
    {
        let n = self.tree.len() - 1;
        if n == 0 {
            return 0;
        }
        let mut idx: usize = 0;
        let mut bit: usize = self.max_bit;
        let mut rem: u128 = target as u128;
        while bit != 0
            invariant
                n == s.len(),
                n > 0,
                self.matches(s, gap),
                idx <= n,
                sum_eff(s, gap, idx as int) <= target,
                rem == target - sum_eff(s, gap, idx as int),
                bit == 0 || is_pow2(bit as int),
                bit <= n,
                bit > 0 ==> (idx as int) % (2 * bit) == 0,
                ({
                    let w = if bit == 0 { 1 } else { 2 * bit };
                    idx + w > n || sum_eff(s, gap, idx + w) > target
                }),
            decreases bit,
        {
            let ghost b = bit as int;
            proof {
                let x = idx as int;
                assert(x % b == 0) by (nonlinear_arith)
                    requires
                        x % (2 * b) == 0,
                        b > 0,
                        x >= 0,
                {
                    assert(x == (2 * b) * (x / (2 * b)));
                    assert(x == b * (2 * (x / (2 * b))));
                }
                if b > 1 {
                    assert(is_pow2(b / 2));
                    assert(2 * (b / 2) == b);
                }
            }
            if bit <= n - idx {
                let next = idx + bit;
                proof {
                    if idx == 0 {
                        lemma_pow2_lsb(b);
                    } else {
                        crate::lowbit::lemma_pow2_double(b);
                        lemma_lsb_add_multiple(idx as int, b, 2 * b);
                        lemma_pow2_lsb(b);
                    }
                    assert(lsb(next as int) == b);
                    assert(self.tree@[next as int] == node(s, gap, next as int));
                    lemma_sum_eff_monotone(s, gap, idx as int, next as int);
                }
                if self.tree[next] <= rem {
                    rem = rem - self.tree[next];
                    idx = next;
                    proof {
                        let x = idx as int;
                        assert(x % b == 0) by (nonlinear_arith)
                            requires
                                (x - b) % b == 0,
                                b > 0,
                                x >= b,
                        {
                            assert(x - b == b * ((x - b) / b));
                            assert(x == b * ((x - b) / b + 1));
                        }
                    }
                }
            }
            bit = bit / 2;
        }
        proof {
            lemma_consumed_is(s, gap, target as int, n as int, idx as int);
        }
        idx
    }
}

} // verus!
