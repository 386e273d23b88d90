//! The lowest set bit of a positive integer, and the facts a binary indexed tree uses.
use vstd::prelude::*;

verus! {

/// Largest power of two dividing `i` (zero for `i <= 0`).
pub open spec fn lsb(i: int) -> int
    decreases i,
{
    if i <= 0 {
        0
    } else if i % 2 == 1 {
        1
    } else {
        2 * lsb(i / 2)
    }
}

pub open spec fn is_pow2(p: int) -> bool
    decreases p,
{
    if p <= 0 {
        false
    } else if p == 1 {
        true
    } else {
        p % 2 == 0 && is_pow2(p / 2)
    }
}

/// The lowest bit of a positive number is a power of two dividing it.
pub proof fn lemma_lsb_basic(i: int)
    requires
        i > 0,
    ensures
        1 <= lsb(i) <= i,
        is_pow2(lsb(i)),
        i % lsb(i) == 0,
    decreases i,
{
    if i % 2 == 0 {
        lemma_lsb_basic(i / 2);
        let l = lsb(i / 2);
        let q = i / 2;
        assert(q % l == 0);
        assert(q == l * (q / l)) by (nonlinear_arith)
            requires
                q % l == 0,
                l >= 1,
        ;
        assert(i == 2 * q);
        assert(i == (2 * l) * (q / l)) by (nonlinear_arith)
            requires
                i == 2 * q,
                q == l * (q / l),
        ;
        assert(i % (2 * l) == 0) by (nonlinear_arith)
            requires
                i == (2 * l) * (q / l),
                l >= 1,
        ;
        assert((2 * l) / 2 == l);
    }
}

pub proof fn lemma_pow2_lsb(p: int)
    requires
        is_pow2(p),
    ensures
        lsb(p) == p,
    decreases p,
{
    if p > 1 {
        lemma_pow2_lsb(p / 2);
    }
}

pub proof fn lemma_pow2_double(p: int)
    requires
        is_pow2(p),
    ensures
        is_pow2(2 * p),
{
    assert((2 * p) / 2 == p);
}

/// Adding a multiple of a power of two above `r` leaves the lowest bit of `r`.
pub proof fn lemma_lsb_add_multiple(i: int, r: int, m: int)
    requires
        is_pow2(m),
        i >= 0,
        i % m == 0,
        0 < r < m,
    ensures
        lsb(i + r) == lsb(r),
    decreases m,
{
    let h = m / 2;
    assert(m >= 2);
    assert(m == 2 * h);
    assert(i % 2 == 0) by (nonlinear_arith)
        requires
            i % m == 0,
            m == 2 * h,
            h >= 1,
            i >= 0,
    {
        assert(i == m * (i / m));
        assert(i == 2 * (h * (i / m)));
    }
    if r % 2 == 0 {
        assert((i / 2) % h == 0) by (nonlinear_arith)
            requires
                i % m == 0,
                m == 2 * h,
                h >= 1,
                i >= 0,
        {
            assert(i == m * (i / m));
            assert(i / 2 == h * (i / m));
        }
        assert((i + r) / 2 == i / 2 + r / 2);
        lemma_lsb_add_multiple(i / 2, r / 2, h);
    }
}

/// Stepping up by the lowest bit at least doubles it.
pub proof fn lemma_lsb_step_up(i: int)
    requires
        i > 0,
    ensures
        lsb(i + lsb(i)) >= 2 * lsb(i),
    decreases i,
{
    if i % 2 == 1 {
        lemma_lsb_basic((i + 1) / 2);
    } else {
        lemma_lsb_step_up(i / 2);
        lemma_lsb_basic(i / 2);
        assert((i + lsb(i)) / 2 == i / 2 + lsb(i / 2));
    }
}

/// Between a node and the next one up, every node reaches back no further than the first.
pub proof fn lemma_lsb_between(i: int, k: int)
    requires
        i > 0,
        i < k < i + lsb(i),
    ensures
        k - lsb(k) >= i,
{
    lemma_lsb_basic(i);
    lemma_lsb_add_multiple(i, k - i, lsb(i));
    lemma_lsb_basic(k - i);
}

/// The two's-complement identity for the lowest bit, proved by halving.
proof fn lemma_lsb_bits(x: u64)
    requires
        x > 0,
    ensures
        x & ((!x) + 1) as u64 == lsb(x as int),
    decreases x,
{
    if x % 2 == 1 {
        assert(x & ((!x) + 1) as u64 == 1) by (bit_vector)
            requires
                x % 2 == 1,
        ;
    } else {
        let h: u64 = x / 2;
        assert(h > 0);
        assert(x & ((!x) + 1) as u64 == 2 * (h & ((!h) + 1) as u64)) by (bit_vector)
            requires
                x % 2 == 0,
                x != 0,
                h == x / 2,
        ;
        lemma_lsb_bits(h);
    }
}

/// `lsb` as computed: the lowest set bit, `i & -i`.
pub fn lowest_bit(i: usize) -> (r: usize)
    requires
        i > 0,
    ensures
        r == lsb(i as int),
{
    let x = i as u64;
    assert(!x < 0xffff_ffff_ffff_ffff) by (bit_vector)
        requires
            x != 0,
    ;
    let y: u64 = !x + 1;
    proof {
        lemma_lsb_bits(x);
        lemma_lsb_basic(i as int);
    }
    (x & y) as usize
}

} // verus!
