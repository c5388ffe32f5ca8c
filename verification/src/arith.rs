//! Page-granular address arithmetic: rounding a size up to a page multiple and
//! aligning an address down to a page boundary, with the facts the layout and
//! recovery proofs need.

use vstd::prelude::*;

verus! {

/// The least multiple of `p` that is at least `x`.
pub open spec fn round_up(x: int, p: int) -> int {
    ((x + p - 1) / p) * p
}

/// The greatest multiple of `p` that is at most `a`.
pub open spec fn align_down(a: int, p: int) -> int {
    (a / p) * p
}

pub proof fn lemma_round_up_props(x: int, p: int)
    by (nonlinear_arith)
    requires
        0 <= x,
        0 < p,
    ensures
        x <= round_up(x, p),
        round_up(x, p) < x + p,
        round_up(x, p) % p == 0,
{
}

pub proof fn lemma_align_down_props(a: int, p: int)
    by (nonlinear_arith)
    requires
        0 <= a,
        0 < p,
    ensures
        align_down(a, p) <= a,
        a < align_down(a, p) + p,
        align_down(a, p) % p == 0,
{
}

/// Aligning down an address that sits `d` bytes past a page boundary lands
/// exactly on that boundary.
pub proof fn lemma_align_down_of_offset(base: int, d: int, p: int)
    by (nonlinear_arith)
    requires
        0 < p,
        0 <= base,
        base % p == 0,
        0 <= d < p,
    ensures
        align_down(base + d, p) == base,
{
}

/// A sum of multiples of `p` is a multiple of `p`.
pub proof fn lemma_multiple_plus_multiple(a: int, k: int, p: int)
    requires
        0 < p,
        a % p == 0,
        0 <= k,
    ensures
        (k * p + a) % p == 0,
{
    vstd::arithmetic::div_mod::lemma_mod_multiples_vanish(k, a, p);
    assert(k * p == p * k) by (nonlinear_arith);
}

/// Rounds `size` up to the next multiple of `page_size`.
pub fn page_round(size: usize, page_size: usize) -> (r: usize)
    requires
        0 < page_size,
        size + page_size - 1 <= usize::MAX,
    ensures
        r == round_up(size as int, page_size as int),
        size <= r,
        r < size + page_size,
        r as int % page_size as int == 0,
{
    let t: usize = size + (page_size - 1);
    let q: usize = t / page_size;
    proof {
        lemma_round_up_props(size as int, page_size as int);
        assert(q * page_size == round_up(size as int, page_size as int)) by (nonlinear_arith)
            requires
                q == t / page_size,
                t == size + page_size - 1,
                0 < page_size,
                0 <= size;
    }
    q * page_size
}

/// Aligns `addr` down to the enclosing multiple of `page_size`.
pub fn addr_align_down(addr: usize, page_size: usize) -> (r: usize)
    requires
        0 < page_size,
    ensures
        r == align_down(addr as int, page_size as int),
        r <= addr,
{
    let q: usize = addr / page_size;
    proof {
        lemma_align_down_props(addr as int, page_size as int);
    }
    q * page_size
}

} // verus!
