use vstd::prelude::*;

use super::tdiv;

verus! {

// ---------------------------------------------------------------------------
// Bounds of the tiling arithmetic.
// ---------------------------------------------------------------------------

pub open spec fn magnitude(a: int) -> int {
    if a < 0 {
        -a
    } else {
        a
    }
}

/// Dividing by a positive number shrinks the magnitude.
pub proof fn lemma_tdiv_bound(a: int, b: int)
    requires
        b >= 1,
    ensures
        magnitude(tdiv(a, b)) <= magnitude(a),
{
    if a >= 0 {
        assert(a / b <= a) by (nonlinear_arith)
            requires
                a >= 0,
                b >= 1,
        ;
        assert(a / b >= 0) by (nonlinear_arith)
            requires
                a >= 0,
                b >= 1,
        ;
    } else {
        let c = -a;
        assert(c / b <= c) by (nonlinear_arith)
            requires
                c >= 0,
                b >= 1,
        ;
        assert(c / b >= 0) by (nonlinear_arith)
            requires
                c >= 0,
                b >= 1,
        ;
    }
}

/// A share of at most the whole does not exceed the whole.
pub proof fn lemma_share_bound(v: int, r: int)
    requires
        0 <= r <= 2000,
    ensures
        magnitude(tdiv(v * r, 2000)) <= magnitude(v),
{
    let p = magnitude(v) * r;
    assert(magnitude(v * r) == p) by (nonlinear_arith)
        requires
            r >= 0,
            p == magnitude(v) * r,
            magnitude(v) == if v < 0 { -v } else { v },
    ;
    assert(p / 2000 <= magnitude(v)) by (nonlinear_arith)
        requires
            magnitude(v) >= 0,
            0 <= r <= 2000,
            p == magnitude(v) * r,
    ;
    assert(p / 2000 >= 0) by (nonlinear_arith)
        requires
            p >= 0,
    ;
    if v * r >= 0 {
        assert(tdiv(v * r, 2000) == p / 2000);
    } else {
        assert(tdiv(v * r, 2000) == -(p / 2000));
    }
}

/// The offset of the `i`-th of `n` cells stays within the stack.
pub proof fn lemma_cell_offset_bound(h: int, n: int, i: int)
    requires
        n >= 1,
        0 <= i < n,
    ensures
        magnitude(tdiv(h, n) * i) <= magnitude(h),
{
    let q = magnitude(h) / n;
    assert(magnitude(tdiv(h, n)) == q);
    assert(q * n <= magnitude(h)) by (nonlinear_arith)
        requires
            n >= 1,
            magnitude(h) >= 0,
            q == magnitude(h) / n,
    ;
    assert(q * i <= q * n) by (nonlinear_arith)
        requires
            q >= 0,
            0 <= i < n,
    ;
    assert(magnitude(tdiv(h, n) * i) == q * i) by (nonlinear_arith)
        requires
            magnitude(tdiv(h, n)) == q,
            q >= 0,
            i >= 0,
            magnitude(tdiv(h, n)) == if tdiv(h, n) < 0 { -tdiv(h, n) } else { tdiv(h, n) },
            magnitude(tdiv(h, n) * i) == if tdiv(h, n) * i < 0 { -(tdiv(h, n) * i) } else { tdiv(h, n) * i },
    ;
}

/// A value below twice the modulus is reduced by at most one subtraction.
pub proof fn lemma_mod_small_sum(x: int, len: int)
    requires
        0 < len,
        0 <= x < 2 * len,
    ensures
        x % len == if x < len { x } else { x - len },
{
    if x < len {
        vstd::arithmetic::div_mod::lemma_small_mod(x as nat, len as nat);
    } else {
        vstd::arithmetic::div_mod::lemma_small_mod((x - len) as nat, len as nat);
        vstd::arithmetic::div_mod::lemma_mod_sub_multiples_vanish(x, len);
    }
}

} // verus!
