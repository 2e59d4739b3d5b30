//! Products of a 128-bit and a 64-bit integer, held in two words.

use vstd::prelude::*;

verus! {

/// 2^64.
pub const WORD: u128 = 0x1_0000_0000_0000_0000;

/// The value of a two-word number `hi * 2^64 + lo`.
pub open spec fn wide_value(hi: u128, lo: u64) -> int {
    hi * (WORD as int) + lo
}

/// Any product of two 64-bit values fits in 128 bits.
pub proof fn lemma_u64_product_fits(a: u64, b: u64)
    ensures
        0 <= a * b <= (u64::MAX as int) * (u64::MAX as int),
        (a as int) * (b as int) <= u128::MAX,
{
    assert(0 <= a * b <= (u64::MAX as int) * (u64::MAX as int)) by (nonlinear_arith)
        requires
            a <= u64::MAX,
            b <= u64::MAX,
    ;
}

/// Exact product of `x` and `y` as a two-word number.
pub fn mul_wide(x: u128, y: u64) -> (r: (u128, u64))
    ensures
        wide_value(r.0, r.1) == x * y,
{
    let xh: u128 = x / WORD;
    let xl: u128 = x % WORD;
    proof {
        lemma_u64_product_fits(xh as u64, y);
        lemma_u64_product_fits(xl as u64, y);
    }
    let p_hi: u128 = xh * (y as u128);
    let p_lo: u128 = xl * (y as u128);
    let carry: u128 = p_lo / WORD;
    let lo: u64 = (p_lo % WORD) as u64;
    let hi: u128 = p_hi + carry;
    proof {
        let w = WORD as int;
        assert(x == xh * w + xl);
        assert(p_lo == carry * w + lo);
        assert(x * y == p_hi * w + p_lo) by (nonlinear_arith)
            requires
                x == xh * w + xl,
                p_hi == xh * y,
                p_lo == xl * y,
        ;
        assert(hi * w == p_hi * w + carry * w) by (nonlinear_arith)
            requires
                hi == p_hi + carry,
        ;
    }
    (hi, lo)
}

/// Whether `a` is strictly greater than `b`, both given as two-word numbers.
pub fn wide_gt(a: (u128, u64), b: (u128, u64)) -> (r: bool)
    ensures
        r == (wide_value(a.0, a.1) > wide_value(b.0, b.1)),
{
    proof {
        let w = WORD as int;
        if a.0 > b.0 {
            assert(a.0 * w >= b.0 * w + w) by (nonlinear_arith)
                requires
                    a.0 >= b.0 + 1,
                    w > 0,
            ;
        } else if a.0 < b.0 {
            assert(b.0 * w >= a.0 * w + w) by (nonlinear_arith)
                requires
                    b.0 >= a.0 + 1,
                    w > 0,
            ;
        }
    }
    a.0 > b.0 || (a.0 == b.0 && a.1 > b.1)
}

} // verus!
