//! Integer arithmetic of the pool: floor division of double-width products and
//! the floor square root. Every result is stated over mathematical integers, so
//! no intermediate value wraps.

use vstd::prelude::*;

verus! {

/// `q` is the quotient of `x` by `d` rounded down.
pub open spec fn is_floor_div(x: int, d: int, q: int) -> bool {
    q * d <= x < (q + 1) * d
}

/// `r` is the square root of `n` rounded down.
pub open spec fn is_floor_sqrt(n: nat, r: nat) -> bool {
    r * r <= n < (r + 1) * (r + 1)
}

/// The square root of `n` rounded down.
pub open spec fn floor_sqrt(n: nat) -> nat {
    choose|r: nat| is_floor_sqrt(n, r)
}

/// `amount * numerator / denominator`, rounded down, where it fits in 64 bits.
pub open spec fn proportional_share(amount: u64, numerator: u64, denominator: u64) -> Option<u64> {
    if denominator == 0 || (amount as int * numerator as int) / (denominator as int) > u64::MAX {
        None
    } else {
        Some(((amount as int * numerator as int) / (denominator as int)) as u64)
    }
}

/// The quotient of a non-negative number by a positive one is its floor.
pub proof fn lemma_floor_div(x: int, d: int)
    by (nonlinear_arith)
    requires
        0 <= x,
        0 < d,
    ensures
        0 <= x / d,
        is_floor_div(x, d, x / d),
{
}

/// The product of two 64-bit numbers fits in 128 bits.
pub proof fn lemma_product_fits(a: u64, b: u64)
    by (nonlinear_arith)
    ensures
        0 <= a as int * b as int <= 0xffff_ffff_ffff_ffff * 0xffff_ffff_ffff_ffff,
        a as int * b as int <= u128::MAX,
{
}

/// Squaring is monotonic on the natural numbers.
pub proof fn lemma_square_monotonic(a: nat, b: nat)
    by (nonlinear_arith)
    requires
        a <= b,
    ensures
        a * a <= b * b,
{
}

/// At most one number is the floor square root of `n`.
pub proof fn lemma_floor_sqrt_unique(n: nat, r1: nat, r2: nat)
    requires
        is_floor_sqrt(n, r1),
        is_floor_sqrt(n, r2),
    ensures
        r1 == r2,
{
    if r1 < r2 {
        lemma_square_monotonic(r1 + 1, r2);
    } else if r2 < r1 {
        lemma_square_monotonic(r2 + 1, r1);
    }
}

/// Every natural number has a floor square root.
pub proof fn lemma_floor_sqrt_exists(n: nat)
    ensures
        is_floor_sqrt(n, floor_sqrt(n)),
    decreases n,
{
    if n == 0 {
        assert(is_floor_sqrt(0, 0)) by (nonlinear_arith);
    } else {
        lemma_floor_sqrt_exists((n - 1) as nat);
        let r = floor_sqrt((n - 1) as nat);
        if (r + 1) * (r + 1) <= n {
            assert((r + 2) * (r + 2) > (r + 1) * (r + 1)) by (nonlinear_arith);
            assert(is_floor_sqrt(n, r + 1));
        } else {
            assert(is_floor_sqrt(n, r));
        }
    }
}

/// `floor_sqrt(n)` is `r` exactly when `r * r <= n < (r + 1) * (r + 1)`.
pub proof fn lemma_floor_sqrt_is(n: nat, r: nat)
    ensures
        is_floor_sqrt(n, r) <==> floor_sqrt(n) == r,
{
    lemma_floor_sqrt_exists(n);
    if is_floor_sqrt(n, r) {
        lemma_floor_sqrt_unique(n, r, floor_sqrt(n));
    }
}

/// The square root of `n` rounded down, by bisection.
pub fn integer_sqrt(n: u128) -> (r: u64)
    ensures
        is_floor_sqrt(n as nat, r as nat),
        r as nat == floor_sqrt(n as nat),
{
    let mut lo: u128 = 0;
    let mut hi: u128 = 0x1_0000_0000_0000_0000;
    assert(0x1_0000_0000_0000_0000int * 0x1_0000_0000_0000_0000int > u128::MAX) by (nonlinear_arith);
    while hi - lo > 1
        invariant
            lo < hi <= 0x1_0000_0000_0000_0000,
            lo * lo <= n < hi * hi,
        decreases hi - lo,
    {
        let mid: u128 = lo + (hi - lo) / 2;
        assert(mid * mid <= 0xffff_ffff_ffff_ffff * 0xffff_ffff_ffff_ffff) by (nonlinear_arith)
            requires
                0 <= mid <= 0xffff_ffff_ffff_ffff,
        ;
        if mid * mid <= n {
            lo = mid;
        } else {
            hi = mid;
        }
    }
    proof {
        lemma_floor_sqrt_is(n as nat, lo as nat);
    }
    lo as u64
}

/// `amount * numerator / denominator` rounded down, with a 128-bit product.
/// `None` when the denominator is zero or the quotient exceeds 64 bits.
pub fn checked_proportional_share(amount: u64, numerator: u64, denominator: u64) -> (r: Option<u64>)
    ensures
        r == proportional_share(amount, numerator, denominator),
{
    if denominator == 0 {
        return None;
    }
    proof {
        lemma_product_fits(amount, numerator);
    }
    let product: u128 = (amount as u128) * (numerator as u128);
    let quotient: u128 = product / (denominator as u128);
    if quotient > u64::MAX as u128 {
        None
    } else {
        Some(quotient as u64)
    }
}

} // verus!
