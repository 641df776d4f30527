//! Exact integer rounding used throughout the library.
//!
//! Every fractional formula of the engine is carried out on scaled integers
//! and rounded with one policy: round to the nearest whole unit, with ties
//! toward positive infinity.  `rnd` is that policy as a mathematical
//! function; `round_div` and `round_div_wide` compute it.

use vstd::prelude::*;

verus! {

use vstd::arithmetic::div_mod::{
    lemma_div_is_ordered,
    lemma_fundamental_div_mod,
    lemma_fundamental_div_mod_converse,
    lemma_mod_bound,
};

/// `a / d` rounded to the nearest whole number, ties toward positive
/// infinity (`d > 0`).  Spec division here is Euclidean, so this is the
/// floor of `a / d + 1/2`.
pub open spec fn rnd(a: int, d: int) -> int
    recommends
        d > 0,
{
    (2 * a + d) / (2 * d)
}

/// Rounding keeps order: a larger numerator never rounds below a smaller
/// one.
pub proof fn lemma_rnd_monotone(a: int, b: int, d: int)
    requires
        a <= b,
        d > 0,
    ensures
        rnd(a, d) <= rnd(b, d),
{
    lemma_div_is_ordered(2 * a + d, 2 * b + d, 2 * d);
}

/// Restate the definition of `rnd`; with both arguments concrete the
/// right-hand side then evaluates outright.
pub proof fn lemma_rnd_unfold(a: int, d: int)
    ensures
        rnd(a, d) == (2 * a + d) / (2 * d),
{
}

/// For a negative dividend and positive divisor, the Euclidean quotient is
/// the negated rounded-up quotient of the magnitudes.
proof fn lemma_div_neg(m: int, b: int)
    requires
        m >= 1,
        b >= 1,
    ensures
        (-m) / b == -((m - 1) / b + 1),
{
    let k = m / b;
    let r = m % b;
    lemma_fundamental_div_mod(m, b);
    lemma_mod_bound(m, b);
    if r == 0 {
        assert(k >= 1) by (nonlinear_arith)
            requires
                m == b * k,
                m >= 1,
                b >= 1,
        ;
        assert(-m == (-k) * b + 0) by (nonlinear_arith)
            requires
                m == b * k,
        ;
        lemma_fundamental_div_mod_converse(-m, b, -k, 0);
        assert(m - 1 == (k - 1) * b + (b - 1)) by (nonlinear_arith)
            requires
                m == b * k,
        ;
        lemma_fundamental_div_mod_converse(m - 1, b, k - 1, b - 1);
    } else {
        assert(-m == (-(k + 1)) * b + (b - r)) by (nonlinear_arith)
            requires
                m == b * k + r,
        ;
        lemma_fundamental_div_mod_converse(-m, b, -(k + 1), b - r);
        assert(m - 1 == k * b + (r - 1)) by (nonlinear_arith)
            requires
                m == b * k + r,
        ;
        lemma_fundamental_div_mod_converse(m - 1, b, k, r - 1);
    }
}

/// Euclidean (floor) division on `i64`; Rust's `/` truncates toward zero
/// instead.
pub fn div_floor(a: i64, b: i64) -> (r: i64)
    requires
        1 <= b,
        -9_000_000_000_000_000_000 <= a <= 9_000_000_000_000_000_000,
    ensures
        r == a as int / b as int,
{
    if a >= 0 {
        a / b
    } else {
        let m = -a;
        let q = (m - 1) / b + 1;
        proof {
            lemma_div_neg(m as int, b as int);
        }
        -q
    }
}

/// `rnd(a, d)` on machine integers.
pub fn round_div(a: i64, d: i64) -> (r: i64)
    requires
        1 <= d <= 1_000_000_000,
        -4_000_000_000_000_000_000 <= a <= 4_000_000_000_000_000_000,
    ensures
        r == rnd(a as int, d as int),
{
    div_floor(2 * a + d, 2 * d)
}

/// Euclidean (floor) division on `i128`.
pub fn div_floor_wide(a: i128, b: i128) -> (r: i128)
    requires
        1 <= b,
        -160_000_000_000_000_000_000_000_000_000_000_000_000
            <= a <= 160_000_000_000_000_000_000_000_000_000_000_000_000,
    ensures
        r == a as int / b as int,
{
    if a >= 0 {
        a / b
    } else {
        let m = -a;
        let q = (m - 1) / b + 1;
        proof {
            lemma_div_neg(m as int, b as int);
        }
        -q
    }
}

/// `rnd(a, d)` on wide machine integers.
pub fn round_div_wide(a: i128, d: i128) -> (r: i128)
    requires
        1 <= d <= 1_000_000_000_000,
        -50_000_000_000_000_000_000_000_000_000_000_000_000
            <= a <= 50_000_000_000_000_000_000_000_000_000_000_000_000,
    ensures
        r == rnd(a as int, d as int),
{
    div_floor_wide(2 * a + d, 2 * d)
}

/// Product of two non-negative quantities stays within the product of their
/// bounds.
pub proof fn lemma_mul_le_le(a: int, amax: int, b: int, bmax: int)
    requires
        0 <= a <= amax,
        0 <= b <= bmax,
    ensures
        0 <= a * b <= amax * bmax,
{
    assert(0 <= a * b <= amax * bmax) by (nonlinear_arith)
        requires
            0 <= a <= amax,
            0 <= b <= bmax,
    ;
}

/// Product of a possibly negative quantity with a non-negative one, bounded
/// on both sides.
pub proof fn lemma_mul_bounds_signed(a: int, alo: int, ahi: int, b: int, bhi: int)
    requires
        alo <= a <= ahi,
        alo <= 0 <= ahi,
        0 <= b <= bhi,
    ensures
        alo * bhi <= a * b <= ahi * bhi,
{
    assert(alo * bhi <= a * b <= ahi * bhi) by (nonlinear_arith)
        requires
            alo <= a <= ahi,
            alo <= 0 <= ahi,
            0 <= b <= bhi,
    ;
}

} // verus!
