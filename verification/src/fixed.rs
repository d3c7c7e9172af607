//! Fixed-point arithmetic used throughout the crate.
//!
//! Dollar values, quotes and share counts carry two decimal places: the `i64`
//! value `100` stands for one dollar (or one share).  Percentages are in
//! basis points: `10_000` stands for 100%.  Sub-allocation fractions are
//! stated over the common denominator [`SUB_DENOM`], which keeps the split of
//! a percentage triple into per-symbol fractions exact.

use vstd::prelude::*;

verus! {

/// One whole unit (one dollar, one share) in fixed-point representation.
pub const FIXED_ONE: i64 = 100;

/// 100% in basis points.
pub const PCT_ONE: i64 = 10_000;

/// Common denominator of the per-symbol sub-allocation fractions:
/// nine times [`PCT_ONE`], since the finest split used is a ninth.
pub const SUB_DENOM: i64 = 90_000;

/// Largest magnitude a single holding value or quote may take:
/// one hundred billion dollars in cents.
pub const VALUE_LIMIT: i64 = 10_000_000_000_000;

/// Largest total value a pooled allocation may be computed over.
pub const TOTAL_LIMIT: i64 = 500_000_000_000_000;

/// Largest magnitude accepted by the elementwise vector operations.
pub const ARITH_LIMIT: i64 = 2_000_000_000_000_000;

/// Truncating division of a nonnegative product `total * num` by
/// [`SUB_DENOM`], as used to take a fraction of a pooled total.
pub fn mul_frac(total: i64, num: i64) -> (r: i64)
    requires
        0 <= total <= TOTAL_LIMIT,
        0 <= num <= SUB_DENOM,
    ensures
        r == total * num / (SUB_DENOM as int),
        0 <= r <= total,
{
    proof {
        lemma_mul_frac_bounds(total as int, num as int);
    }
    (((total as u128) * (num as u128)) / (SUB_DENOM as u128)) as i64
}

/// The quotient `total * num / SUB_DENOM` stays between zero and `total`
/// whenever `0 <= num <= SUB_DENOM`.
pub proof fn lemma_mul_frac_bounds(total: int, num: int)
    requires
        0 <= total,
        0 <= num <= SUB_DENOM,
    ensures
        0 <= total * num / (SUB_DENOM as int) <= total,
{
    let d = SUB_DENOM as int;
    vstd::arithmetic::mul::lemma_mul_inequality(num, d, total);
    assert(total * num == num * total) by (nonlinear_arith);
    assert(d * total == total * d) by (nonlinear_arith);
    assert(total * num <= total * d);
    vstd::arithmetic::div_mod::lemma_div_pos_is_pos(total * num, d);
    vstd::arithmetic::div_mod::lemma_div_is_ordered(total * num, total * d, d);
    vstd::arithmetic::div_mod::lemma_div_by_multiple(total, d);
}

/// Division of a nonnegative value by a positive divisor.
pub fn div_nonneg(v: i64, d: i64) -> (r: i64)
    requires
        0 <= v,
        1 <= d,
    ensures
        r == v as int / d as int,
        0 <= r <= v,
{
    proof {
        vstd::arithmetic::div_mod::lemma_div_pos_is_pos(v as int, d as int);
        vstd::arithmetic::div_mod::lemma_div_nonincreasing(v as int, d as int);
    }
    ((v as u64) / (d as u64)) as i64
}

/// Fixed-point division of `v` by `q`, rounding toward zero.
pub open spec fn sdiv_spec(v: int, q: int) -> int {
    if v >= 0 {
        v * FIXED_ONE / q
    } else {
        -((-v) * FIXED_ONE / q)
    }
}

/// Dividing by a quote of exactly one unit returns the value unchanged.
pub proof fn lemma_sdiv_by_one_unit(v: int)
    ensures
        sdiv_spec(v, FIXED_ONE as int) == v,
{
    if v >= 0 {
        vstd::arithmetic::div_mod::lemma_div_multiples_vanish(v, FIXED_ONE as int);
        assert(v * FIXED_ONE == FIXED_ONE * v);
    } else {
        vstd::arithmetic::div_mod::lemma_div_multiples_vanish(-v, FIXED_ONE as int);
        assert((-v) * FIXED_ONE == FIXED_ONE * (-v));
    }
}

/// Fixed-point division of a (possibly negative) value by a positive quote,
/// rounding toward zero: the number of shares `v` dollars buy at price `q`.
pub fn scaled_div(v: i64, q: i64) -> (r: i64)
    requires
        1 <= q,
        -ARITH_LIMIT * 2 <= v <= ARITH_LIMIT * 2,
    ensures
        r == sdiv_spec(v as int, q as int),
{
    if v >= 0 {
        proof {
            lemma_scaled_div_bounds(v as int, q as int);
        }
        (((v as u128) * (FIXED_ONE as u128)) / (q as u128)) as i64
    } else {
        let m = -v;
        proof {
            lemma_scaled_div_bounds(m as int, q as int);
        }
        -((((m as u128) * (FIXED_ONE as u128)) / (q as u128)) as i64)
    }
}

/// The quotient `v * FIXED_ONE / q` keeps within `v * FIXED_ONE` for a
/// positive divisor, so the share count of a bounded value fits in 64 bits.
pub proof fn lemma_scaled_div_bounds(v: int, q: int)
    requires
        0 <= v,
        1 <= q,
    ensures
        0 <= v * FIXED_ONE / q <= v * FIXED_ONE,
{
    vstd::arithmetic::mul::lemma_mul_inequality(1, q, v * FIXED_ONE);
    assert(0 <= v * FIXED_ONE) by (nonlinear_arith)
        requires 0 <= v;
    vstd::arithmetic::div_mod::lemma_div_pos_is_pos(v * FIXED_ONE, q);
    vstd::arithmetic::div_mod::lemma_div_nonincreasing(v * FIXED_ONE, q);
}

} // verus!
