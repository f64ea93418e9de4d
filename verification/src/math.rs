use vstd::prelude::*;
use vstd::arithmetic::div_mod::{
    lemma_div_is_ordered, lemma_div_multiples_vanish, lemma_remainder_lower,
};
use vstd::arithmetic::mul::{
    lemma_mul_inequality, lemma_mul_inequality_converse, lemma_mul_is_associative,
    lemma_mul_is_commutative, lemma_mul_upper_bound,
};

verus! {

/// The exact truncated quotient `floor((a * b) / d)`, as a mathematical
/// integer. Both exchange-rate computations of the engine are instances of
/// this expression; it is meaningful only for `d > 0`.
pub open spec fn mul_div(a: u64, b: u64, d: u64) -> int {
    (a * b) / (d as int)
}

/// `floor((a * b) / d)`, computed in a 128-bit intermediate so that the
/// product of two 64-bit quantities can never silently overflow. `None`
/// exactly when `d` is zero or the quotient does not fit in 64 bits.
pub fn mul_div_floor(a: u64, b: u64, d: u64) -> (r: Option<u64>)
    ensures
        d == 0 ==> r is None,
        d > 0 ==> 0 <= mul_div(a, b, d),
        d > 0 && mul_div(a, b, d) > u64::MAX ==> r is None,
        d > 0 && mul_div(a, b, d) <= u64::MAX ==> r == Some(mul_div(a, b, d) as u64),
{
    if d == 0 {
        return None;
    }
    proof {
        lemma_mul_upper_bound(a as int, u64::MAX as int, b as int, u64::MAX as int);
    }
    let wide: u128 = (a as u128) * (b as u128);
    let q: u128 = wide / (d as u128);
    if q > u64::MAX as u128 {
        None
    } else {
        Some(q as u64)
    }
}

/// Floor division is monotone across a rational inequality: when
/// `w / z <= u / v` holds of the exact rationals (stated as the
/// cross-multiplication `w * v <= u * z`), it also holds of the floors.
pub proof fn lemma_div_frac_le(w: int, z: int, u: int, v: int)
    requires
        0 <= w,
        0 < z,
        0 <= u,
        0 < v,
        w * v <= u * z,
    ensures
        w / z <= u / v,
{
    let q = w / z;
    lemma_remainder_lower(w, z);
    assert(q * z <= w);
    lemma_mul_inequality(q * z, w, v);
    assert((q * z) * v <= w * v);
    lemma_mul_is_associative(q, z, v);
    lemma_mul_is_commutative(z, v);
    lemma_mul_is_associative(q, v, z);
    assert((q * v) * z <= u * z);
    lemma_mul_inequality_converse(q * v, u, z);
    assert(q * v <= u);
    lemma_div_is_ordered(q * v, u, v);
    lemma_mul_is_commutative(q, v);
    lemma_div_multiples_vanish(q, v);
    assert((q * v) / v == q);
}

/// The floor of a quotient, multiplied back by the divisor, does not exceed
/// the dividend: `(x / d) * d <= x`.
pub proof fn lemma_div_times_divisor_le(x: int, d: int)
    requires
        0 <= x,
        0 < d,
    ensures
        (x / d) * d <= x,
        0 <= x / d,
{
    lemma_remainder_lower(x, d);
    vstd::arithmetic::div_mod::lemma_div_pos_is_pos(x, d);
}

} // verus!
