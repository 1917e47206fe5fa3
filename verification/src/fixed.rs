//! Fixed-point arithmetic shared by the motion and scroll shapers.

use vstd::prelude::*;

verus! {

/// Number of fixed-point steps that make up 1.0.
pub const UNIT: i32 = 1_000_000;

/// Direction of `v`: -1, 0 or 1.
pub open spec fn sign(v: int) -> int {
    if v > 0 {
        1
    } else if v < 0 {
        -1
    } else {
        0
    }
}

/// Absolute value of `v`.
pub open spec fn magnitude(v: int) -> int {
    if v < 0 {
        -v
    } else {
        v
    }
}

/// Quotient `num / den` rounded to the nearest integer, halves away from zero.
#[verifier::inline]
pub open spec fn round_half_away(num: int, den: int) -> int
    recommends
        den > 0,
{
    if num >= 0 {
        (2 * num + den) / (2 * den)
    } else {
        -((2 * (-num) + den) / (2 * den))
    }
}

/// Directional sign of a fixed-point value.
pub fn get_sign(value: i32) -> (s: i32)
    ensures
        s == sign(value as int),
{
    if value > 0 {
        1
    } else if value < 0 {
        -1
    } else {
        0
    }
}

/// Absolute value, widened so that every `i32` has one.
pub fn abs_value(value: i32) -> (m: i64)
    ensures
        m == magnitude(value as int),
{
    let wide: i64 = value as i64;
    if wide < 0 {
        -wide
    } else {
        wide
    }
}

/// Divides `num` by `den` and rounds to the nearest integer, halves away from zero.
pub fn round_div(num: i128, den: u128) -> (quotient: i128)
    requires
        den > 0,
        2 * magnitude(num as int) + den <= i128::MAX,
    ensures
        quotient == round_half_away(num as int, den as int),
{
    let size: u128 = if num < 0 {
        (-num) as u128
    } else {
        num as u128
    };
    let rounded: u128 = (2 * size + den) / (2 * den);
    proof {
        lemma_round_is_nearest(num as int, den as int);
        assert(rounded == magnitude(round_half_away(num as int, den as int)));
        assert(rounded <= 2 * (rounded * den)) by (nonlinear_arith)
            requires
                den >= 1,
                rounded >= 0,
        ;
    }
    if num < 0 {
        -(rounded as i128)
    } else {
        rounded as i128
    }
}

/// The rounded quotient is the integer nearest to `num / den`: it lies within half
/// a step of the exact quotient, an exact half goes to the neighbour farther from
/// zero, and the result never points the other way than `num`.
pub proof fn lemma_round_is_nearest(num: int, den: int)
    requires
        den > 0,
    ensures
        2 * magnitude(num) - den < 2 * (magnitude(round_half_away(num, den)) * den),
        2 * (magnitude(round_half_away(num, den)) * den) <= 2 * magnitude(num) + den,
        round_half_away(num, den) == sign(num) * magnitude(round_half_away(num, den)),
{
    let m = magnitude(num);
    let q = (2 * m + den) / (2 * den);
    vstd::arithmetic::div_mod::lemma_fundamental_div_mod(2 * m + den, 2 * den);
    vstd::arithmetic::div_mod::lemma_mod_bound(2 * m + den, 2 * den);
    assert((2 * den) * q == 2 * (q * den)) by (nonlinear_arith);
    assert(q >= 0) by (nonlinear_arith)
        requires
            2 * (q * den) > -den,
            den > 0,
    ;
    assert(magnitude(round_half_away(num, den)) == q);
    if m == 0 {
        assert(q == 0) by (nonlinear_arith)
            requires
                2 * (q * den) <= den,
                q >= 0,
                den > 0,
        ;
    }
}

/// Rounding is symmetric about zero.
pub proof fn lemma_round_is_odd(num: int, den: int)
    requires
        den > 0,
    ensures
        round_half_away(-num, den) == -round_half_away(num, den),
{
    if num == 0 {
        lemma_round_is_nearest(0, den);
    }
}

/// Rounding never reverses the order of two numerators over one denominator.
pub proof fn lemma_round_is_monotonic(a: int, b: int, den: int)
    requires
        den > 0,
        a <= b,
    ensures
        round_half_away(a, den) <= round_half_away(b, den),
{
    lemma_round_is_nearest(a, den);
    lemma_round_is_nearest(b, den);
    if a >= 0 {
        vstd::arithmetic::div_mod::lemma_div_is_ordered(2 * a + den, 2 * b + den, 2 * den);
    } else if b < 0 {
        vstd::arithmetic::div_mod::lemma_div_is_ordered(2 * (-b) + den, 2 * (-a) + den, 2 * den);
    }
}

} // verus!
