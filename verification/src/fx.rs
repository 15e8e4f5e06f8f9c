//! Signed 64-bit fixed-point scalars.
//!
//! A real number `x` is represented by the integer nearest to `x * FX_ONE`.
//! Multiplication and division truncate toward zero, like Rust's integer
//! division; every executable operation is specified exactly by a spec
//! function over mathematical integers.

use vstd::arithmetic::div_mod::{
    lemma_div_is_ordered, lemma_div_is_ordered_by_denominator, lemma_div_multiples_vanish,
    lemma_div_nonincreasing, lemma_div_pos_is_pos,
};
use vstd::prelude::*;

verus! {

/// The fixed-point unit: the representation of 1.0 (2^20).
pub const FX_ONE: i64 = 1048576;

/// The representation of 0.5.
pub const FX_HALF: i64 = 524288;

/// The representable value nearest to pi.
pub const FX_PI: i64 = 3294199;

/// A full turn, exactly twice `FX_PI`, so that wrapping an angle by a full
/// turn is exact arithmetic on representations.
pub const FX_TAU: i64 = 6588398;

/// Half of `FX_PI`, the pole threshold for the camera's pitch.
pub const FX_HALF_PI: i64 = 1647099;

/// Largest operand magnitude admitted by [`fx_mul`] (2^41): products of two
/// such operands stay far inside `i128`, and the scaled result inside `i64`.
pub const FX_MUL_BOUND: i64 = 2199023255552;

/// Absolute value of a mathematical integer.
pub open spec fn fx_abs(a: int) -> int {
    if a < 0 {
        -a
    } else {
        a
    }
}

/// Division truncating toward zero (the semantics of Rust's `/` on signed
/// integers), expressed with Euclidean division on `int`.
pub open spec fn div_trunc(a: int, b: int) -> int
    recommends
        b > 0,
{
    if a >= 0 {
        a / b
    } else {
        -((-a) / b)
    }
}

/// What [`fx_mul`] returns: the product, rescaled, truncated toward zero.
pub open spec fn fx_mul_spec(a: int, b: int) -> int {
    div_trunc(a * b, FX_ONE as int)
}

/// What [`fx_div`] returns: the quotient, rescaled, truncated toward zero.
pub open spec fn fx_div_spec(a: int, b: int) -> int
    recommends
        b > 0,
{
    div_trunc(a * FX_ONE, b)
}

/// Clamping an integer into `[lo, hi]`.
pub open spec fn clamp_spec(v: int, lo: int, hi: int) -> int
    recommends
        lo <= hi,
{
    if v < lo {
        lo
    } else if v > hi {
        hi
    } else {
        v
    }
}

/// Truncating division shrinks magnitudes: `|a| <= m` gives
/// `|div_trunc(a, b)| <= m / b`.
pub proof fn lemma_div_trunc_bound(a: int, m: int, b: int)
    requires
        b > 0,
        0 <= m,
        fx_abs(a) <= m,
    ensures
        fx_abs(div_trunc(a, b)) <= m / b,
{
    if a >= 0 {
        lemma_div_pos_is_pos(a, b);
        lemma_div_is_ordered(a, m, b);
    } else {
        lemma_div_pos_is_pos(-a, b);
        lemma_div_is_ordered(-a, m, b);
    }
}

/// The product of bounded factors is bounded: `|a| <= x` and `|b| <= y`
/// give `|a * b| <= x * y`.
pub proof fn lemma_abs_mul_bound(a: int, b: int, x: int, y: int)
    requires
        fx_abs(a) <= x,
        fx_abs(b) <= y,
    ensures
        fx_abs(a * b) <= x * y,
{
    assert(fx_abs(a * b) <= x * y) by (nonlinear_arith)
        requires
            fx_abs(a) <= x,
            fx_abs(b) <= y,
    ;
}

/// Magnitude bound for a fixed-point product from bounds on its operands.
pub proof fn lemma_fx_mul_spec_bound(a: int, b: int, x: int, y: int)
    requires
        fx_abs(a) <= x,
        fx_abs(b) <= y,
    ensures
        fx_abs(fx_mul_spec(a, b)) <= (x * y) / (FX_ONE as int),
{
    lemma_abs_mul_bound(a, b, x, y);
    lemma_div_trunc_bound(a * b, x * y, FX_ONE as int);
}

/// Truncating division leaves a remainder smaller than the divisor.
pub proof fn lemma_div_trunc_rem(a: int, b: int)
    requires
        b > 0,
    ensures
        fx_abs(a - div_trunc(a, b) * b) < b,
{
    if a >= 0 {
        vstd::arithmetic::div_mod::lemma_fundamental_div_mod(a, b);
        vstd::arithmetic::div_mod::lemma_mod_bound(a, b);
        assert(b * (a / b) == (a / b) * b) by (nonlinear_arith);
    } else {
        vstd::arithmetic::div_mod::lemma_fundamental_div_mod(-a, b);
        vstd::arithmetic::div_mod::lemma_mod_bound(-a, b);
        assert(b * ((-a) / b) == ((-a) / b) * b) by (nonlinear_arith);
        assert((-((-a) / b)) * b == -(((-a) / b) * b)) by (nonlinear_arith);
    }
}

/// A fixed-point product with a zero factor vanishes.
pub proof fn lemma_fx_mul_zero(b: int)
    ensures
        fx_mul_spec(0, b) == 0,
        fx_mul_spec(b, 0) == 0,
{
    assert(0 * b == 0) by (nonlinear_arith);
    assert(b * 0 == 0) by (nonlinear_arith);
    lemma_div_pos_is_pos(0, FX_ONE as int);
    lemma_div_nonincreasing(0, FX_ONE as int);
}

/// Fixed-point multiplication: `(a * b) / FX_ONE`, truncated toward zero.
pub fn fx_mul(a: i64, b: i64) -> (r: i64)
    requires
        fx_abs(a as int) <= FX_MUL_BOUND,
        fx_abs(b as int) <= FX_MUL_BOUND,
    ensures
        r == fx_mul_spec(a as int, b as int),
{
    proof {
        lemma_abs_mul_bound(a as int, b as int, FX_MUL_BOUND as int, FX_MUL_BOUND as int);
        lemma_div_trunc_bound(
            a as int * b as int,
            FX_MUL_BOUND as int * FX_MUL_BOUND as int,
            FX_ONE as int,
        );
        lemma_div_is_ordered_by_denominator(
            FX_MUL_BOUND as int * FX_MUL_BOUND as int,
            1int,
            FX_ONE as int,
        );
    }
    let p: i128 = (a as i128) * (b as i128);
    let q: i128 = p / (FX_ONE as i128);
    q as i64
}

/// Fixed-point division by a positive divisor: `(a * FX_ONE) / b`, truncated
/// toward zero.
pub fn fx_div(a: i64, b: i64) -> (r: i64)
    requires
        fx_abs(a as int) <= FX_MUL_BOUND,
        0 < b,
    ensures
        r == fx_div_spec(a as int, b as int),
{
    proof {
        lemma_abs_mul_bound(a as int, FX_ONE as int, FX_MUL_BOUND as int, FX_ONE as int);
        lemma_div_trunc_bound(
            a as int * FX_ONE as int,
            FX_MUL_BOUND as int * FX_ONE as int,
            b as int,
        );
        lemma_div_nonincreasing(FX_MUL_BOUND as int * FX_ONE as int, b as int);
    }
    let p: i128 = (a as i128) * (FX_ONE as i128);
    let q: i128 = p / (b as i128);
    q as i64
}

/// Clamp `v` into `[lo, hi]`.
pub fn fx_clamp(v: i64, lo: i64, hi: i64) -> (r: i64)
    requires
        lo <= hi,
    ensures
        r == clamp_spec(v as int, lo as int, hi as int),
{
    if v < lo {
        lo
    } else if v > hi {
        hi
    } else {
        v
    }
}

/// Add two scalars and clamp the exact sum into `[lo, hi]`; the sum is formed
/// in 128 bits, so it never overflows before the clamp.
pub fn fx_add_clamped(a: i64, b: i64, lo: i64, hi: i64) -> (r: i64)
    requires
        lo <= hi,
    ensures
        r == clamp_spec(a as int + b as int, lo as int, hi as int),
{
    let s: i128 = (a as i128) + (b as i128);
    if s < lo as i128 {
        lo
    } else if s > hi as i128 {
        hi
    } else {
        s as i64
    }
}

} // verus!
