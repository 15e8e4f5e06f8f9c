//! Sine, cosine and the exponential on fixed-point scalars.
//!
//! Angles are reduced into `[-pi, pi]`, folded into the central interval
//! around zero, and evaluated by a truncated Taylor polynomial; the
//! exponential is evaluated on a quarter of its argument and squared twice.
//! Every function returns exactly the value of its spec mirror, so callers
//! reason about a single, fully determined fixed-point computation.

use crate::fx::{
    FX_HALF_PI, FX_ONE, FX_PI, FX_TAU, div_trunc, fx_abs, fx_mul, fx_mul_spec,
    lemma_div_trunc_bound, lemma_fx_mul_spec_bound,
};
use vstd::arithmetic::div_mod::{
    lemma_div_is_ordered, lemma_div_is_ordered_by_denominator, lemma_div_nonincreasing,
    lemma_div_pos_is_pos, lemma_fundamental_div_mod,
};
use vstd::prelude::*;

verus! {

/// Largest angle magnitude accepted by the trigonometric functions.
pub const ANGLE_LIMIT: i64 = 1125899906842624;

/// Bound on the magnitude of [`sin_fx`] and [`cos_fx`] results.
pub const TRIG_BOUND: i64 = 4194304;

/// Largest magnitude accepted by [`exp_fx`] (the value four).
pub const EXP_ARG_LIMIT: i64 = 4194304;

/// Bound on [`exp_fx`] results (the value eighty-one, above `e^4`).
pub const EXP_BOUND: i64 = 84934656;

/// The remainder of `x` after removing whole turns, truncated toward zero.
pub open spec fn turn_rem(x: int) -> int {
    x - div_trunc(x, FX_TAU as int) * FX_TAU
}

/// The angle congruent to `x` (modulo full turns) near zero: inside
/// `[-pi, pi]` once whole turns are removed.
pub open spec fn reduce_angle_spec(x: int) -> int {
    let rem = turn_rem(x);
    if rem > FX_PI {
        rem - FX_TAU
    } else if rem < -FX_PI {
        rem + FX_TAU
    } else {
        rem
    }
}

/// Removing whole turns leaves less than one turn, with the sign of `x`.
proof fn lemma_turn_rem_range(x: int)
    ensures
        -(FX_TAU as int) < turn_rem(x) < FX_TAU,
        x >= 0 ==> turn_rem(x) >= 0,
        x < 0 ==> turn_rem(x) <= 0,
        0 <= div_trunc(x, FX_TAU as int) * FX_TAU <= x || x < 0 && x <= div_trunc(
            x,
            FX_TAU as int,
        ) * FX_TAU <= 0,
{
    let t = FX_TAU as int;
    if x >= 0 {
        lemma_fundamental_div_mod(x, t);
        vstd::arithmetic::div_mod::lemma_mod_bound(x, t);
        lemma_div_pos_is_pos(x, t);
        assert(t * (x / t) == (x / t) * t) by (nonlinear_arith);
        assert((x / t) * t >= 0) by (nonlinear_arith)
            requires
                x / t >= 0,
                t > 0,
        ;
    } else {
        lemma_fundamental_div_mod(-x, t);
        vstd::arithmetic::div_mod::lemma_mod_bound(-x, t);
        lemma_div_pos_is_pos(-x, t);
        assert(t * ((-x) / t) == ((-x) / t) * t) by (nonlinear_arith);
        assert(((-x) / t) * t >= 0) by (nonlinear_arith)
            requires
                (-x) / t >= 0,
                t > 0,
        ;
        assert(-(((-x) / t) * t) == (-((-x) / t)) * t) by (nonlinear_arith);
    }
}

/// Reduce an angle into `[-pi, pi]` by removing whole turns.
pub fn reduce_angle(x: i64) -> (r: i64)
    requires
        fx_abs(x as int) <= ANGLE_LIMIT,
    ensures
        r == reduce_angle_spec(x as int),
        -FX_PI <= r <= FX_PI,
{
    proof {
        lemma_turn_rem_range(x as int);
    }
    let k: i64 = x / FX_TAU;
    let rem: i64 = x - k * FX_TAU;
    if rem > FX_PI {
        rem - FX_TAU
    } else if rem < -FX_PI {
        rem + FX_TAU
    } else {
        rem
    }
}

/// The sine Taylor polynomial on the central interval.
pub open spec fn sin_kernel_spec(u: int) -> int {
    let u2 = fx_mul_spec(u, u);
    let u3 = fx_mul_spec(u2, u);
    let u5 = fx_mul_spec(u3, u2);
    let u7 = fx_mul_spec(u5, u2);
    let u9 = fx_mul_spec(u7, u2);
    u - div_trunc(u3, 6) + div_trunc(u5, 120) - div_trunc(u7, 5040) + div_trunc(u9, 362880)
}

/// The cosine Taylor polynomial on the central interval.
pub open spec fn cos_kernel_spec(u: int) -> int {
    let u2 = fx_mul_spec(u, u);
    let u4 = fx_mul_spec(u2, u2);
    let u6 = fx_mul_spec(u4, u2);
    let u8 = fx_mul_spec(u6, u2);
    FX_ONE - div_trunc(u2, 2) + div_trunc(u4, 24) - div_trunc(u6, 720) + div_trunc(u8, 40320)
}

/// Bounds for the powers of a kernel argument.
proof fn lemma_kernel_power_bounds(u: int)
    requires
        fx_abs(u) <= 2097152,
    ensures
        fx_abs(fx_mul_spec(u, u)) <= 4194304,
        fx_abs(fx_mul_spec(fx_mul_spec(u, u), u)) <= 8388608,
        fx_abs(fx_mul_spec(fx_mul_spec(u, u), fx_mul_spec(u, u))) <= 16777216,
        fx_abs(fx_mul_spec(fx_mul_spec(fx_mul_spec(u, u), u), fx_mul_spec(u, u))) <= 33554432,
        fx_abs(
            fx_mul_spec(fx_mul_spec(fx_mul_spec(u, u), fx_mul_spec(u, u)), fx_mul_spec(u, u)),
        ) <= 67108864,
        fx_abs(
            fx_mul_spec(
                fx_mul_spec(fx_mul_spec(fx_mul_spec(u, u), u), fx_mul_spec(u, u)),
                fx_mul_spec(u, u),
            ),
        ) <= 134217728,
        fx_abs(
            fx_mul_spec(
                fx_mul_spec(fx_mul_spec(fx_mul_spec(u, u), fx_mul_spec(u, u)), fx_mul_spec(u, u)),
                fx_mul_spec(u, u),
            ),
        ) <= 268435456,
{
    let u2 = fx_mul_spec(u, u);
    let u3 = fx_mul_spec(u2, u);
    let u4 = fx_mul_spec(u2, u2);
    let u5 = fx_mul_spec(u3, u2);
    let u6 = fx_mul_spec(u4, u2);
    let u7 = fx_mul_spec(u5, u2);
    let u8 = fx_mul_spec(u6, u2);
    lemma_fx_mul_spec_bound(u, u, 2097152, 2097152);
    lemma_fx_mul_spec_bound(u2, u, 4194304, 2097152);
    lemma_fx_mul_spec_bound(u2, u2, 4194304, 4194304);
    lemma_fx_mul_spec_bound(u3, u2, 8388608, 4194304);
    lemma_fx_mul_spec_bound(u4, u2, 16777216, 4194304);
    lemma_fx_mul_spec_bound(u5, u2, 33554432, 4194304);
    lemma_fx_mul_spec_bound(u6, u2, 67108864, 4194304);
}

/// The sine Taylor polynomial, executable form.
fn sin_kernel(u: i64) -> (r: i64)
    requires
        fx_abs(u as int) <= 2097152,
    ensures
        r == sin_kernel_spec(u as int),
        fx_abs(r as int) <= TRIG_BOUND,
{
    proof {
        lemma_kernel_power_bounds(u as int);
        let u2 = fx_mul_spec(u as int, u as int);
        let u3 = fx_mul_spec(u2, u as int);
        let u5 = fx_mul_spec(u3, u2);
        let u7 = fx_mul_spec(u5, u2);
        let u9 = fx_mul_spec(u7, u2);
        lemma_fx_mul_spec_bound(u7, u2, 134217728, 4194304);
        lemma_div_trunc_bound(u3, 8388608, 6);
        lemma_div_trunc_bound(u5, 33554432, 120);
        lemma_div_trunc_bound(u7, 134217728, 5040);
        lemma_div_trunc_bound(u9, 536870912, 362880);
    }
    let u2: i64 = fx_mul(u, u);
    let u3: i64 = fx_mul(u2, u);
    let u5: i64 = fx_mul(u3, u2);
    let u7: i64 = fx_mul(u5, u2);
    let u9: i64 = fx_mul(u7, u2);
    u - u3 / 6 + u5 / 120 - u7 / 5040 + u9 / 362880
}

/// The cosine Taylor polynomial, executable form.
fn cos_kernel(u: i64) -> (r: i64)
    requires
        fx_abs(u as int) <= 2097152,
    ensures
        r == cos_kernel_spec(u as int),
        fx_abs(r as int) <= TRIG_BOUND,
{
    proof {
        lemma_kernel_power_bounds(u as int);
        let u2 = fx_mul_spec(u as int, u as int);
        let u4 = fx_mul_spec(u2, u2);
        let u6 = fx_mul_spec(u4, u2);
        let u8 = fx_mul_spec(u6, u2);
        lemma_div_trunc_bound(u2, 4194304, 2);
        lemma_div_trunc_bound(u4, 16777216, 24);
        lemma_div_trunc_bound(u6, 67108864, 720);
        lemma_div_trunc_bound(u8, 268435456, 40320);
    }
    let u2: i64 = fx_mul(u, u);
    let u4: i64 = fx_mul(u2, u2);
    let u6: i64 = fx_mul(u4, u2);
    let u8: i64 = fx_mul(u6, u2);
    FX_ONE - u2 / 2 + u4 / 24 - u6 / 720 + u8 / 40320
}

/// The sine of an angle: the reduced angle is folded into the central
/// interval (where the sine is unchanged) and fed to the kernel.
pub open spec fn sin_spec(x: int) -> int {
    let t = reduce_angle_spec(x);
    if t > FX_HALF_PI {
        sin_kernel_spec(FX_PI - t)
    } else if t < -(FX_HALF_PI as int) {
        sin_kernel_spec(-(FX_PI as int) - t)
    } else {
        sin_kernel_spec(t)
    }
}

/// The cosine of an angle: outside the central interval the angle is folded
/// and the kernel value negated.
pub open spec fn cos_spec(x: int) -> int {
    let t = reduce_angle_spec(x);
    if t > FX_HALF_PI {
        -cos_kernel_spec(FX_PI - t)
    } else if t < -(FX_HALF_PI as int) {
        -cos_kernel_spec(FX_PI + t)
    } else {
        cos_kernel_spec(t)
    }
}

/// The sine of an angle.
pub fn sin_fx(x: i64) -> (r: i64)
    requires
        fx_abs(x as int) <= ANGLE_LIMIT,
    ensures
        r == sin_spec(x as int),
        fx_abs(r as int) <= TRIG_BOUND,
{
    let t = reduce_angle(x);
    if t > FX_HALF_PI {
        sin_kernel(FX_PI - t)
    } else if t < -FX_HALF_PI {
        sin_kernel(-FX_PI - t)
    } else {
        sin_kernel(t)
    }
}

/// The cosine of an angle.
pub fn cos_fx(x: i64) -> (r: i64)
    requires
        fx_abs(x as int) <= ANGLE_LIMIT,
    ensures
        r == cos_spec(x as int),
        fx_abs(r as int) <= TRIG_BOUND,
{
    let t = reduce_angle(x);
    if t > FX_HALF_PI {
        -cos_kernel(FX_PI - t)
    } else if t < -FX_HALF_PI {
        -cos_kernel(FX_PI + t)
    } else {
        cos_kernel(t)
    }
}

/// The exponential Taylor polynomial of a quarter argument, then squared
/// twice: `exp(x) = exp(x/4)^4`.
pub open spec fn exp_pos_spec(x: int) -> int {
    let y = div_trunc(x, 4);
    let y2 = fx_mul_spec(y, y);
    let y3 = fx_mul_spec(y2, y);
    let y4 = fx_mul_spec(y3, y);
    let y5 = fx_mul_spec(y4, y);
    let y6 = fx_mul_spec(y5, y);
    let y7 = fx_mul_spec(y6, y);
    let y8 = fx_mul_spec(y7, y);
    let p = FX_ONE + y + div_trunc(y2, 2) + div_trunc(y3, 6) + div_trunc(y4, 24) + div_trunc(
        y5,
        120,
    ) + div_trunc(y6, 720) + div_trunc(y7, 5040) + div_trunc(y8, 40320);
    let e2 = fx_mul_spec(p, p);
    fx_mul_spec(e2, e2)
}

/// The exponential: directly for a nonnegative argument, by the reciprocal
/// for a negative one.
pub open spec fn exp_spec(x: int) -> int {
    if x >= 0 {
        exp_pos_spec(x)
    } else {
        div_trunc(FX_ONE as int * FX_ONE, exp_pos_spec(-x))
    }
}

/// A fixed-point product of two values in `[0, 1]` stays in `[0, 1]`.
proof fn lemma_fx_mul_unit_interval(a: int, b: int)
    requires
        0 <= a <= FX_ONE,
        0 <= b <= FX_ONE,
    ensures
        0 <= fx_mul_spec(a, b) <= FX_ONE,
{
    let s = FX_ONE as int;
    assert(0 <= a * b <= s * s) by (nonlinear_arith)
        requires
            0 <= a <= s,
            0 <= b <= s,
    ;
    lemma_div_pos_is_pos(a * b, s);
    lemma_div_is_ordered(a * b, s * s, s);
    vstd::arithmetic::div_mod::lemma_div_multiples_vanish(s, s);
}

/// A fixed-point product of two values at least one is at least one.
proof fn lemma_fx_mul_at_least_one(a: int, b: int)
    requires
        FX_ONE <= a,
        FX_ONE <= b,
    ensures
        FX_ONE <= fx_mul_spec(a, b),
{
    let s = FX_ONE as int;
    assert(s * s <= a * b) by (nonlinear_arith)
        requires
            s <= a,
            s <= b,
            s > 0,
    ;
    lemma_div_pos_is_pos(a * b, s);
    lemma_div_is_ordered(s * s, a * b, s);
    vstd::arithmetic::div_mod::lemma_div_multiples_vanish(s, s);
}

/// The exponential of a nonnegative argument up to four, executable form.
fn exp_pos(x: i64) -> (r: i64)
    requires
        0 <= x <= EXP_ARG_LIMIT,
    ensures
        r == exp_pos_spec(x as int),
        FX_ONE <= r <= EXP_BOUND,
{
    let y: i64 = x / 4;
    proof {
        lemma_div_pos_is_pos(x as int, 4);
        lemma_div_is_ordered(x as int, EXP_ARG_LIMIT as int, 4);
    }
    let y2: i64 = fx_mul(y, y);
    proof {
        lemma_fx_mul_unit_interval(y as int, y as int);
    }
    let y3: i64 = fx_mul(y2, y);
    proof {
        lemma_fx_mul_unit_interval(y2 as int, y as int);
    }
    let y4: i64 = fx_mul(y3, y);
    proof {
        lemma_fx_mul_unit_interval(y3 as int, y as int);
    }
    let y5: i64 = fx_mul(y4, y);
    proof {
        lemma_fx_mul_unit_interval(y4 as int, y as int);
    }
    let y6: i64 = fx_mul(y5, y);
    proof {
        lemma_fx_mul_unit_interval(y5 as int, y as int);
    }
    let y7: i64 = fx_mul(y6, y);
    proof {
        lemma_fx_mul_unit_interval(y6 as int, y as int);
    }
    let y8: i64 = fx_mul(y7, y);
    proof {
        lemma_fx_mul_unit_interval(y7 as int, y as int);
        lemma_div_trunc_bound(y2 as int, FX_ONE as int, 2);
        lemma_div_pos_is_pos(y2 as int, 2);
        lemma_div_trunc_bound(y3 as int, FX_ONE as int, 6);
        lemma_div_pos_is_pos(y3 as int, 6);
        lemma_div_trunc_bound(y4 as int, FX_ONE as int, 24);
        lemma_div_pos_is_pos(y4 as int, 24);
        lemma_div_trunc_bound(y5 as int, FX_ONE as int, 120);
        lemma_div_pos_is_pos(y5 as int, 120);
        lemma_div_trunc_bound(y6 as int, FX_ONE as int, 720);
        lemma_div_pos_is_pos(y6 as int, 720);
        lemma_div_trunc_bound(y7 as int, FX_ONE as int, 5040);
        lemma_div_pos_is_pos(y7 as int, 5040);
        lemma_div_trunc_bound(y8 as int, FX_ONE as int, 40320);
        lemma_div_pos_is_pos(y8 as int, 40320);
    }
    let p: i64 = FX_ONE + y + y2 / 2 + y3 / 6 + y4 / 24 + y5 / 120 + y6 / 720 + y7 / 5040 + y8
        / 40320;
    proof {
        lemma_fx_mul_at_least_one(p as int, p as int);
        lemma_fx_mul_spec_bound(p as int, p as int, 3145728, 3145728);
    }
    let e2: i64 = fx_mul(p, p);
    proof {
        lemma_fx_mul_at_least_one(e2 as int, e2 as int);
        lemma_fx_mul_spec_bound(e2 as int, e2 as int, 9437184, 9437184);
    }
    fx_mul(e2, e2)
}

/// The exponential of an argument of magnitude at most four.
pub fn exp_fx(x: i64) -> (r: i64)
    requires
        fx_abs(x as int) <= EXP_ARG_LIMIT,
    ensures
        r == exp_spec(x as int),
        0 < r <= EXP_BOUND,
        x >= 0 ==> FX_ONE <= r,
        x <= 0 ==> r <= FX_ONE,
{
    if x >= 0 {
        let e = exp_pos(x);
        proof {
            if x == 0 {
                assert(exp_pos_spec(0) <= FX_ONE) by {
                    lemma_exp_pos_spec_at_zero();
                }
            }
        }
        e
    } else {
        let e = exp_pos(-x);
        proof {
            let c = FX_ONE as int * FX_ONE;
            lemma_div_pos_is_pos(c, e as int);
            lemma_div_is_ordered_by_denominator(c, FX_ONE as int, e as int);
            vstd::arithmetic::div_mod::lemma_div_multiples_vanish(FX_ONE as int, FX_ONE as int);
            lemma_div_is_ordered_by_denominator(c, e as int, EXP_BOUND as int);
            assert(c / (EXP_BOUND as int) >= 1) by (nonlinear_arith)
                requires
                    c == 1099511627776,
            ;
        }
        (FX_ONE * FX_ONE) / e
    }
}

/// At angle zero the whole pipeline collapses: the sine is exactly zero
/// and the cosine exactly one.
pub proof fn lemma_trig_at_zero()
    ensures
        sin_spec(0) == 0,
        cos_spec(0) == FX_ONE,
{
    let t = FX_TAU as int;
    lemma_div_pos_is_pos(0, t);
    lemma_div_nonincreasing(0, t);
    assert(0 * t == 0) by (nonlinear_arith);
    assert(turn_rem(0) == 0);
    crate::fx::lemma_fx_mul_zero(0);
    lemma_div_pos_is_pos(0, 2);
    lemma_div_nonincreasing(0, 2);
    lemma_div_pos_is_pos(0, 6);
    lemma_div_nonincreasing(0, 6);
    lemma_div_pos_is_pos(0, 24);
    lemma_div_nonincreasing(0, 24);
    lemma_div_pos_is_pos(0, 120);
    lemma_div_nonincreasing(0, 120);
    lemma_div_pos_is_pos(0, 720);
    lemma_div_nonincreasing(0, 720);
    lemma_div_pos_is_pos(0, 5040);
    lemma_div_nonincreasing(0, 5040);
    lemma_div_pos_is_pos(0, 40320);
    lemma_div_nonincreasing(0, 40320);
    lemma_div_pos_is_pos(0, 362880);
    lemma_div_nonincreasing(0, 362880);
}

/// At zero the quarter-and-square evaluation collapses: every power and
/// every term past the first vanishes, leaving exactly one.
proof fn lemma_exp_pos_spec_at_zero()
    ensures
        exp_pos_spec(0) == FX_ONE,
{
    let s = FX_ONE as int;
    lemma_div_pos_is_pos(0, 4);
    lemma_div_nonincreasing(0, 4);
    crate::mesh::lemma_fx_mul_by_axis(0, 0);
    lemma_div_pos_is_pos(0, 2);
    lemma_div_nonincreasing(0, 2);
    lemma_div_pos_is_pos(0, 6);
    lemma_div_nonincreasing(0, 6);
    lemma_div_pos_is_pos(0, 24);
    lemma_div_nonincreasing(0, 24);
    lemma_div_pos_is_pos(0, 120);
    lemma_div_nonincreasing(0, 120);
    lemma_div_pos_is_pos(0, 720);
    lemma_div_nonincreasing(0, 720);
    lemma_div_pos_is_pos(0, 5040);
    lemma_div_nonincreasing(0, 5040);
    lemma_div_pos_is_pos(0, 40320);
    lemma_div_nonincreasing(0, 40320);
    crate::mesh::lemma_fx_mul_by_axis(s, s);
}

} // verus!
