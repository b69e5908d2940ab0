//! Fixed-point sine and cosine for the animator and the perspective
//! builder: degree-five and degree-six polynomial approximations on the
//! first quadrant, extended by quadrant symmetry and clamped to one unit,
//! so every value is pinned down exactly by the spec mirrors here.

use vstd::prelude::*;
use crate::fixed::{clamp_s, fx_clamp, fx_divi, fx_mul, fx_mul_s, iabs, tdiv, SCALE};

verus! {

/// Half turn (pi) in fixed point.
pub const PI_FX: i64 = 205887;

/// Full turn (two pi) in fixed point.
pub const TWO_PI_FX: i64 = 411775;

/// Quarter turn (pi over two) in fixed point.
pub const HALF_PI_FX: i64 = 102944;

/// The sine polynomial on the first quadrant, before clamping:
/// `x - x^3/6 + x^5/120` under fixed-point arithmetic.
pub open spec fn poly_sin_s(x: int) -> int {
    let x2 = fx_mul_s(x, x);
    let x3 = fx_mul_s(x2, x);
    let x5 = fx_mul_s(x3, x2);
    x - tdiv(x3, 6) + tdiv(x5, 120)
}

/// The cosine polynomial on the first quadrant, before clamping:
/// `1 - x^2/2 + x^4/24 - x^6/720` under fixed-point arithmetic.
pub open spec fn poly_cos_s(x: int) -> int {
    let x2 = fx_mul_s(x, x);
    let x4 = fx_mul_s(x2, x2);
    let x6 = fx_mul_s(x4, x2);
    (SCALE as int) - tdiv(x2, 2) + tdiv(x4, 24) - tdiv(x6, 720)
}

/// Sine on one full turn `[0, TWO_PI_FX)`, by quadrant symmetry.
pub open spec fn sin_turn_s(x: int) -> int {
    if x < HALF_PI_FX {
        poly_sin_s(x)
    } else if x < PI_FX {
        poly_sin_s(PI_FX - x)
    } else if x < PI_FX + HALF_PI_FX {
        -poly_sin_s(x - PI_FX)
    } else {
        -poly_sin_s(TWO_PI_FX - x)
    }
}

/// Cosine on one full turn `[0, TWO_PI_FX)`, by quadrant symmetry.
pub open spec fn cos_turn_s(x: int) -> int {
    if x < HALF_PI_FX {
        poly_cos_s(x)
    } else if x < PI_FX {
        -poly_cos_s(PI_FX - x)
    } else if x < PI_FX + HALF_PI_FX {
        -poly_cos_s(x - PI_FX)
    } else {
        poly_cos_s(TWO_PI_FX - x)
    }
}

/// The fixed-point sine of a raw angle in scaled radians: reduced to one
/// turn, extended as an odd function, clamped to one unit.
pub open spec fn sin_s(x: int) -> int {
    let t = iabs(x) % (TWO_PI_FX as int);
    let v = clamp_s(sin_turn_s(t), -(SCALE as int), SCALE as int);
    if x < 0 {
        -v
    } else {
        v
    }
}

/// The fixed-point cosine of a raw angle in scaled radians: reduced to
/// one turn, extended as an even function, clamped to one unit.
pub open spec fn cos_s(x: int) -> int {
    let t = iabs(x) % (TWO_PI_FX as int);
    clamp_s(cos_turn_s(t), -(SCALE as int), SCALE as int)
}

/// Bounds the powers of a first-quadrant angle, so the polynomial sums
/// stay far inside `i64`.
proof fn lemma_quadrant_powers(x: int)
    requires
        0 <= x <= HALF_PI_FX,
    ensures
        0 <= fx_mul_s(x, x) <= 2000000,
        iabs(fx_mul_s(fx_mul_s(x, x), x)) <= 3200000,
        iabs(fx_mul_s(fx_mul_s(fx_mul_s(x, x), x), fx_mul_s(x, x))) <= 100000000,
        iabs(fx_mul_s(fx_mul_s(x, x), fx_mul_s(x, x))) <= 62000000,
        iabs(fx_mul_s(fx_mul_s(fx_mul_s(x, x), fx_mul_s(x, x)), fx_mul_s(x, x))) <= 1900000000,
{
    let s = SCALE as int;
    let x2 = fx_mul_s(x, x);
    crate::fixed::lemma_abs_mul(x, x);
    crate::fixed::lemma_tdiv_abs(x * x, s);
    assert(x * x >= 0) by (nonlinear_arith)
        requires
            x >= 0,
    ;
    assert(x2 >= 0);
    crate::fixed::lemma_fx_mul_s_bound2(x, x, HALF_PI_FX as int, HALF_PI_FX as int);
    crate::fixed::lemma_fx_mul_s_bound2(x2, x, 2000000, HALF_PI_FX as int);
    crate::fixed::lemma_fx_mul_s_bound2(fx_mul_s(x2, x), x2, 3200000, 2000000);
    crate::fixed::lemma_fx_mul_s_bound2(x2, x2, 2000000, 2000000);
    crate::fixed::lemma_fx_mul_s_bound2(fx_mul_s(x2, x2), x2, 62000000, 2000000);
}

/// The sine polynomial on the first quadrant.
fn poly_sin(x: i64) -> (r: i64)
    requires
        0 <= x <= HALF_PI_FX,
    ensures
        r == poly_sin_s(x as int),
        iabs(r as int) <= 110000000,
{
    proof {
        lemma_quadrant_powers(x as int);
    }
    let x2 = fx_mul(x, x);
    let x3 = fx_mul(x2, x);
    let x5 = fx_mul(x3, x2);
    x - fx_divi(x3, 6) + fx_divi(x5, 120)
}

/// The cosine polynomial on the first quadrant.
fn poly_cos(x: i64) -> (r: i64)
    requires
        0 <= x <= HALF_PI_FX,
    ensures
        r == poly_cos_s(x as int),
        iabs(r as int) <= 2000000000,
{
    proof {
        lemma_quadrant_powers(x as int);
    }
    let x2 = fx_mul(x, x);
    let x4 = fx_mul(x2, x2);
    let x6 = fx_mul(x4, x2);
    SCALE - fx_divi(x2, 2) + fx_divi(x4, 24) - fx_divi(x6, 720)
}

/// Sine and cosine on one reduced turn `[0, TWO_PI_FX)`.
fn sin_cos_turn(t: i64) -> (r: (i64, i64))
    requires
        0 <= t < TWO_PI_FX,
    ensures
        r.0 == sin_turn_s(t as int),
        r.1 == cos_turn_s(t as int),
        iabs(r.0 as int) <= 110000000,
        iabs(r.1 as int) <= 2000000000,
{
    if t < HALF_PI_FX {
        (poly_sin(t), poly_cos(t))
    } else if t < PI_FX {
        (poly_sin(PI_FX - t), -poly_cos(PI_FX - t))
    } else if t < PI_FX + HALF_PI_FX {
        (-poly_sin(t - PI_FX), -poly_cos(t - PI_FX))
    } else {
        (-poly_sin(TWO_PI_FX - t), poly_cos(TWO_PI_FX - t))
    }
}

/// The fixed-point sine of a raw angle in scaled radians.
pub fn sin_fx(x: i64) -> (r: i64)
    requires
        x > -0x7fff_ffff_ffff_ffff,
    ensures
        r == sin_s(x as int),
        -SCALE <= r <= SCALE,
{
    let na: u64 = if x < 0 { (-x) as u64 } else { x as u64 };
    let t: u64 = na % 411775;
    let (sv, _) = sin_cos_turn(t as i64);
    let v = fx_clamp(sv, -SCALE, SCALE);
    if x < 0 {
        -v
    } else {
        v
    }
}

/// The fixed-point cosine of a raw angle in scaled radians.
pub fn cos_fx(x: i64) -> (r: i64)
    requires
        x > -0x7fff_ffff_ffff_ffff,
    ensures
        r == cos_s(x as int),
        -SCALE <= r <= SCALE,
{
    let na: u64 = if x < 0 { (-x) as u64 } else { x as u64 };
    let t: u64 = na % 411775;
    let (_, cv) = sin_cos_turn(t as i64);
    fx_clamp(cv, -SCALE, SCALE)
}

/// Sine of zero is zero and cosine of zero is one: the animator's
/// rotation at the start of time is the identity.
pub proof fn lemma_trig_at_zero()
    ensures
        sin_s(0) == 0,
        cos_s(0) == SCALE as int,
{
    crate::fixed::lemma_fx_mul_zero(0);
    assert(iabs(0int) % (TWO_PI_FX as int) == 0);
    assert(poly_sin_s(0) == 0);
    assert(poly_cos_s(0) == SCALE as int);
}

} // verus!
