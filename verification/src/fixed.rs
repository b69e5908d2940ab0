//! The fixed-point scalar: a raw `i64` value `r` stands for the real
//! number `r / SCALE`. Multiplication and division truncate toward
//! zero, and the spec functions here pin every result down to one
//! integer, so every contract built on them is exact.

use vstd::prelude::*;

verus! {

/// One in the fixed-point representation; also the scale factor.
pub const SCALE: i64 = 65536;

/// Magnitude bound on the operands of a product: two raw values of this
/// size multiply without overflowing an `i64`.
pub const FX_MAX: i64 = 0x8000_0000;

/// Absolute value of a mathematical integer.
pub open spec fn iabs(a: int) -> int {
    if a < 0 { -a } else { a }
}

/// Division truncated toward zero, the rounding that every fixed-point
/// operation below uses. `b` must not be zero.
pub open spec fn tdiv(a: int, b: int) -> int
    recommends
        b != 0,
{
    if (a < 0) != (b < 0) {
        -(iabs(a) / iabs(b))
    } else {
        iabs(a) / iabs(b)
    }
}

/// The fixed-point product of two raw values, as a mathematical integer.
pub open spec fn fx_mul_s(a: int, b: int) -> int {
    tdiv(a * b, SCALE as int)
}

/// The fixed-point quotient of two raw values, as a mathematical integer.
pub open spec fn fx_div_s(a: int, b: int) -> int
    recommends
        b != 0,
{
    tdiv(a * (SCALE as int), b)
}

/// The magnitude of a product is the product of the magnitudes.
pub proof fn lemma_abs_mul(a: int, b: int)
    by (nonlinear_arith)
    ensures
        iabs(a * b) == iabs(a) * iabs(b),
{
}

/// Truncated division shrinks magnitude: `|tdiv(a, b)| * |b| <= |a|`.
pub proof fn lemma_tdiv_abs(a: int, b: int)
    requires
        b != 0,
    ensures
        iabs(tdiv(a, b)) * iabs(b) <= iabs(a),
        iabs(tdiv(a, b)) == iabs(a) / iabs(b),
{
    let q = iabs(a) / iabs(b);
    assert(q * iabs(b) <= iabs(a) && q >= 0) by (nonlinear_arith)
        requires
            iabs(b) > 0,
            iabs(a) >= 0,
            q == iabs(a) / iabs(b),
    ;
}

/// The fixed-point product is symmetric in its arguments.
pub proof fn lemma_fx_mul_comm(a: int, b: int)
    ensures
        fx_mul_s(a, b) == fx_mul_s(b, a),
{
    assert(a * b == b * a) by (nonlinear_arith);
}

/// Multiplying by one raw unit is exact.
pub proof fn lemma_fx_mul_one(a: int)
    ensures
        fx_mul_s(a, SCALE as int) == a,
        fx_mul_s(SCALE as int, a) == a,
{
    let s = SCALE as int;
    assert(iabs(a * s) == iabs(a) * s) by (nonlinear_arith)
        requires
            s == SCALE as int,
    ;
    assert((iabs(a) * s) / s == iabs(a)) by (nonlinear_arith)
        requires
            s == SCALE as int,
    ;
    assert(a * s == s * a) by (nonlinear_arith);
}

/// Dividing by one raw unit is exact.
pub proof fn lemma_fx_div_one(a: int)
    ensures
        fx_div_s(a, SCALE as int) == a,
{
    let s = SCALE as int;
    lemma_abs_mul(a, s);
    assert((iabs(a) * s) / s == iabs(a)) by (nonlinear_arith)
        requires
            s == SCALE as int,
    ;
    assert(a * s < 0 <==> a < 0) by (nonlinear_arith)
        requires
            s == SCALE as int,
    ;
}

/// Multiplying by zero gives zero.
pub proof fn lemma_fx_mul_zero(a: int)
    ensures
        fx_mul_s(a, 0) == 0,
        fx_mul_s(0, a) == 0,
{
    assert(a * 0 == 0) by (nonlinear_arith);
    assert(0 * a == 0) by (nonlinear_arith);
}

/// The largest magnitude a fixed-point product of two values of
/// magnitude `m` can have.
pub open spec fn dot_bound(m: int) -> int {
    (m * m) / (SCALE as int)
}

/// A fixed-point product of values of magnitude at most `m` has
/// magnitude at most `dot_bound(m)`.
pub proof fn lemma_fx_mul_s_bound(a: int, b: int, m: int)
    requires
        iabs(a) <= m,
        iabs(b) <= m,
        0 <= m,
    ensures
        iabs(fx_mul_s(a, b)) <= dot_bound(m),
{
    lemma_abs_mul(a, b);
    lemma_tdiv_abs(a * b, SCALE as int);
    assert(iabs(a) * iabs(b) <= m * m) by (nonlinear_arith)
        requires
            0 <= iabs(a) <= m,
            0 <= iabs(b) <= m,
    ;
    vstd::arithmetic::div_mod::lemma_div_is_ordered(iabs(a * b), m * m, SCALE as int);
}

/// Fixed-point product of `a` and `b`: exactly `tdiv(a * b, SCALE)`.
pub fn fx_mul(a: i64, b: i64) -> (r: i64)
    requires
        -FX_MAX <= a <= FX_MAX,
        -FX_MAX <= b <= FX_MAX,
    ensures
        r == fx_mul_s(a as int, b as int),
        iabs(r as int) * (SCALE as int) <= iabs(a as int) * iabs(b as int),
{
    let na: u64 = if a < 0 { (-a) as u64 } else { a as u64 };
    let nb: u64 = if b < 0 { (-b) as u64 } else { b as u64 };
    proof {
        assert(na * nb <= 0x8000_0000u64 * 0x8000_0000u64) by (nonlinear_arith)
            requires
                na <= 0x8000_0000u64,
                nb <= 0x8000_0000u64,
        ;
    }
    let p: u64 = na * nb;
    let q: u64 = p / 65536;
    proof {
        lemma_abs_mul(a as int, b as int);
        assert(q == iabs((a as int) * (b as int)) / (SCALE as int));
        lemma_tdiv_abs((a as int) * (b as int), SCALE as int);
        assert(q * (SCALE as int) <= iabs((a as int) * (b as int)));
    }
    if (a < 0) != (b < 0) {
        proof {
            assert((((a as int) * (b as int)) < 0) == ((a < 0) != (b < 0)) || (a as int) * (b as int) == 0) by (nonlinear_arith);
        }
        -(q as i64)
    } else {
        proof {
            assert((a as int) * (b as int) >= 0) by (nonlinear_arith)
                requires
                    (a < 0) == (b < 0),
            ;
        }
        q as i64
    }
}

/// Magnitude bound on a divisor: leaves room to negate it in exec code.
pub const DIV_MAX: i64 = 0x4000_0000_0000_0000;

/// Magnitude bound on a dividend: its scaled value must still fit.
pub const DIVN_MAX: i64 = 0x7fff_ffff_ffff;

/// Fixed-point quotient of `a` by `b`: exactly `tdiv(a * SCALE, b)`.
pub fn fx_div(a: i64, b: i64) -> (r: i64)
    requires
        -DIVN_MAX <= a <= DIVN_MAX,
        -DIV_MAX <= b <= DIV_MAX,
        b != 0,
    ensures
        r == fx_div_s(a as int, b as int),
        iabs(r as int) * iabs(b as int) <= iabs(a as int) * (SCALE as int),
{
    let na: u64 = if a < 0 { (-a) as u64 } else { a as u64 };
    let nb: u64 = if b < 0 { (-b) as u64 } else { b as u64 };
    proof {
        assert(na * 65536 <= 0x7fff_ffff_ffffu64 * 65536) by (nonlinear_arith)
            requires
                na <= 0x7fff_ffff_ffffu64,
        ;
    }
    let p: u64 = na * 65536;
    let q: u64 = p / nb;
    proof {
        lemma_abs_mul(a as int, SCALE as int);
        assert(q == iabs((a as int) * (SCALE as int)) / iabs(b as int));
        lemma_tdiv_abs((a as int) * (SCALE as int), b as int);
        assert(q <= p) by (nonlinear_arith)
            requires
                nb >= 1,
                q == p / nb,
        ;
        assert(q * iabs(b as int) <= iabs((a as int) * (SCALE as int)));
    }
    if (a < 0) != (b < 0) {
        proof {
            assert(((a as int) * (SCALE as int) < 0) == (a < 0) || a == 0) by (nonlinear_arith);
        }
        -(q as i64)
    } else {
        proof {
            assert(((a as int) * (SCALE as int) >= 0) == (a >= 0)) by (nonlinear_arith);
        }
        q as i64
    }
}

/// Floor of the square root of a natural number, by quartering.
pub open spec fn isqrt(x: nat) -> nat
    decreases x,
{
    if x < 1 {
        0
    } else if x < 4 {
        1
    } else {
        let r = 2 * isqrt(x / 4);
        if (r + 1) * (r + 1) <= x {
            r + 1
        } else {
            r
        }
    }
}

/// `isqrt` is the floor of the square root: it brackets its argument
/// between two consecutive squares.
pub proof fn lemma_isqrt(x: nat)
    ensures
        isqrt(x) * isqrt(x) <= x,
        x < (isqrt(x) + 1) * (isqrt(x) + 1),
    decreases x,
{
    if x < 1 {
        assert(isqrt(x) * isqrt(x) <= x && x < (isqrt(x) + 1) * (isqrt(x) + 1))
            by (nonlinear_arith)
            requires
                isqrt(x) == 0,
                x < 1,
        ;
    } else if x < 4 {
        assert(isqrt(x) * isqrt(x) <= x && x < (isqrt(x) + 1) * (isqrt(x) + 1))
            by (nonlinear_arith)
            requires
                isqrt(x) == 1,
                1 <= x < 4,
        ;
    } else {
        lemma_isqrt(x / 4);
        let s = isqrt(x / 4);
        let r = 2 * s;
        assert(4 * (x / 4) <= x && x <= 4 * (x / 4) + 3);
        assert(r * r <= 4 * (x / 4)) by (nonlinear_arith)
            requires
                s * s <= x / 4,
                r == 2 * s,
        ;
        assert(x < (r + 2) * (r + 2)) by (nonlinear_arith)
            requires
                x / 4 < (s + 1) * (s + 1),
                x <= 4 * (x / 4) + 3,
                r == 2 * s,
        ;
        let q = isqrt(x);
        if (r + 1) * (r + 1) <= x {
            assert(q == r + 1);
            assert(q * q <= x && x < (q + 1) * (q + 1)) by (nonlinear_arith)
                requires
                    q == r + 1,
                    (r + 1) * (r + 1) <= x,
                    x < (r + 2) * (r + 2),
            ;
        } else {
            assert(q == r);
            assert(q * q <= x && x < (q + 1) * (q + 1)) by (nonlinear_arith)
                requires
                    q == r,
                    r * r <= x,
                    x < (r + 1) * (r + 1),
            ;
        }
    }
}

/// Any value bracketed between two consecutive squares is the `isqrt`.
pub proof fn lemma_isqrt_unique(x: nat, r: nat)
    requires
        r * r <= x,
        x < (r + 1) * (r + 1),
    ensures
        isqrt(x) == r,
{
    lemma_isqrt(x);
    let q = isqrt(x);
    assert(q == r) by (nonlinear_arith)
        requires
            q * q <= x,
            x < (q + 1) * (q + 1),
            r * r <= x,
            x < (r + 1) * (r + 1),
    ;
}

/// The fixed-point square root of a raw value, as a mathematical integer.
pub open spec fn fx_sqrt_s(a: int) -> int
    recommends
        a >= 0,
{
    isqrt((a * (SCALE as int)) as nat) as int
}

/// The fixed-point square root value is bracketed between two
/// consecutive squares of the scaled operand.
pub proof fn lemma_fx_sqrt_s_brackets(a: int)
    requires
        a >= 0,
    ensures
        fx_sqrt_s(a) >= 0,
        fx_sqrt_s(a) * fx_sqrt_s(a) <= a * (SCALE as int),
        a * (SCALE as int) < (fx_sqrt_s(a) + 1) * (fx_sqrt_s(a) + 1),
{
    assert(a * (SCALE as int) >= 0) by (nonlinear_arith)
        requires
            a >= 0,
    ;
    lemma_isqrt((a * (SCALE as int)) as nat);
}

/// Dividing a scaled value by a fixed-point length of at least one raw
/// unit cannot grow it beyond the scale.
pub proof fn lemma_fx_div_s_abs(a: int, b: int)
    requires
        b != 0,
    ensures
        iabs(fx_div_s(a, b)) * iabs(b) <= iabs(a) * (SCALE as int),
        iabs(fx_div_s(a, b)) * iabs(b) > iabs(a) * (SCALE as int) - iabs(b),
{
    lemma_abs_mul(a, SCALE as int);
    lemma_tdiv_abs(a * (SCALE as int), b);
    let x = iabs(a) * (SCALE as int);
    let q = x / iabs(b);
    vstd::arithmetic::div_mod::lemma_fundamental_div_mod(x, iabs(b));
    vstd::arithmetic::div_mod::lemma_mod_bound(x, iabs(b));
    assert(q * iabs(b) == iabs(b) * q) by (nonlinear_arith);
}

/// Magnitude bound on the operand of a fixed-point square root.
pub const SQRT_MAX: i64 = 0x100_0000_0000;

/// Fixed-point square root: the greatest `r` with `r * r <= a * SCALE`,
/// that is, the scaled value nearest below the real square root.
pub fn fx_sqrt(a: i64) -> (r: i64)
    requires
        0 <= a <= SQRT_MAX,
    ensures
        0 <= r,
        (r as int) * (r as int) <= (a as int) * (SCALE as int),
        (a as int) * (SCALE as int) < (r as int + 1) * (r as int + 1),
        r == fx_sqrt_s(a as int),
{
    let x: u64 = (a as u64) * 65536;
    let mut lo: u64 = 0;
    let mut hi: u64 = 0x2000_0000;
    proof {
        assert(x < hi * hi) by (nonlinear_arith)
            requires
                x <= 0x100_0000_0000u64 * 65536,
                hi == 0x2000_0000u64,
        ;
    }
    while lo + 1 < hi
        invariant
            lo < hi <= 0x2000_0000,
            (lo as int) * (lo as int) <= x as int,
            (x as int) < (hi as int) * (hi as int),
            x == (a as int) * (SCALE as int),
        decreases hi - lo,
    {
        let mid: u64 = lo + (hi - lo) / 2;
        proof {
            assert(mid * mid <= 0x2000_0000u64 * 0x2000_0000u64) by (nonlinear_arith)
                requires
                    mid <= 0x2000_0000u64,
            ;
        }
        if mid * mid <= x {
            lo = mid;
        } else {
            hi = mid;
        }
    }
    proof {
        lemma_isqrt_unique(((a as int) * (SCALE as int)) as nat, lo as nat);
    }
    lo as i64
}

/// A fixed-point product of values of magnitude at most `ma` and `mb`
/// has magnitude at most `(ma * mb) / SCALE`.
pub proof fn lemma_fx_mul_s_bound2(a: int, b: int, ma: int, mb: int)
    requires
        iabs(a) <= ma,
        iabs(b) <= mb,
        0 <= ma,
        0 <= mb,
    ensures
        iabs(fx_mul_s(a, b)) <= (ma * mb) / (SCALE as int),
{
    lemma_abs_mul(a, b);
    lemma_tdiv_abs(a * b, SCALE as int);
    assert(iabs(a) * iabs(b) <= ma * mb) by (nonlinear_arith)
        requires
            0 <= iabs(a) <= ma,
            0 <= iabs(b) <= mb,
    ;
    vstd::arithmetic::div_mod::lemma_div_is_ordered(iabs(a * b), ma * mb, SCALE as int);
}

/// Quotient of a raw value by a plain positive integer, truncated toward
/// zero: divides the represented number by `k` without rescaling.
pub fn fx_divi(a: i64, k: i64) -> (r: i64)
    requires
        a > -0x7fff_ffff_ffff_ffff,
        k >= 1,
    ensures
        r == tdiv(a as int, k as int),
        iabs(r as int) <= iabs(a as int),
{
    let na: u64 = if a < 0 { (-a) as u64 } else { a as u64 };
    let q: u64 = na / (k as u64);
    proof {
        lemma_tdiv_abs(a as int, k as int);
        assert(q <= na) by (nonlinear_arith)
            requires
                k >= 1,
                q == na / (k as u64),
        ;
    }
    if a < 0 {
        -(q as i64)
    } else {
        q as i64
    }
}

/// `v` clamped to the closed interval `[lo, hi]`.
pub fn fx_clamp(v: i64, lo: i64, hi: i64) -> (r: i64)
    requires
        lo <= hi,
    ensures
        r == clamp_s(v as int, lo as int, hi as int),
{
    if v < lo {
        lo
    } else if v > hi {
        hi
    } else {
        v
    }
}

/// The clamp of `v` to `[lo, hi]`, as a mathematical integer.
pub open spec fn clamp_s(v: int, lo: int, hi: int) -> int {
    if v < lo {
        lo
    } else if v > hi {
        hi
    } else {
        v
    }
}

/// The greater of two raw values.
pub fn fx_max(a: i64, b: i64) -> (r: i64)
    ensures
        r == if a >= b { a as int } else { b as int },
        r >= a && r >= b,
{
    if a >= b { a } else { b }
}

} // verus!
