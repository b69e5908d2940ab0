//! Three-component vectors over the fixed-point scalar, with the
//! operations the camera and shading code needs: componentwise sums,
//! scaling, dot and cross products, length and normalization.

use vstd::prelude::*;
use vstd::arithmetic::div_mod::lemma_div_is_ordered;
use crate::error::MathError;
use crate::fixed::{
    dot_bound, fx_div, fx_div_s, fx_mul, fx_mul_s, fx_sqrt, fx_sqrt_s, iabs, tdiv, FX_MAX, SCALE,
};

verus! {

/// A vector of three fixed-point scalars.
#[derive(Clone, Copy, Debug, PartialEq, Eq, Structural)]
pub struct Vec3 {
    pub x: i64,
    pub y: i64,
    pub z: i64,
}

/// Magnitude bound on the components of the vectors this module takes:
/// generous enough for every value of the demo (it stands for 2048).
pub const VEC_MAX: i64 = 0x800_0000;

/// Every component of `v` has magnitude at most `b`.
pub open spec fn in_range3(v: Vec3, b: int) -> bool {
    &&& -b <= v.x <= b
    &&& -b <= v.y <= b
    &&& -b <= v.z <= b
}

/// The fixed-point dot product, as a mathematical integer.
pub open spec fn dot3_s(a: Vec3, b: Vec3) -> int {
    fx_mul_s(a.x as int, b.x as int) + fx_mul_s(a.y as int, b.y as int) + fx_mul_s(
        a.z as int,
        b.z as int,
    )
}

/// First component of the fixed-point cross product.
pub open spec fn cross_x_s(a: Vec3, b: Vec3) -> int {
    fx_mul_s(a.y as int, b.z as int) - fx_mul_s(a.z as int, b.y as int)
}

/// Second component of the fixed-point cross product.
pub open spec fn cross_y_s(a: Vec3, b: Vec3) -> int {
    fx_mul_s(a.z as int, b.x as int) - fx_mul_s(a.x as int, b.z as int)
}

/// Third component of the fixed-point cross product.
pub open spec fn cross_z_s(a: Vec3, b: Vec3) -> int {
    fx_mul_s(a.x as int, b.y as int) - fx_mul_s(a.y as int, b.x as int)
}

/// The fixed-point length of `v`: the square root of its dot square.
pub open spec fn length3_s(v: Vec3) -> int {
    fx_sqrt_s(dot3_s(v, v))
}

/// Componentwise sum.
pub fn add3(a: Vec3, b: Vec3) -> (r: Vec3)
    requires
        in_range3(a, VEC_MAX as int),
        in_range3(b, VEC_MAX as int),
    ensures
        r.x == a.x + b.x && r.y == a.y + b.y && r.z == a.z + b.z,
        r == add_v(a, b),
{
    Vec3 { x: a.x + b.x, y: a.y + b.y, z: a.z + b.z }
}

/// Componentwise difference.
pub fn sub3(a: Vec3, b: Vec3) -> (r: Vec3)
    requires
        in_range3(a, VEC_MAX as int),
        in_range3(b, VEC_MAX as int),
    ensures
        r.x == a.x - b.x && r.y == a.y - b.y && r.z == a.z - b.z,
{
    Vec3 { x: a.x - b.x, y: a.y - b.y, z: a.z - b.z }
}

/// Componentwise negation.
pub fn neg3(a: Vec3) -> (r: Vec3)
    requires
        in_range3(a, VEC_MAX as int),
    ensures
        r.x == -a.x && r.y == -a.y && r.z == -a.z,
        r == neg_v(a),
{
    Vec3 { x: -a.x, y: -a.y, z: -a.z }
}

/// Each component multiplied by the fixed-point scalar `k`.
pub fn scale3(a: Vec3, k: i64) -> (r: Vec3)
    requires
        in_range3(a, VEC_MAX as int),
        -FX_MAX <= k <= FX_MAX,
    ensures
        r.x == fx_mul_s(a.x as int, k as int),
        r.y == fx_mul_s(a.y as int, k as int),
        r.z == fx_mul_s(a.z as int, k as int),
        r == scale_v(a, k as int),
{
    Vec3 { x: fx_mul(a.x, k), y: fx_mul(a.y, k), z: fx_mul(a.z, k) }
}

/// The fixed-point dot product.
pub fn dot3(a: Vec3, b: Vec3) -> (r: i64)
    requires
        in_range3(a, VEC_MAX as int),
        in_range3(b, VEC_MAX as int),
    ensures
        r == dot3_s(a, b),
        iabs(r as int) <= 3 * dot_bound(VEC_MAX as int),
{
    let xx = fx_mul(a.x, b.x);
    let yy = fx_mul(a.y, b.y);
    let zz = fx_mul(a.z, b.z);
    proof {
        crate::fixed::lemma_fx_mul_s_bound(a.x as int, b.x as int, VEC_MAX as int);
        crate::fixed::lemma_fx_mul_s_bound(a.y as int, b.y as int, VEC_MAX as int);
        crate::fixed::lemma_fx_mul_s_bound(a.z as int, b.z as int, VEC_MAX as int);
    }
    xx + yy + zz
}

/// The fixed-point cross product.
pub fn cross3(a: Vec3, b: Vec3) -> (r: Vec3)
    requires
        in_range3(a, VEC_MAX as int),
        in_range3(b, VEC_MAX as int),
    ensures
        r.x == cross_x_s(a, b),
        r.y == cross_y_s(a, b),
        r.z == cross_z_s(a, b),
        r == cross_v(a, b),
        in_range3(r, 2 * dot_bound(VEC_MAX as int)),
{
    proof {
        crate::fixed::lemma_fx_mul_s_bound(a.y as int, b.z as int, VEC_MAX as int);
        crate::fixed::lemma_fx_mul_s_bound(a.z as int, b.y as int, VEC_MAX as int);
        crate::fixed::lemma_fx_mul_s_bound(a.z as int, b.x as int, VEC_MAX as int);
        crate::fixed::lemma_fx_mul_s_bound(a.x as int, b.z as int, VEC_MAX as int);
        crate::fixed::lemma_fx_mul_s_bound(a.x as int, b.y as int, VEC_MAX as int);
        crate::fixed::lemma_fx_mul_s_bound(a.y as int, b.x as int, VEC_MAX as int);
    }
    Vec3 {
        x: fx_mul(a.y, b.z) - fx_mul(a.z, b.y),
        y: fx_mul(a.z, b.x) - fx_mul(a.x, b.z),
        z: fx_mul(a.x, b.y) - fx_mul(a.y, b.x),
    }
}

/// The componentwise sum as a vector value.
pub open spec fn add_v(a: Vec3, b: Vec3) -> Vec3 {
    Vec3 {
        x: (a.x + b.x) as i64,
        y: (a.y + b.y) as i64,
        z: (a.z + b.z) as i64,
    }
}

/// The componentwise negation as a vector value.
pub open spec fn neg_v(a: Vec3) -> Vec3 {
    Vec3 { x: (-(a.x as int)) as i64, y: (-(a.y as int)) as i64, z: (-(a.z as int)) as i64 }
}

/// The vector scaled by the fixed-point scalar `k`, as a value.
pub open spec fn scale_v(a: Vec3, k: int) -> Vec3 {
    Vec3 {
        x: fx_mul_s(a.x as int, k) as i64,
        y: fx_mul_s(a.y as int, k) as i64,
        z: fx_mul_s(a.z as int, k) as i64,
    }
}

/// The cross product as a vector value (components fit `i64` whenever
/// the operands are in range).
pub open spec fn cross_v(a: Vec3, b: Vec3) -> Vec3 {
    Vec3 { x: cross_x_s(a, b) as i64, y: cross_y_s(a, b) as i64, z: cross_z_s(a, b) as i64 }
}

/// The normalized vector as a value: each component divided by the
/// fixed-point length.
pub open spec fn normalize_v(v: Vec3) -> Vec3
    recommends
        dot3_s(v, v) != 0,
{
    Vec3 {
        x: fx_div_s(v.x as int, length3_s(v)) as i64,
        y: fx_div_s(v.y as int, length3_s(v)) as i64,
        z: fx_div_s(v.z as int, length3_s(v)) as i64,
    }
}

/// Components of a cross product of vectors of magnitudes `ma` and `mb`
/// stay within twice the product bound.
pub proof fn lemma_cross_range2(a: Vec3, b: Vec3, ma: int, mb: int)
    requires
        in_range3(a, ma),
        in_range3(b, mb),
        0 <= ma,
        0 <= mb,
    ensures
        iabs(cross_x_s(a, b)) <= 2 * ((ma * mb) / (SCALE as int)),
        iabs(cross_y_s(a, b)) <= 2 * ((ma * mb) / (SCALE as int)),
        iabs(cross_z_s(a, b)) <= 2 * ((ma * mb) / (SCALE as int)),
{
    crate::fixed::lemma_fx_mul_s_bound2(a.y as int, b.z as int, ma, mb);
    crate::fixed::lemma_fx_mul_s_bound2(a.z as int, b.y as int, ma, mb);
    crate::fixed::lemma_fx_mul_s_bound2(a.z as int, b.x as int, ma, mb);
    crate::fixed::lemma_fx_mul_s_bound2(a.x as int, b.z as int, ma, mb);
    crate::fixed::lemma_fx_mul_s_bound2(a.x as int, b.y as int, ma, mb);
    crate::fixed::lemma_fx_mul_s_bound2(a.y as int, b.x as int, ma, mb);
}

/// Components of a cross product of vectors of magnitude `m` stay within
/// twice the product bound.
pub proof fn lemma_cross_range(a: Vec3, b: Vec3, m: int)
    requires
        in_range3(a, m),
        in_range3(b, m),
        0 <= m,
    ensures
        iabs(cross_x_s(a, b)) <= 2 * dot_bound(m),
        iabs(cross_y_s(a, b)) <= 2 * dot_bound(m),
        iabs(cross_z_s(a, b)) <= 2 * dot_bound(m),
{
    crate::fixed::lemma_fx_mul_s_bound(a.y as int, b.z as int, m);
    crate::fixed::lemma_fx_mul_s_bound(a.z as int, b.y as int, m);
    crate::fixed::lemma_fx_mul_s_bound(a.z as int, b.x as int, m);
    crate::fixed::lemma_fx_mul_s_bound(a.x as int, b.z as int, m);
    crate::fixed::lemma_fx_mul_s_bound(a.x as int, b.y as int, m);
    crate::fixed::lemma_fx_mul_s_bound(a.y as int, b.x as int, m);
}

/// Spec-level counterpart of the normalization bounds: for an in-range
/// vector with nonzero dot square, the fixed-point length is at least
/// 256 raw units and every normalized component stays within two units,
/// so `normalize_v` is the plain quotient with no truncation at the
/// type boundary.
pub proof fn lemma_normalize_v_bounds(v: Vec3)
    requires
        in_range3(v, VEC_MAX as int),
        dot3_s(v, v) != 0,
    ensures
        length3_s(v) >= 256,
        in_range3(normalize_v(v), 2 * (SCALE as int)),
        normalize_v(v).x == fx_div_s(v.x as int, length3_s(v)),
        normalize_v(v).y == fx_div_s(v.y as int, length3_s(v)),
        normalize_v(v).z == fx_div_s(v.z as int, length3_s(v)),
{
    let s = SCALE as int;
    let d = dot3_s(v, v);
    lemma_dot3_self_nonneg(v);
    assert(0x800_0000int * 0x800_0000 == 0x40_0000_0000_0000int) by (nonlinear_arith);
    assert(0x40_0000_0000_0000int / 65536 == 0x40_0000_0000int);
    crate::fixed::lemma_fx_mul_s_bound(v.x as int, v.x as int, VEC_MAX as int);
    crate::fixed::lemma_fx_mul_s_bound(v.y as int, v.y as int, VEC_MAX as int);
    crate::fixed::lemma_fx_mul_s_bound(v.z as int, v.z as int, VEC_MAX as int);
    assert(1 <= d <= 0xC0_0000_0000int);
    let l = length3_s(v);
    crate::fixed::lemma_fx_sqrt_s_brackets(d);
    assert(l >= 256) by (nonlinear_arith)
        requires
            d * (SCALE as int) < (l + 1) * (l + 1),
            d >= 1,
            l >= 0,
    ;
    crate::fixed::lemma_fx_div_s_abs(v.x as int, l);
    crate::fixed::lemma_fx_div_s_abs(v.y as int, l);
    crate::fixed::lemma_fx_div_s_abs(v.z as int, l);
    lemma_component_quotient(v.x as int, v.x as int, d, l, fx_div_s(v.x as int, l));
    lemma_component_quotient(v.y as int, v.y as int, d, l, fx_div_s(v.y as int, l));
    lemma_component_quotient(v.z as int, v.z as int, d, l, fx_div_s(v.z as int, l));
}

/// Spec-level counterpart of the cross-product bounds: for in-range
/// operands the components fit their type exactly.
pub proof fn lemma_cross_v_bounds(a: Vec3, b: Vec3, ma: int, mb: int)
    requires
        in_range3(a, ma),
        in_range3(b, mb),
        0 <= ma <= 0x4000_0000,
        0 <= mb <= 0x4000_0000,
    ensures
        in_range3(cross_v(a, b), 2 * ((ma * mb) / (SCALE as int))),
        cross_v(a, b).x == cross_x_s(a, b),
        cross_v(a, b).y == cross_y_s(a, b),
        cross_v(a, b).z == cross_z_s(a, b),
{
    lemma_cross_range2(a, b, ma, mb);
    assert(ma * mb <= 0x4000_0000int * 0x4000_0000) by (nonlinear_arith)
        requires
            0 <= ma <= 0x4000_0000,
            0 <= mb <= 0x4000_0000,
    ;
    assert(0x4000_0000int * 0x4000_0000 == 0x1000_0000_0000_0000int) by (nonlinear_arith);
    assert(0x1000_0000_0000_0000int / 65536 == 0x1000_0000_0000int);
    assert(ma * mb >= 0) by (nonlinear_arith)
        requires
            0 <= ma,
            0 <= mb,
    ;
    lemma_div_is_ordered(ma * mb, 0x1000_0000_0000_0000int, SCALE as int);
    vstd::arithmetic::div_mod::lemma_div_pos_is_pos(ma * mb, SCALE as int);
}

/// The dot square of a vector is never negative.
pub proof fn lemma_dot3_self_nonneg(v: Vec3)
    ensures
        dot3_s(v, v) >= 0,
        fx_mul_s(v.x as int, v.x as int) >= 0,
        fx_mul_s(v.y as int, v.y as int) >= 0,
        fx_mul_s(v.z as int, v.z as int) >= 0,
{
    lemma_square_tdiv_nonneg(v.x as int);
    lemma_square_tdiv_nonneg(v.y as int);
    lemma_square_tdiv_nonneg(v.z as int);
}

proof fn lemma_square_tdiv_nonneg(a: int)
    ensures
        fx_mul_s(a, a) >= 0,
{
    assert(a * a >= 0) by (nonlinear_arith);
    assert(iabs(a * a) / (SCALE as int) >= 0) by (nonlinear_arith)
        requires
            iabs(a * a) >= 0,
    ;
}

/// The fixed-point length of `v`.
pub fn length3(v: Vec3) -> (r: i64)
    requires
        in_range3(v, VEC_MAX as int),
    ensures
        r == length3_s(v),
        r >= 0,
{
    let d = dot3(v, v);
    proof {
        lemma_dot3_self_nonneg(v);
    }
    fx_sqrt(d)
}

/// A component of magnitude `av` divided by an `fx_sqrt` value `l` of
/// the dot square stays within twice the unit scale. All arguments are
/// plain magnitudes so the nonlinear solver sees no nested functions.
proof fn lemma_normalize_component_bound(av: int, t: int, d: int, l: int, au: int)
    by (nonlinear_arith)
    requires
        l >= 256,
        0 <= av,
        0 <= au,
        0 <= t <= d,
        t == (av * av) / (SCALE as int),
        d * (SCALE as int) < (l + 1) * (l + 1),
        au * l <= av * (SCALE as int),
    ensures
        au <= 2 * (SCALE as int),
{
    let s = SCALE as int;
    assert(av * av < (t + 1) * s);
    assert(av * av < (l + 1) * (l + 1) + s);
    assert(av <= l + 129);
    assert(au * l <= (l + 129) * s);
}

/// A fixed-point square is the floor of the true square over the scale.
proof fn lemma_square_floor(a: int)
    ensures
        fx_mul_s(a, a) >= 0,
        fx_mul_s(a, a) * (SCALE as int) <= a * a,
        a * a < (fx_mul_s(a, a) + 1) * (SCALE as int),
{
    let s = SCALE as int;
    crate::fixed::lemma_abs_mul(a, a);
    assert(a * a >= 0 && iabs(a) * iabs(a) == a * a) by (nonlinear_arith);
    assert(fx_mul_s(a, a) == (a * a) / s);
    let t = (a * a) / s;
    vstd::arithmetic::div_mod::lemma_fundamental_div_mod(a * a, s);
    vstd::arithmetic::div_mod::lemma_mod_bound(a * a, s);
    vstd::arithmetic::div_mod::lemma_div_pos_is_pos(a * a, s);
    assert(s * t == t * s) by (nonlinear_arith);
    assert((t + 1) * s == t * s + s) by (nonlinear_arith);
}

/// Squaring the quotient facts: the scaled square of a normalized
/// component brackets the true square from both sides.
proof fn lemma_comp_sq(av: int, au: int, l: int)
    by (nonlinear_arith)
    requires
        0 <= av,
        0 <= au,
        1 <= l,
        au * l <= av * 65536,
        au * l > av * 65536 - l,
    ensures
        (au * au) * (l * l) <= (av * av) * (65536 * 65536),
        (au * au) * (l * l) >= (av * av) * (65536 * 65536) - 2 * (av * 65536) * l,
{
    assert((au * l) * (au * l) == (au * au) * (l * l));
    assert((av * 65536) * (av * 65536) == (av * av) * (65536 * 65536));
    if av * 65536 >= l {
        assert(au * l >= av * 65536 - l);
        assert((au * l) * (au * l) >= (av * 65536 - l) * (av * 65536 - l));
        assert((av * 65536 - l) * (av * 65536 - l) >= (av * 65536) * (av * 65536) - 2 * (av
            * 65536) * l);
    } else {
        assert((av * 65536) * (av * 65536) <= (av * 65536) * l);
        assert((av * 65536) * l <= 2 * (av * 65536) * l);
    }
}

/// A component of a vector whose scaled dot square sits under the next
/// square is itself hardly longer than the length.
proof fn lemma_comp_le(av: int, l: int)
    by (nonlinear_arith)
    requires
        0 <= av,
        av * av < (l + 1) * (l + 1) + 65536,
        l >= 65536,
    ensures
        av <= l + 2,
{
    if av >= l + 3 {
        assert(av * av >= (l + 3) * (l + 3));
        assert((l + 3) * (l + 3) >= (l + 1) * (l + 1) + 4 * l + 8);
        assert(false);
    }
}

/// Adds the three per-component upper bounds into one inequality over
/// the summed squares.
proof fn lemma_sum_upper(
    uxs: int,
    uys: int,
    uzs: int,
    vxs: int,
    vys: int,
    vzs: int,
    l: int,
)
    by (nonlinear_arith)
    requires
        uxs * (l * l) <= vxs * (65536 * 65536),
        uys * (l * l) <= vys * (65536 * 65536),
        uzs * (l * l) <= vzs * (65536 * 65536),
    ensures
        (uxs + uys + uzs) * (l * l) <= (vxs + vys + vzs) * (65536 * 65536),
{
}

/// Adds the three per-component lower bounds into one inequality over
/// the summed squares.
proof fn lemma_sum_lower(
    uxs: int,
    uys: int,
    uzs: int,
    vxs: int,
    vys: int,
    vzs: int,
    ax: int,
    ay: int,
    az: int,
    l: int,
)
    by (nonlinear_arith)
    requires
        uxs * (l * l) >= vxs * (65536 * 65536) - 2 * (ax * 65536) * l,
        uys * (l * l) >= vys * (65536 * 65536) - 2 * (ay * 65536) * l,
        uzs * (l * l) >= vzs * (65536 * 65536) - 2 * (az * 65536) * l,
    ensures
        (uxs + uys + uzs) * (l * l) >= (vxs + vys + vzs) * (65536 * 65536) - 2 * 65536 * l * (ax
            + ay + az),
{
}

/// Upper half of the unit-length bound: the sum of squared normalized
/// components cannot exceed one square unit by more than a sliver.
proof fn lemma_w_upper(w: int, dd: int, d: int, l: int)
    by (nonlinear_arith)
    requires
        0 <= w,
        w * (l * l) <= dd * (65536 * 65536),
        dd < (d + 3) * 65536,
        d * 65536 < (l + 1) * (l + 1),
        l >= 65536,
    ensures
        w <= 65536 * 65536 + 13 * 65536,
{
    assert(dd * (65536 * 65536) < ((d * 65536) + 3 * 65536) * (65536 * 65536));
    if w > 65536 * 65536 + 13 * 65536 {
        assert(w * (l * l) >= (65536 * 65536 + 13 * 65536 + 1) * (l * l));
        assert(((d * 65536) + 3 * 65536) * (65536 * 65536) <= ((l + 1) * (l + 1) + 3 * 65536 - 1)
            * (65536 * 65536));
        assert((65536 * 65536 + 13 * 65536 + 1) * (l * l) > ((l + 1) * (l + 1) + 3 * 65536 - 1) * (
        65536 * 65536));
        assert(false);
    }
}

/// Lower half of the unit-length bound.
proof fn lemma_w_lower(w: int, dd: int, d: int, l: int, sum_av: int)
    by (nonlinear_arith)
    requires
        w * (l * l) >= dd * (65536 * 65536) - 2 * 65536 * l * sum_av,
        0 <= sum_av <= 3 * l + 6,
        dd >= d * 65536,
        d * 65536 >= l * l,
        l >= 65536,
    ensures
        w >= 65536 * 65536 - 7 * 65536,
{
    assert(dd * (65536 * 65536) >= (l * l) * (65536 * 65536));
    assert(2 * 65536 * l * sum_av <= 2 * 65536 * l * (3 * l + 6));
    if w < 65536 * 65536 - 7 * 65536 {
        assert(w * (l * l) <= (65536 * 65536 - 7 * 65536 - 1) * (l * l));
        assert((65536 * 65536 - 7 * 65536 - 1) * (l * l) < (l * l) * (65536 * 65536) - 2 * 65536
            * l * (3 * l + 6));
        assert(false);
    }
}

/// The normalized vector has unit length, up to the quantization of the
/// fixed-point scale: for any in-range vector of length at least one,
/// the fixed-point dot square of its normalization is one square unit
/// within sixteen raw parts. Vectors shorter than one unit quantize too
/// coarsely for this bound and are left out.
pub proof fn lemma_normalize_is_unit(v: Vec3)
    requires
        in_range3(v, VEC_MAX as int),
        dot3_s(v, v) >= SCALE as int,
    ensures
        iabs(dot3_s(normalize_v(v), normalize_v(v)) - (SCALE as int)) <= 16,
{
    let s = SCALE as int;
    let d = dot3_s(v, v);
    lemma_normalize_v_bounds(v);
    let l = length3_s(v);
    crate::fixed::lemma_fx_sqrt_s_brackets(d);
    assert(l >= s) by (nonlinear_arith)
        requires
            d >= s,
            s == 65536,
            d * s < (l + 1) * (l + 1),
            l >= 0,
    ;
    let vx = v.x as int;
    let vy = v.y as int;
    let vz = v.z as int;
    lemma_square_floor(vx);
    lemma_square_floor(vy);
    lemma_square_floor(vz);
    let dd = vx * vx + vy * vy + vz * vz;
    assert(d * s <= dd && dd < (d + 3) * s);
    let ux = fx_div_s(vx, l);
    let uy = fx_div_s(vy, l);
    let uz = fx_div_s(vz, l);
    crate::fixed::lemma_fx_div_s_abs(vx, l);
    crate::fixed::lemma_fx_div_s_abs(vy, l);
    crate::fixed::lemma_fx_div_s_abs(vz, l);
    crate::fixed::lemma_abs_mul(vx, vx);
    crate::fixed::lemma_abs_mul(vy, vy);
    crate::fixed::lemma_abs_mul(vz, vz);
    crate::fixed::lemma_abs_mul(ux, ux);
    crate::fixed::lemma_abs_mul(uy, uy);
    crate::fixed::lemma_abs_mul(uz, uz);
    assert(iabs(vx) * iabs(vx) == vx * vx && iabs(ux) * iabs(ux) == ux * ux) by (nonlinear_arith);
    assert(iabs(vy) * iabs(vy) == vy * vy && iabs(uy) * iabs(uy) == uy * uy) by (nonlinear_arith);
    assert(iabs(vz) * iabs(vz) == vz * vz && iabs(uz) * iabs(uz) == uz * uz) by (nonlinear_arith);
    lemma_comp_sq(iabs(vx), iabs(ux), l);
    lemma_comp_sq(iabs(vy), iabs(uy), l);
    lemma_comp_sq(iabs(vz), iabs(uz), l);
    assert(vx * vx < (d + 1) * s && vy * vy < (d + 1) * s && vz * vz < (d + 1) * s);
    assert((d + 1) * s <= d * s + s) by (nonlinear_arith);
    lemma_comp_le(iabs(vx), l);
    lemma_comp_le(iabs(vy), l);
    lemma_comp_le(iabs(vz), l);
    let w = ux * ux + uy * uy + uz * uz;
    lemma_sum_upper(ux * ux, uy * uy, uz * uz, vx * vx, vy * vy, vz * vz, l);
    let sum_av = iabs(vx) + iabs(vy) + iabs(vz);
    lemma_sum_lower(
        ux * ux,
        uy * uy,
        uz * uz,
        vx * vx,
        vy * vy,
        vz * vz,
        iabs(vx),
        iabs(vy),
        iabs(vz),
        l,
    );
    assert(w >= 0) by (nonlinear_arith)
        requires
            w == ux * ux + uy * uy + uz * uz,
    ;
    lemma_w_upper(w, dd, d, l);
    lemma_w_lower(w, dd, d, l, sum_av);
    let u = normalize_v(v);
    assert(u.x == ux && u.y == uy && u.z == uz);
    lemma_square_floor(ux);
    lemma_square_floor(uy);
    lemma_square_floor(uz);
    let q = dot3_s(u, u);
    assert(q * s <= w && w < (q + 3) * s);
    assert(q <= s + 13 && q >= s - 9);
}

/// `v` scaled to unit length, or `DegenerateVector` when its fixed-point
/// squared length is zero (the vector is zero or vanishingly short).
/// On success each component is exactly the truncated quotient of the
/// component by the fixed-point length.
pub fn normalize3(v: Vec3) -> (r: Result<Vec3, MathError>)
    requires
        in_range3(v, VEC_MAX as int),
    ensures
        (r is Ok) == (dot3_s(v, v) != 0),
        r matches Ok(u) ==> {
            &&& u == normalize_v(v)
            &&& u.x == fx_div_s(v.x as int, length3_s(v))
            &&& u.y == fx_div_s(v.y as int, length3_s(v))
            &&& u.z == fx_div_s(v.z as int, length3_s(v))
            &&& in_range3(u, 2 * (SCALE as int))
            &&& length3_s(v) >= 256
        },
        r matches Err(e) ==> e == MathError::DegenerateVector,
{
    let d = dot3(v, v);
    proof {
        lemma_dot3_self_nonneg(v);
    }
    if d == 0 {
        return Err(MathError::DegenerateVector);
    }
    let l = fx_sqrt(d);
    proof {
        assert(l >= 256) by (nonlinear_arith)
            requires
                (d as int) * (SCALE as int) < (l as int + 1) * (l as int + 1),
                d >= 1,
                l >= 0,
        ;
        assert(l <= 0x4000_0000_0000_0000) by (nonlinear_arith)
            requires
                (l as int) * (l as int) <= (d as int) * (SCALE as int),
                d <= 0xC0_0000_0000,
                l >= 0,
        ;
    }
    let ux = fx_div(v.x, l);
    let uy = fx_div(v.y, l);
    let uz = fx_div(v.z, l);
    proof {
        lemma_component_quotient(v.x as int, v.x as int, d as int, l as int, ux as int);
        lemma_component_quotient(v.y as int, v.y as int, d as int, l as int, uy as int);
        lemma_component_quotient(v.z as int, v.z as int, d as int, l as int, uz as int);
        assert(dot3_s(v, v) == d);
    }
    Ok(Vec3 { x: ux, y: uy, z: uz })
}

/// Bridges one component's divisor facts to the bound lemma: the square
/// term of the dot product is the floored square, and it is at most the
/// whole dot square.
proof fn lemma_component_quotient(vi: int, vj: int, d: int, l: int, u: int)
    requires
        vi == vj,
        l >= 256,
        fx_mul_s(vi, vj) >= 0,
        fx_mul_s(vi, vj) <= d,
        d * (SCALE as int) < (l + 1) * (l + 1),
        iabs(u) * iabs(l) <= iabs(vi) * (SCALE as int),
    ensures
        iabs(u) <= 2 * (SCALE as int),
{
    let s = SCALE as int;
    crate::fixed::lemma_abs_mul(vi, vi);
    assert(vi * vi >= 0 && iabs(vi) * iabs(vi) == vi * vi) by (nonlinear_arith);
    assert(fx_mul_s(vi, vi) == (vi * vi) / s);
    assert(iabs(vi) * iabs(vi) == vi * vi);
    lemma_normalize_component_bound(iabs(vi), fx_mul_s(vi, vi), d, l, iabs(u));
}

} // verus!
