//! The model animator: an oscillating yaw. The rotation angle is the
//! sine of scaled elapsed time, so the mesh wobbles back and forth
//! instead of spinning at constant speed — an intentional stylistic
//! choice of the demo, reproduced exactly.

use vstd::prelude::*;
use crate::fixed::{fx_mul, fx_mul_s, iabs, SCALE};
use crate::mat::{identity4_s, Mat4, Vec4};
use crate::trig::{cos_fx, cos_s, sin_fx, sin_s};

verus! {

/// The animator's time scale: elapsed seconds are doubled before the
/// sine is taken (it stands for 2).
pub const SPIN_RATE_FX: i64 = 131072;

/// The oscillating yaw angle at raw elapsed time `t`: the sine of the
/// scaled time, itself used as an angle in radians.
pub open spec fn model_angle_s(t: int) -> int {
    sin_s(fx_mul_s(t, SPIN_RATE_FX as int))
}

/// A rotation about the Y axis from a cosine/sine pair, laid out
/// column-major exactly as the demo's model matrix.
pub open spec fn rotation_y_s(c: i64, s: i64) -> Mat4 {
    Mat4 {
        c0: Vec4 { x: c, y: 0, z: s, w: 0 },
        c1: Vec4 { x: 0, y: SCALE, z: 0, w: 0 },
        c2: Vec4 { x: (-(s as int)) as i64, y: 0, z: c, w: 0 },
        c3: Vec4 { x: 0, y: 0, z: 0, w: SCALE },
    }
}

/// The model matrix at raw elapsed time `t`.
pub open spec fn model_rotation_s(t: int) -> Mat4 {
    let a = model_angle_s(t);
    rotation_y_s(cos_s(a) as i64, sin_s(a) as i64)
}

/// Builds the Y-axis rotation from a cosine/sine pair.
pub fn rotation_y(c: i64, s: i64) -> (r: Mat4)
    requires
        -SCALE <= c <= SCALE,
        -SCALE <= s <= SCALE,
    ensures
        r == rotation_y_s(c, s),
{
    Mat4 {
        c0: Vec4 { x: c, y: 0, z: s, w: 0 },
        c1: Vec4 { x: 0, y: SCALE, z: 0, w: 0 },
        c2: Vec4 { x: -s, y: 0, z: c, w: 0 },
        c3: Vec4 { x: 0, y: 0, z: 0, w: SCALE },
    }
}

/// The model matrix for raw elapsed time `t`: a yaw by the oscillating
/// angle, the identity whenever that angle's sine vanishes.
pub fn build_model_rotation(t: i64) -> (r: Mat4)
    requires
        -0x8000_0000 <= t <= 0x8000_0000,
    ensures
        r == model_rotation_s(t as int),
{
    let arg = fx_mul(t, SPIN_RATE_FX);
    let a = sin_fx(arg);
    let c = cos_fx(a);
    let s = sin_fx(a);
    rotation_y(c, s)
}

/// At the start of time the animator returns the identity: the scaled
/// time is zero, so the yaw angle's sine and the rotation collapse.
pub proof fn lemma_animator_at_zero()
    ensures
        model_rotation_s(0) == identity4_s(),
{
    crate::fixed::lemma_fx_mul_zero(SPIN_RATE_FX as int);
    lemma_animator_identity(0);
}

/// Whenever the sine of the scaled elapsed time vanishes, the animator
/// returns exactly the identity matrix: the oscillation is periodic and
/// passes through its rest pose.
pub proof fn lemma_animator_identity(t: int)
    requires
        sin_s(fx_mul_s(t, SPIN_RATE_FX as int)) == 0,
    ensures
        model_rotation_s(t) == identity4_s(),
{
    crate::trig::lemma_trig_at_zero();
    assert(model_angle_s(t) == 0);
    assert(model_rotation_s(t) == rotation_y_s(SCALE, 0));
}

/// For the exactly representable rotations about the Y axis — the
/// identity and the quarter turns, whose sine/cosine pairs are whole
/// units or zero — the normal matrix (inverse transpose of the upper
/// 3x3 block) is the rotation itself, with determinant one: every
/// product and quotient involved is exact in fixed point. Rotations at
/// other angles carry quantized entries, for which the round trip holds
/// only up to that quantization.
pub proof fn lemma_normal_matrix_of_quarter_turn(c: i64, s: i64)
    requires
        (c == SCALE && s == 0) || (c == 0 && s == SCALE) || (c == -SCALE && s == 0) || (c == 0 && s
            == -SCALE),
    ensures
        crate::mat::det3_s(rotation_y_s(c, s)) == SCALE as int,
        crate::mat::normal_mat_s(rotation_y_s(c, s)) == crate::mat::upper3_s(rotation_y_s(c, s)),
{
    let si = SCALE as int;
    crate::fixed::lemma_fx_mul_one(si);
    crate::fixed::lemma_fx_mul_one(-si);
    crate::fixed::lemma_fx_mul_one(0);
    crate::fixed::lemma_fx_mul_zero(si);
    crate::fixed::lemma_fx_mul_zero(-si);
    crate::fixed::lemma_fx_mul_zero(0);
    assert((-65536int) * (-65536int) == 65536int * 65536int) by (nonlinear_arith);
    assert(crate::fixed::fx_mul_s(-si, -si) == crate::fixed::fx_mul_s(si, si));
    crate::fixed::lemma_fx_div_one(si);
    crate::fixed::lemma_fx_div_one(-si);
    crate::fixed::lemma_fx_div_one(0);
}

} // verus!
