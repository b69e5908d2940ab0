//! The camera transform builders: a right-handed look-at view matrix
//! from an eye point, a look direction and an up hint, and a symmetric
//! perspective frustum from field of view, aspect ratio and the two
//! depth planes. Camera-space forward lies along the normalized look
//! direction, and the depth terms map camera-space depth into the clip
//! range consumed downstream.

use vstd::prelude::*;
use crate::error::MathError;
use crate::fixed::{fx_div, fx_div_s, fx_divi, fx_mul, fx_mul_s, iabs, tdiv, FX_MAX, SCALE};
use crate::mat::{Mat4, Vec4};
use crate::trig::{cos_fx, cos_s, sin_fx, sin_s};
use crate::vec3::{
    cross3, cross_v, dot3, dot3_s, in_range3, normalize_v, normalize3, Vec3, VEC_MAX,
};

verus! {

/// Magnitude bound on the components of the up hint.
pub const UP_MAX: i64 = 0x200_0000;

/// The camera's forward axis: the normalized look direction.
pub open spec fn view_f_s(dir: Vec3) -> Vec3 {
    normalize_v(dir)
}

/// The camera's right axis: the normalized cross of the up hint with the
/// forward axis.
pub open spec fn view_s_s(dir: Vec3, up: Vec3) -> Vec3 {
    normalize_v(cross_v(up, view_f_s(dir)))
}

/// The camera's recomputed up axis, orthogonal to forward and right even
/// when the input hint is not.
pub open spec fn view_u_s(dir: Vec3, up: Vec3) -> Vec3 {
    cross_v(view_f_s(dir), view_s_s(dir, up))
}

/// The look-at construction succeeds exactly when neither the look
/// direction nor its cross with the up hint is degenerate.
pub open spec fn view_ok_s(dir: Vec3, up: Vec3) -> bool {
    &&& dot3_s(dir, dir) != 0
    &&& dot3_s(cross_v(up, view_f_s(dir)), cross_v(up, view_f_s(dir))) != 0
}

/// The view matrix: columns carry the right, up and forward axes as
/// rows, and the last column carries the eye projected onto each axis,
/// negated, so the eye maps to the camera-space origin.
pub open spec fn view_mat_s(eye: Vec3, dir: Vec3, up: Vec3) -> Mat4 {
    let f = view_f_s(dir);
    let s = view_s_s(dir, up);
    let u = view_u_s(dir, up);
    Mat4 {
        c0: Vec4 { x: s.x, y: u.x, z: f.x, w: 0 },
        c1: Vec4 { x: s.y, y: u.y, z: f.y, w: 0 },
        c2: Vec4 { x: s.z, y: u.z, z: f.z, w: 0 },
        c3: Vec4 {
            x: (-dot3_s(eye, s)) as i64,
            y: (-dot3_s(eye, u)) as i64,
            z: (-dot3_s(eye, f)) as i64,
            w: SCALE,
        },
    }
}

/// Builds the view matrix from the eye position, the look direction and
/// the up hint, or reports a degenerate direction.
pub fn build_view(eye: Vec3, dir: Vec3, up: Vec3) -> (r: Result<Mat4, MathError>)
    requires
        in_range3(eye, VEC_MAX as int),
        in_range3(dir, VEC_MAX as int),
        in_range3(up, UP_MAX as int),
    ensures
        (r is Ok) == view_ok_s(dir, up),
        r matches Ok(m) ==> m == view_mat_s(eye, dir, up),
        r matches Err(e) ==> e == MathError::DegenerateVector,
{
    let f = match normalize3(dir) {
        Ok(f) => f,
        Err(e) => {
            return Err(e);
        },
    };
    proof {
        crate::vec3::lemma_cross_range2(up, f, UP_MAX as int, 2 * (SCALE as int));
    }
    let sr = cross3(up, f);
    let s = match normalize3(sr) {
        Ok(s) => s,
        Err(e) => {
            return Err(e);
        },
    };
    proof {
        crate::vec3::lemma_cross_range2(f, s, 2 * (SCALE as int), 2 * (SCALE as int));
    }
    let u = cross3(f, s);
    let px = -dot3(eye, s);
    let py = -dot3(eye, u);
    let pz = -dot3(eye, f);
    Ok(
        Mat4 {
            c0: Vec4 { x: s.x, y: u.x, z: f.x, w: 0 },
            c1: Vec4 { x: s.y, y: u.y, z: f.y, w: 0 },
            c2: Vec4 { x: s.z, y: u.z, z: f.z, w: 0 },
            c3: Vec4 { x: px, y: py, z: pz, w: SCALE },
        },
    )
}

/// The view matrix maps the eye itself to the camera-space origin: the
/// translation column holds exactly the negated projections of the eye
/// onto the camera axes, term for term, so transforming the homogeneous
/// eye point cancels to `(0, 0, 0, 1)` with no rounding residue.
pub proof fn lemma_view_maps_eye_to_origin(eye: Vec3, dir: Vec3, up: Vec3)
    requires
        in_range3(eye, VEC_MAX as int),
        in_range3(dir, VEC_MAX as int),
        in_range3(up, UP_MAX as int),
        view_ok_s(dir, up),
    ensures
        crate::mat::tp_x_s(view_mat_s(eye, dir, up), eye) == 0,
        crate::mat::tp_y_s(view_mat_s(eye, dir, up), eye) == 0,
        crate::mat::tp_z_s(view_mat_s(eye, dir, up), eye) == 0,
        crate::mat::tp_w_s(view_mat_s(eye, dir, up), eye) == SCALE as int,
{
    let s2 = 2 * (SCALE as int);
    crate::vec3::lemma_normalize_v_bounds(dir);
    let f = view_f_s(dir);
    crate::vec3::lemma_cross_v_bounds(up, f, UP_MAX as int, s2);
    let c = cross_v(up, f);
    assert(0x200_0000int * 131072 == 0x400_0000_0000int) by (nonlinear_arith);
    assert((UP_MAX as int) * s2 == 0x400_0000_0000int);
    assert(0x400_0000_0000int / 65536 == 0x400_0000int);
    crate::vec3::lemma_normalize_v_bounds(c);
    let s = view_s_s(dir, up);
    crate::vec3::lemma_cross_v_bounds(f, s, s2, s2);
    let u = view_u_s(dir, up);
    assert(131072int * 131072 == 0x4_0000_0000int) by (nonlinear_arith);
    assert(s2 * s2 == 0x4_0000_0000int);
    assert(0x4_0000_0000int / 65536 == 0x4_0000int);
    lemma_axis_dot_bounds(eye, s);
    lemma_axis_dot_bounds(eye, u);
    lemma_axis_dot_bounds(eye, f);
    let m = view_mat_s(eye, dir, up);
    crate::fixed::lemma_fx_mul_comm(s.x as int, eye.x as int);
    crate::fixed::lemma_fx_mul_comm(s.y as int, eye.y as int);
    crate::fixed::lemma_fx_mul_comm(s.z as int, eye.z as int);
    crate::fixed::lemma_fx_mul_comm(u.x as int, eye.x as int);
    crate::fixed::lemma_fx_mul_comm(u.y as int, eye.y as int);
    crate::fixed::lemma_fx_mul_comm(u.z as int, eye.z as int);
    crate::fixed::lemma_fx_mul_comm(f.x as int, eye.x as int);
    crate::fixed::lemma_fx_mul_comm(f.y as int, eye.y as int);
    crate::fixed::lemma_fx_mul_comm(f.z as int, eye.z as int);
    crate::fixed::lemma_fx_mul_zero(eye.x as int);
    crate::fixed::lemma_fx_mul_zero(eye.y as int);
    crate::fixed::lemma_fx_mul_zero(eye.z as int);
}

/// The projection of an in-range eye onto an axis whose components fit
/// a few hundred units stays far inside the scalar.
proof fn lemma_axis_dot_bounds(eye: Vec3, axis: Vec3)
    requires
        in_range3(eye, VEC_MAX as int),
        in_range3(axis, 0x80_0000_0000),
    ensures
        iabs(dot3_s(eye, axis)) <= 3 * 0x4_0000_0000_0000int,
{
    assert(0x800_0000int * 0x80_0000_0000 == 0x4_0000_0000_0000_0000int) by (nonlinear_arith);
    assert((VEC_MAX as int) * 0x80_0000_0000 == 0x4_0000_0000_0000_0000int);
    assert(0x4_0000_0000_0000_0000int / 65536 == 0x4_0000_0000_0000int);
    crate::fixed::lemma_fx_mul_s_bound2(eye.x as int, axis.x as int, VEC_MAX as int, 0x80_0000_0000);
    crate::fixed::lemma_fx_mul_s_bound2(eye.y as int, axis.y as int, VEC_MAX as int, 0x80_0000_0000);
    crate::fixed::lemma_fx_mul_s_bound2(eye.z as int, axis.z as int, VEC_MAX as int, 0x80_0000_0000);
}

/// Half the field of view, the angle whose tangent sets the focal term.
pub open spec fn half_fov_s(fovy: int) -> int {
    tdiv(fovy, 2)
}

/// The focal term `1 / tan(fovy / 2)`, computed as cotangent.
pub open spec fn focal_s(fovy: int) -> int {
    fx_div_s(cos_s(half_fov_s(fovy)), sin_s(half_fov_s(fovy)))
}

/// A frustum is usable when the depth planes are positive and ordered
/// and the half field of view has a sine of usable size (at least two
/// raw units, rejecting a view cone too thin to represent).
pub open spec fn frustum_ok_s(fovy: int, znear: int, zfar: int) -> bool {
    &&& 0 < znear < zfar
    &&& iabs(sin_s(half_fov_s(fovy))) >= 2
}

/// The symmetric perspective matrix: focal terms on the diagonal, the
/// depth ratio `(zfar + znear) / (zfar - znear)` with unit carry into
/// `w`, and the depth offset `-2 * zfar * znear / (zfar - znear)`.
pub open spec fn perspective_mat_s(aspect: int, fovy: int, znear: int, zfar: int) -> Mat4 {
    let f = focal_s(fovy);
    Mat4 {
        c0: Vec4 { x: fx_mul_s(f, aspect) as i64, y: 0, z: 0, w: 0 },
        c1: Vec4 { x: 0, y: f as i64, z: 0, w: 0 },
        c2: Vec4 { x: 0, y: 0, z: fx_div_s(zfar + znear, zfar - znear) as i64, w: SCALE },
        c3: Vec4 {
            x: 0,
            y: 0,
            z: (-fx_div_s(2 * fx_mul_s(zfar, znear), zfar - znear)) as i64,
            w: 0,
        },
    }
}

/// Magnitude bound on the depth planes handed to the perspective
/// builder (it stands for 16384).
pub const Z_MAX: i64 = 0x4000_0000;

/// Builds the perspective-projection matrix, or reports an invalid
/// frustum: depth planes that are not `0 < znear < zfar`, or a field of
/// view whose half-angle sine is too small to divide by.
pub fn build_perspective(aspect: i64, fovy: i64, znear: i64, zfar: i64) -> (r: Result<
    Mat4,
    MathError,
>)
    requires
        -FX_MAX <= aspect <= FX_MAX,
        fovy > -0x7fff_ffff_ffff_ffff,
        -Z_MAX <= znear <= Z_MAX,
        -Z_MAX <= zfar <= Z_MAX,
    ensures
        (r is Ok) == frustum_ok_s(fovy as int, znear as int, zfar as int),
        r matches Ok(m) ==> m == perspective_mat_s(aspect as int, fovy as int, znear as int, zfar as int),
        r matches Err(e) ==> e == MathError::InvalidFrustum,
{
    if !(0 < znear && znear < zfar) {
        return Err(MathError::InvalidFrustum);
    }
    let h = fx_divi(fovy, 2);
    let sh = sin_fx(h);
    let ch = cos_fx(h);
    if -1 <= sh && sh <= 1 {
        return Err(MathError::InvalidFrustum);
    }
    let f = fx_div(ch, sh);
    proof {
        assert(iabs(f as int) * 2 <= iabs(f as int) * iabs(sh as int)) by (nonlinear_arith)
            requires
                iabs(sh as int) >= 2,
                iabs(f as int) >= 0,
        ;
        assert(iabs(ch as int) * (SCALE as int) <= (SCALE as int) * (SCALE as int));
    }
    proof {
        crate::fixed::lemma_fx_mul_s_bound2(zfar as int, znear as int, Z_MAX as int, Z_MAX as int);
    }
    let depth_ratio = fx_div(zfar + znear, zfar - znear);
    let depth_offset = fx_div(2 * fx_mul(zfar, znear), zfar - znear);
    Ok(
        Mat4 {
            c0: Vec4 { x: fx_mul(f, aspect), y: 0, z: 0, w: 0 },
            c1: Vec4 { x: 0, y: f, z: 0, w: 0 },
            c2: Vec4 { x: 0, y: 0, z: depth_ratio, w: SCALE },
            c3: Vec4 { x: 0, y: 0, z: -depth_offset, w: 0 },
        },
    )
}

/// Any point on the camera-space forward axis in front of the camera
/// maps through a valid perspective matrix to a well-defined clip-space
/// point whose `w` is exactly the point's depth, hence positive: the
/// depth column carries one unit into `w`, and the off-axis terms all
/// vanish. (In this matrix convention the camera looks along positive
/// `z`, so "in front" means positive depth.)
pub proof fn lemma_perspective_forward_point(
    aspect: int,
    fovy: int,
    znear: int,
    zfar: int,
    zc: i64,
)
    requires
        frustum_ok_s(fovy, znear, zfar),
        zc > 0,
    ensures
        crate::mat::tp_x_s(
            perspective_mat_s(aspect, fovy, znear, zfar),
            Vec3 { x: 0, y: 0, z: zc },
        ) == 0,
        crate::mat::tp_y_s(
            perspective_mat_s(aspect, fovy, znear, zfar),
            Vec3 { x: 0, y: 0, z: zc },
        ) == 0,
        crate::mat::tp_w_s(
            perspective_mat_s(aspect, fovy, znear, zfar),
            Vec3 { x: 0, y: 0, z: zc },
        ) == zc as int,
{
    let m = perspective_mat_s(aspect, fovy, znear, zfar);
    let p = Vec3 { x: 0, y: 0, z: zc };
    crate::fixed::lemma_fx_mul_zero(m.c0.x as int);
    crate::fixed::lemma_fx_mul_zero(m.c1.x as int);
    crate::fixed::lemma_fx_mul_zero(m.c2.x as int);
    crate::fixed::lemma_fx_mul_zero(m.c0.y as int);
    crate::fixed::lemma_fx_mul_zero(m.c1.y as int);
    crate::fixed::lemma_fx_mul_zero(m.c2.y as int);
    crate::fixed::lemma_fx_mul_zero(m.c0.w as int);
    crate::fixed::lemma_fx_mul_zero(m.c1.w as int);
    crate::fixed::lemma_fx_mul_zero(zc as int);
    crate::fixed::lemma_fx_mul_one(zc as int);
}

/// The demo's field of view: a third of a half turn.
pub const FOVY_DEFAULT: i64 = 68629;

/// The demo's near plane (it stands for a tenth).
pub const ZNEAR_DEFAULT: i64 = 6554;

/// The demo's far plane (it stands for 1024).
pub const ZFAR_DEFAULT: i64 = 67108864;

/// The perspective matrix with the demo's fixed frustum, scaled by the
/// viewport's aspect ratio, as the original redraw step builds it.
pub fn perspective_matrix(aspect: i64) -> (r: Mat4)
    requires
        -FX_MAX <= aspect <= FX_MAX,
    ensures
        r == perspective_mat_s(
            aspect as int,
            FOVY_DEFAULT as int,
            ZNEAR_DEFAULT as int,
            ZFAR_DEFAULT as int,
        ),
{
    proof {
        lemma_default_frustum_ok();
    }
    let r = build_perspective(aspect, FOVY_DEFAULT, ZNEAR_DEFAULT, ZFAR_DEFAULT);
    match r {
        Ok(m) => m,
        Err(_) => {
            proof {
                assert(false);
            }
            crate::mat::identity4()
        },
    }
}

/// The demo's fixed frustum is valid, so `perspective_matrix` always
/// succeeds.
pub proof fn lemma_default_frustum_ok()
    ensures
        frustum_ok_s(FOVY_DEFAULT as int, ZNEAR_DEFAULT as int, ZFAR_DEFAULT as int),
        sin_s(half_fov_s(FOVY_DEFAULT as int)) == 32768,
{
    let h = half_fov_s(FOVY_DEFAULT as int);
    assert(68629int / 2 == 34314);
    assert(h == 34314);
    assert(34314 * 34314 == 1177450596int) by (nonlinear_arith);
    assert(1177450596int / 65536 == 17966);
    assert(fx_mul_s(34314, 34314) == 17966);
    assert(17966 * 34314 == 616485324int) by (nonlinear_arith);
    assert(616485324int / 65536 == 9406);
    assert(fx_mul_s(17966, 34314) == 9406);
    assert(9406 * 17966 == 168988196int) by (nonlinear_arith);
    assert(168988196int / 65536 == 2578);
    assert(fx_mul_s(9406, 17966) == 2578);
    assert(9406int / 6 == 1567);
    assert(tdiv(9406, 6) == 1567);
    assert(2578int / 120 == 21);
    assert(tdiv(2578, 120) == 21);
    assert(crate::trig::poly_sin_s(34314) == 34314 - 1567 + 21);
    assert(iabs(34314int) % (crate::trig::TWO_PI_FX as int) == 34314);
    assert(sin_s(34314) == 32768);
}

} // verus!
