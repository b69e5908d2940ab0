//! The per-fragment shading model: a diffuse texel lit by one
//! directional light, with the normal perturbed through a tangent-space
//! normal map. The tangent basis (the cotangent frame) is built from the
//! screen-space derivatives of position and texture coordinate, so no
//! precomputed per-vertex tangents are needed. Specular is Blinn-Phong
//! with shininess 16, ambient is a tenth of the diffuse texel, and the
//! sum is left unclamped, as the demo leaves over-bright output to the
//! presentation layer.
//!
//! Everything here is a pure function of per-fragment inputs, so it is
//! testable on the host; the running demo evaluates the same formulas on
//! the graphics processor, per fragment in parallel.

use vstd::prelude::*;
use crate::error::MathError;
use crate::fixed::{clamp_s, fx_clamp, fx_div, fx_max, fx_mul, fx_mul_s, iabs, SCALE};
use crate::mat::{apply3_v, in_range_mat3, mat3_apply, Mat3, Vec4, NRM_MAX};
use crate::vec3::{
    add3, add_v, cross3, cross_v, dot3, dot3_s, in_range3, neg3, neg_v, normalize_v, normalize3,
    scale3, scale_v, Vec3, VEC_MAX,
};

verus! {

/// A screen-space derivative of the texture coordinate.
#[derive(Clone, Copy, Debug, PartialEq, Eq, Structural)]
pub struct Vec2 {
    pub x: i64,
    pub y: i64,
}

/// Magnitude bound on the shading inputs: positions, normals, the light
/// direction and the screen-space derivatives (it stands for 4).
pub const SHD_MAX: i64 = 262144;

/// The ambient factor: a tenth of the diffuse texel.
pub const AMBIENT_FX: i64 = 6554;

/// The tangent direction of the cotangent frame, before normalization:
/// the two perpendiculars weighted by the `x` derivatives of the
/// texture coordinate.
pub open spec fn tangent_s(normal: Vec3, dp1: Vec3, dp2: Vec3, duv1: Vec2, duv2: Vec2) -> Vec3 {
    add_v(
        scale_v(cross_v(dp2, normal), duv1.x as int),
        scale_v(cross_v(normal, dp1), duv2.x as int),
    )
}

/// The bitangent direction of the cotangent frame, before
/// normalization: the same perpendiculars weighted by the `y`
/// derivatives.
pub open spec fn bitangent_s(normal: Vec3, dp1: Vec3, dp2: Vec3, duv1: Vec2, duv2: Vec2) -> Vec3 {
    add_v(
        scale_v(cross_v(dp2, normal), duv1.y as int),
        scale_v(cross_v(normal, dp1), duv2.y as int),
    )
}

/// The larger of the two dot squares of the unnormalized tangent and
/// bitangent: the scale the frame is divided by.
pub open spec fn frame_max_s(normal: Vec3, dp1: Vec3, dp2: Vec3, duv1: Vec2, duv2: Vec2) -> int {
    let t = tangent_s(normal, dp1, dp2, duv1, duv2);
    let b = bitangent_s(normal, dp1, dp2, duv1, duv2);
    if dot3_s(t, t) >= dot3_s(b, b) {
        dot3_s(t, t)
    } else {
        dot3_s(b, b)
    }
}

/// The reciprocal square root that rescales the frame: one unit divided
/// by the fixed-point square root of the larger dot square.
pub open spec fn frame_inv_s(normal: Vec3, dp1: Vec3, dp2: Vec3, duv1: Vec2, duv2: Vec2) -> int {
    crate::fixed::fx_div_s(
        SCALE as int,
        crate::fixed::fx_sqrt_s(frame_max_s(normal, dp1, dp2, duv1, duv2)),
    )
}

/// The cotangent frame: rescaled tangent and bitangent columns and the
/// geometric normal as the third column.
pub open spec fn cotangent_frame_s(
    normal: Vec3,
    dp1: Vec3,
    dp2: Vec3,
    duv1: Vec2,
    duv2: Vec2,
) -> Mat3 {
    let inv = frame_inv_s(normal, dp1, dp2, duv1, duv2);
    Mat3 {
        c0: scale_v(tangent_s(normal, dp1, dp2, duv1, duv2), inv),
        c1: scale_v(bitangent_s(normal, dp1, dp2, duv1, duv2), inv),
        c2: normal,
    }
}

/// Builds the tangent-space basis from the geometric `normal` and the
/// screen-space derivatives `dp1`/`dp2` of the (negated) position and
/// `duv1`/`duv2` of the texture coordinate, or reports a degenerate
/// frame when both derivative directions have vanishing length.
pub fn cotangent_frame(normal: Vec3, dp1: Vec3, dp2: Vec3, duv1: Vec2, duv2: Vec2) -> (r: Result<
    Mat3,
    MathError,
>)
    requires
        in_range3(normal, 2 * (SCALE as int)),
        in_range3(dp1, SHD_MAX as int),
        in_range3(dp2, SHD_MAX as int),
        -SHD_MAX <= duv1.x <= SHD_MAX,
        -SHD_MAX <= duv1.y <= SHD_MAX,
        -SHD_MAX <= duv2.x <= SHD_MAX,
        -SHD_MAX <= duv2.y <= SHD_MAX,
    ensures
        (r is Ok) == (frame_max_s(normal, dp1, dp2, duv1, duv2) != 0),
        r matches Ok(t) ==> {
            &&& t == cotangent_frame_s(normal, dp1, dp2, duv1, duv2)
            &&& in_range_mat3(t, 2 * (SCALE as int))
        },
        r matches Err(e) ==> e == MathError::DegenerateTangentFrame,
{
    proof {
        crate::vec3::lemma_cross_range2(dp2, normal, SHD_MAX as int, 2 * (SCALE as int));
        crate::vec3::lemma_cross_range2(normal, dp1, 2 * (SCALE as int), SHD_MAX as int);
    }
    let dp2perp = cross3(dp2, normal);
    let dp1perp = cross3(normal, dp1);
    proof {
        lemma_weighted_range(dp2perp, duv1.x as int);
        lemma_weighted_range(dp1perp, duv2.x as int);
        lemma_weighted_range(dp2perp, duv1.y as int);
        lemma_weighted_range(dp1perp, duv2.y as int);
    }
    let t = add3(scale3(dp2perp, duv1.x), scale3(dp1perp, duv2.x));
    let b = add3(scale3(dp2perp, duv1.y), scale3(dp1perp, duv2.y));
    let dtt = dot3(t, t);
    let dbb = dot3(b, b);
    let m = fx_max(dtt, dbb);
    proof {
        crate::vec3::lemma_dot3_self_nonneg(t);
        crate::vec3::lemma_dot3_self_nonneg(b);
    }
    if m == 0 {
        return Err(MathError::DegenerateTangentFrame);
    }
    let l = crate::fixed::fx_sqrt(m);
    proof {
        assert(l >= 256) by (nonlinear_arith)
            requires
                (m as int) * (SCALE as int) < (l as int + 1) * (l as int + 1),
                m >= 1,
                l >= 0,
        ;
        assert(l <= 0x4000_0000_0000_0000) by (nonlinear_arith)
            requires
                (l as int) * (l as int) <= (m as int) * (SCALE as int),
                m <= 0xC0_0000_0000,
                l >= 0,
        ;
    }
    let inv = fx_div(SCALE, l);
    proof {
        assert(iabs(inv as int) * 256 <= iabs(inv as int) * (l as int)) by (nonlinear_arith)
            requires
                l >= 256,
                iabs(inv as int) >= 0,
        ;
        lemma_frame_column(t.x as int, dtt as int, m as int, l as int, inv as int);
        lemma_frame_column(t.y as int, dtt as int, m as int, l as int, inv as int);
        lemma_frame_column(t.z as int, dtt as int, m as int, l as int, inv as int);
        lemma_frame_column(b.x as int, dbb as int, m as int, l as int, inv as int);
        lemma_frame_column(b.y as int, dbb as int, m as int, l as int, inv as int);
        lemma_frame_column(b.z as int, dbb as int, m as int, l as int, inv as int);
    }
    Ok(Mat3 { c0: scale3(t, inv), c1: scale3(b, inv), c2: normal })
}

/// A perpendicular weighted by a texture-coordinate derivative stays
/// inside the vector range.
proof fn lemma_weighted_range(p: Vec3, k: int)
    requires
        in_range3(p, 16 * (SCALE as int)),
        iabs(k) <= SHD_MAX as int,
    ensures
        iabs(fx_mul_s(p.x as int, k)) <= 64 * (SCALE as int),
        iabs(fx_mul_s(p.y as int, k)) <= 64 * (SCALE as int),
        iabs(fx_mul_s(p.z as int, k)) <= 64 * (SCALE as int),
{
    crate::fixed::lemma_fx_mul_s_bound2(p.x as int, k, 16 * (SCALE as int), SHD_MAX as int);
    crate::fixed::lemma_fx_mul_s_bound2(p.y as int, k, 16 * (SCALE as int), SHD_MAX as int);
    crate::fixed::lemma_fx_mul_s_bound2(p.z as int, k, 16 * (SCALE as int), SHD_MAX as int);
}

/// A frame component divided through the reciprocal square root of the
/// frame's larger dot square stays within twice the unit scale.
proof fn lemma_frame_column(ti: int, t: int, m: int, l: int, inv: int)
    requires
        l >= 256,
        0 <= t <= m,
        crate::fixed::fx_mul_s(ti, ti) >= 0,
        crate::fixed::fx_mul_s(ti, ti) <= t,
        m * (SCALE as int) < (l + 1) * (l + 1),
        iabs(inv) * iabs(l) <= (SCALE as int) * (SCALE as int),
    ensures
        iabs(fx_mul_s(ti, inv)) <= 2 * (SCALE as int),
{
    let s = SCALE as int;
    crate::fixed::lemma_abs_mul(ti, ti);
    assert(ti * ti >= 0 && iabs(ti) * iabs(ti) == ti * ti) by (nonlinear_arith);
    assert(fx_mul_s(ti, ti) == (ti * ti) / s);
    crate::fixed::lemma_abs_mul(ti, inv);
    crate::fixed::lemma_tdiv_abs(ti * inv, s);
    lemma_inv_scale(iabs(ti), fx_mul_s(ti, ti), m, l, iabs(inv), iabs(fx_mul_s(ti, inv)));
}

/// The nonlinear core of the frame-column bound, over plain magnitudes:
/// a component whose square contributes to the dot square, scaled by a
/// reciprocal square root, is at most two units.
proof fn lemma_inv_scale(av: int, t: int, m: int, l: int, ainv: int, au: int)
    by (nonlinear_arith)
    requires
        l >= 256,
        0 <= av,
        0 <= ainv,
        0 <= au,
        0 <= t <= m,
        t == (av * av) / (SCALE as int),
        m * (SCALE as int) < (l + 1) * (l + 1),
        ainv * l <= (SCALE as int) * (SCALE as int),
        au * (SCALE as int) <= av * ainv,
    ensures
        au <= 2 * (SCALE as int),
{
    let s = SCALE as int;
    assert(av * av < (t + 1) * s);
    assert(av * av < (l + 1) * (l + 1) + s);
    assert(av <= l + 129);
    assert(au * s * l <= av * ainv * l);
    assert(av * ainv * l <= av * (s * s));
    assert(au * l <= av * s);
    assert(au * l <= (l + 129) * s);
}

/// The perturbation read from the normal map: the texel remapped from
/// `[0, 1]` to `[-1, 1]` and negated, since the map encodes an
/// into-the-surface convention.
pub open spec fn nm_vec_s(ns: Vec3) -> Vec3 {
    Vec3 {
        x: (-(2 * ns.x - SCALE as int)) as i64,
        y: (-(2 * ns.y - SCALE as int)) as i64,
        z: (-(2 * ns.z - SCALE as int)) as i64,
    }
}

/// Remaps a normal-map texel and negates it.
pub fn nm_vec(ns: Vec3) -> (r: Vec3)
    requires
        in_range3(ns, SCALE as int),
    ensures
        r == nm_vec_s(ns),
        in_range3(r, 3 * (SCALE as int)),
{
    Vec3 {
        x: -(ns.x + ns.x - SCALE),
        y: -(ns.y + ns.y - SCALE),
        z: -(ns.z + ns.z - SCALE),
    }
}

/// Blinn-Phong shininess: the clamped specular cosine raised to the
/// sixteenth power by four squarings. The base is a cosine, so it is
/// clamped to two units first; that keeps the repeated squares inside
/// the scalar and only bites on degenerate quantization artifacts.
pub open spec fn pow16_s(p: int) -> int {
    let q = clamp_s(p, 0, 2 * (SCALE as int));
    let q2 = fx_mul_s(q, q);
    let q4 = fx_mul_s(q2, q2);
    let q8 = fx_mul_s(q4, q4);
    fx_mul_s(q8, q8)
}

/// The clamped specular cosine raised to the sixteenth power.
pub fn pow16(p: i64) -> (r: i64)
    ensures
        r == pow16_s(p as int),
        0 <= r <= 0x1_0000_0000,
{
    let q = fx_clamp(p, 0, 2 * SCALE);
    proof {
        crate::fixed::lemma_fx_mul_s_bound2(q as int, q as int, 2 * (SCALE as int), 2 * (
        SCALE as int));
    }
    let q2 = fx_mul(q, q);
    proof {
        lemma_square_nonneg(q as int);
        crate::fixed::lemma_fx_mul_s_bound2(q2 as int, q2 as int, 4 * (SCALE as int), 4 * (
        SCALE as int));
    }
    let q4 = fx_mul(q2, q2);
    proof {
        lemma_square_nonneg(q2 as int);
        crate::fixed::lemma_fx_mul_s_bound2(q4 as int, q4 as int, 16 * (SCALE as int), 16 * (
        SCALE as int));
    }
    let q8 = fx_mul(q4, q4);
    proof {
        lemma_square_nonneg(q4 as int);
        assert((256 * (SCALE as int)) * (256 * (SCALE as int)) == 281474976710656int)
            by (nonlinear_arith);
        assert(281474976710656int / 65536 == 0x1_0000_0000int);
        crate::fixed::lemma_fx_mul_s_bound2(q8 as int, q8 as int, 256 * (SCALE as int), 256 * (
        SCALE as int));
        lemma_square_nonneg(q8 as int);
    }
    fx_mul(q8, q8)
}

/// Everything one fragment's shading depends on: the two sampled
/// texels, the interpolated normal and position, the screen-space
/// derivatives of the negated position and of the texture coordinate,
/// and the light direction.
#[derive(Clone, Copy, Debug, PartialEq, Eq, Structural)]
pub struct FragmentInput {
    pub diffuse_color: Vec3,
    pub normal_sample: Vec3,
    pub v_normal: Vec3,
    pub v_position: Vec3,
    pub dp1: Vec3,
    pub dp2: Vec3,
    pub duv1: Vec2,
    pub duv2: Vec2,
    pub light: Vec3,
}

/// The input ranges the shading step works on: texels in `[0, 1]`,
/// geometry within the shading bound.
pub open spec fn frag_in_range_s(f: FragmentInput) -> bool {
    &&& 0 <= f.diffuse_color.x <= SCALE && 0 <= f.diffuse_color.y <= SCALE && 0
        <= f.diffuse_color.z <= SCALE
    &&& 0 <= f.normal_sample.x <= SCALE && 0 <= f.normal_sample.y <= SCALE && 0
        <= f.normal_sample.z <= SCALE
    &&& in_range3(f.v_normal, SHD_MAX as int)
    &&& in_range3(f.v_position, SHD_MAX as int)
    &&& in_range3(f.dp1, SHD_MAX as int)
    &&& in_range3(f.dp2, SHD_MAX as int)
    &&& in_range3(f.light, SHD_MAX as int)
    &&& -SHD_MAX <= f.duv1.x <= SHD_MAX && -SHD_MAX <= f.duv1.y <= SHD_MAX
    &&& -SHD_MAX <= f.duv2.x <= SHD_MAX && -SHD_MAX <= f.duv2.y <= SHD_MAX
}

/// The unit geometric normal.
pub open spec fn normal_unit_s(f: FragmentInput) -> Vec3 {
    normalize_v(f.v_normal)
}

/// The fragment's cotangent frame.
pub open spec fn tbn_s(f: FragmentInput) -> Mat3 {
    cotangent_frame_s(normal_unit_s(f), f.dp1, f.dp2, f.duv1, f.duv2)
}

/// The perturbation carried into camera space, before normalization.
pub open spec fn perturbed_s(f: FragmentInput) -> Vec3 {
    apply3_v(tbn_s(f), nm_vec_s(f.normal_sample))
}

/// The perturbed unit normal the lighting terms use.
pub open spec fn real_normal_s(f: FragmentInput) -> Vec3 {
    normalize_v(perturbed_s(f))
}

/// The unit light direction.
pub open spec fn light_unit_s(f: FragmentInput) -> Vec3 {
    normalize_v(f.light)
}

/// The diffuse intensity: the cosine between the perturbed normal and
/// the light, clamped at zero so back-facing surfaces go dark instead
/// of negative.
pub open spec fn diffuse_s(f: FragmentInput) -> int {
    let d = dot3_s(real_normal_s(f), light_unit_s(f));
    if d >= 0 {
        d
    } else {
        0
    }
}

/// The unit direction from the fragment toward the camera.
pub open spec fn camera_dir_s(f: FragmentInput) -> Vec3 {
    normalize_v(neg_v(f.v_position))
}

/// The Blinn-Phong half vector between light and view directions.
pub open spec fn half_dir_s(f: FragmentInput) -> Vec3 {
    normalize_v(add_v(light_unit_s(f), camera_dir_s(f)))
}

/// The specular cosine, clamped at zero.
pub open spec fn specular_base_s(f: FragmentInput) -> int {
    let d = dot3_s(half_dir_s(f), real_normal_s(f));
    if d >= 0 {
        d
    } else {
        0
    }
}

/// The specular intensity: the clamped cosine to the sixteenth power.
pub open spec fn specular_s(f: FragmentInput) -> int {
    pow16_s(specular_base_s(f))
}

/// The ambient term: a tenth of the diffuse texel.
pub open spec fn ambient_s(f: FragmentInput) -> Vec3 {
    scale_v(f.diffuse_color, AMBIENT_FX as int)
}

/// The diffuse contribution: the intensity times the diffuse texel,
/// channel by channel.
pub open spec fn diffuse_contrib_s(f: FragmentInput) -> Vec3 {
    Vec3 {
        x: fx_mul_s(diffuse_s(f), f.diffuse_color.x as int) as i64,
        y: fx_mul_s(diffuse_s(f), f.diffuse_color.y as int) as i64,
        z: fx_mul_s(diffuse_s(f), f.diffuse_color.z as int) as i64,
    }
}

/// Shading succeeds when every direction it normalizes has nonzero
/// fixed-point length and the tangent frame is usable.
pub open spec fn shade_ok_s(f: FragmentInput) -> bool {
    &&& dot3_s(f.v_normal, f.v_normal) != 0
    &&& frame_max_s(normal_unit_s(f), f.dp1, f.dp2, f.duv1, f.duv2) != 0
    &&& dot3_s(perturbed_s(f), perturbed_s(f)) != 0
    &&& dot3_s(f.light, f.light) != 0
    &&& dot3_s(neg_v(f.v_position), neg_v(f.v_position)) != 0
    &&& dot3_s(add_v(light_unit_s(f), camera_dir_s(f)), add_v(light_unit_s(f), camera_dir_s(f)))
        != 0
}

/// Which error the shading step reports, in evaluation order.
pub open spec fn shade_err_s(f: FragmentInput) -> MathError {
    if dot3_s(f.v_normal, f.v_normal) != 0 && frame_max_s(
        normal_unit_s(f),
        f.dp1,
        f.dp2,
        f.duv1,
        f.duv2,
    ) == 0 {
        MathError::DegenerateTangentFrame
    } else {
        MathError::DegenerateVector
    }
}

/// The shaded color: ambient plus diffuse contribution plus the white
/// specular highlight, channel by channel, with a unit alpha. The sum is
/// not clamped to the display range; over-bright output is left to the
/// presentation layer, as in the demo.
pub open spec fn shade_color_s(f: FragmentInput) -> Vec4 {
    let amb = ambient_s(f);
    let dif = diffuse_contrib_s(f);
    let sp = specular_s(f);
    Vec4 {
        x: (amb.x + dif.x + sp) as i64,
        y: (amb.y + dif.y + sp) as i64,
        z: (amb.z + dif.z + sp) as i64,
        w: SCALE,
    }
}

/// Shades one fragment, or reports the degenerate input it refused:
/// a zero-length normal, light, view or half direction, or a tangent
/// frame with no usable derivative.
pub fn shade_fragment(f: FragmentInput) -> (r: Result<Vec4, MathError>)
    requires
        frag_in_range_s(f),
    ensures
        (r is Ok) == shade_ok_s(f),
        r matches Ok(c) ==> c == shade_color_s(f),
        r matches Err(e) ==> e == shade_err_s(f),
{
    proof {
        assert((SCALE as int) * (AMBIENT_FX as int) == 429522944int) by (nonlinear_arith);
        assert(429522944int / 65536 == 6554);
        crate::fixed::lemma_fx_mul_s_bound2(
            f.diffuse_color.x as int,
            AMBIENT_FX as int,
            SCALE as int,
            AMBIENT_FX as int,
        );
        crate::fixed::lemma_fx_mul_s_bound2(
            f.diffuse_color.y as int,
            AMBIENT_FX as int,
            SCALE as int,
            AMBIENT_FX as int,
        );
        crate::fixed::lemma_fx_mul_s_bound2(
            f.diffuse_color.z as int,
            AMBIENT_FX as int,
            SCALE as int,
            AMBIENT_FX as int,
        );
    }
    let ambient = scale3(f.diffuse_color, AMBIENT_FX);
    let n_unit = match normalize3(f.v_normal) {
        Ok(n) => n,
        Err(e) => {
            return Err(e);
        },
    };
    let tbn = match cotangent_frame(n_unit, f.dp1, f.dp2, f.duv1, f.duv2) {
        Ok(t) => t,
        Err(e) => {
            return Err(e);
        },
    };
    let pn = mat3_apply(tbn, nm_vec(f.normal_sample));
    let rn = match normalize3(pn) {
        Ok(n) => n,
        Err(e) => {
            return Err(e);
        },
    };
    let lu = match normalize3(f.light) {
        Ok(l) => l,
        Err(e) => {
            return Err(e);
        },
    };
    proof {
        lemma_unit_dot_range(rn, lu);
    }
    let diffuse = fx_max(dot3(rn, lu), 0);
    let cd = match normalize3(neg3(f.v_position)) {
        Ok(c) => c,
        Err(e) => {
            return Err(e);
        },
    };
    let half = match normalize3(add3(lu, cd)) {
        Ok(h) => h,
        Err(e) => {
            return Err(e);
        },
    };
    proof {
        lemma_unit_dot_range(half, rn);
        assert((12 * (SCALE as int)) * (SCALE as int) == 51539607552int) by (nonlinear_arith);
        assert(51539607552int / 65536 == 786432);
        crate::fixed::lemma_fx_mul_s_bound2(
            diffuse as int,
            f.diffuse_color.x as int,
            12 * (SCALE as int),
            SCALE as int,
        );
        crate::fixed::lemma_fx_mul_s_bound2(
            diffuse as int,
            f.diffuse_color.y as int,
            12 * (SCALE as int),
            SCALE as int,
        );
        crate::fixed::lemma_fx_mul_s_bound2(
            diffuse as int,
            f.diffuse_color.z as int,
            12 * (SCALE as int),
            SCALE as int,
        );
    }
    let sp = pow16(fx_max(dot3(half, rn), 0));
    Ok(
        Vec4 {
            x: ambient.x + fx_mul(diffuse, f.diffuse_color.x) + sp,
            y: ambient.y + fx_mul(diffuse, f.diffuse_color.y) + sp,
            z: ambient.z + fx_mul(diffuse, f.diffuse_color.z) + sp,
            w: SCALE,
        },
    )
}

/// The dot product of two normalized vectors stays within twelve units.
proof fn lemma_unit_dot_range(a: Vec3, b: Vec3)
    requires
        in_range3(a, 2 * (SCALE as int)),
        in_range3(b, 2 * (SCALE as int)),
    ensures
        iabs(dot3_s(a, b)) <= 12 * (SCALE as int),
{
    assert((2 * (SCALE as int)) * (2 * (SCALE as int)) == 0x4_0000_0000int) by (nonlinear_arith);
    assert(0x4_0000_0000int / 65536 == 262144);
    crate::fixed::lemma_fx_mul_s_bound2(
        a.x as int,
        b.x as int,
        2 * (SCALE as int),
        2 * (SCALE as int),
    );
    crate::fixed::lemma_fx_mul_s_bound2(
        a.y as int,
        b.y as int,
        2 * (SCALE as int),
        2 * (SCALE as int),
    );
    crate::fixed::lemma_fx_mul_s_bound2(
        a.z as int,
        b.z as int,
        2 * (SCALE as int),
        2 * (SCALE as int),
    );
}

/// When the light direction is parallel to the perturbed normal the
/// diffuse cosine is one whole unit, and the diffuse contribution is
/// then exactly the diffuse texel: multiplying by one is exact.
pub proof fn lemma_diffuse_parallel(f: FragmentInput)
    requires
        diffuse_s(f) == SCALE as int,
    ensures
        diffuse_contrib_s(f) == f.diffuse_color,
{
    crate::fixed::lemma_fx_mul_one(f.diffuse_color.x as int);
    crate::fixed::lemma_fx_mul_one(f.diffuse_color.y as int);
    crate::fixed::lemma_fx_mul_one(f.diffuse_color.z as int);
}

/// When the light direction points away from the perturbed normal the
/// cosine clamps to zero, and the diffuse contribution is exactly zero
/// in every channel.
pub proof fn lemma_diffuse_antiparallel(f: FragmentInput)
    requires
        dot3_s(real_normal_s(f), light_unit_s(f)) <= 0,
    ensures
        diffuse_contrib_s(f) == (Vec3 { x: 0, y: 0, z: 0 }),
{
    assert(diffuse_s(f) == 0);
    crate::fixed::lemma_fx_mul_zero(f.diffuse_color.x as int);
    crate::fixed::lemma_fx_mul_zero(f.diffuse_color.y as int);
    crate::fixed::lemma_fx_mul_zero(f.diffuse_color.z as int);
}

/// A fixed-point square is nonnegative.
proof fn lemma_square_nonneg(q: int)
    ensures
        fx_mul_s(q, q) >= 0,
{
    crate::fixed::lemma_abs_mul(q, q);
    assert(q * q >= 0 && iabs(q) * iabs(q) == q * q) by (nonlinear_arith);
    crate::fixed::lemma_tdiv_abs(q * q, SCALE as int);
    vstd::arithmetic::div_mod::lemma_div_pos_is_pos(q * q, SCALE as int);
}

} // verus!
