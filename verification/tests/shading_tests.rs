//! Host-side checks of the per-fragment shading model: the cotangent
//! frame, the normal-map remap, the lighting terms and their edge
//! cases.

use render_core::error::MathError;
use render_core::fixed::{fx_max, fx_mul};
use render_core::shading::{
    cotangent_frame, nm_vec, pow16, shade_fragment, FragmentInput, Vec2,
};
use render_core::vec3::{dot3, normalize3, Vec3};
use render_core::SCALE;

fn flat_input() -> FragmentInput {
    // A flat patch facing +z with an axis-aligned texture mapping: the
    // cotangent frame works out to the identity basis exactly.
    FragmentInput {
        diffuse_color: Vec3 { x: SCALE / 2, y: SCALE / 4, z: SCALE / 8 },
        normal_sample: Vec3 { x: SCALE / 2, y: SCALE / 2, z: SCALE },
        v_normal: Vec3 { x: 0, y: 0, z: 2 * SCALE },
        v_position: Vec3 { x: SCALE, y: 0, z: 0 },
        dp1: Vec3 { x: SCALE, y: 0, z: 0 },
        dp2: Vec3 { x: 0, y: SCALE, z: 0 },
        duv1: Vec2 { x: SCALE, y: 0 },
        duv2: Vec2 { x: 0, y: SCALE },
        light: Vec3 { x: 0, y: 0, z: -SCALE },
    }
}

#[test]
fn normal_map_remap_negates_into_the_surface() {
    let r = nm_vec(Vec3 { x: 0, y: SCALE / 2, z: SCALE });
    assert_eq!(r, Vec3 { x: SCALE, y: 0, z: -SCALE });
}

#[test]
fn pow16_of_one_is_one_and_of_half_is_one_part() {
    assert_eq!(pow16(SCALE), SCALE);
    assert_eq!(pow16(SCALE / 2), 1);
    assert_eq!(pow16(0), 0);
    assert_eq!(pow16(-5 * SCALE), 0);
}

#[test]
fn cotangent_frame_is_identity_for_a_flat_patch() {
    let n = Vec3 { x: 0, y: 0, z: SCALE };
    let t = cotangent_frame(
        n,
        Vec3 { x: SCALE, y: 0, z: 0 },
        Vec3 { x: 0, y: SCALE, z: 0 },
        Vec2 { x: SCALE, y: 0 },
        Vec2 { x: 0, y: SCALE },
    )
    .unwrap();
    assert_eq!(t.c0, Vec3 { x: SCALE, y: 0, z: 0 });
    assert_eq!(t.c1, Vec3 { x: 0, y: SCALE, z: 0 });
    assert_eq!(t.c2, n);
}

#[test]
fn cotangent_frame_rejects_vanishing_derivatives() {
    let n = Vec3 { x: 0, y: 0, z: SCALE };
    let zero = Vec3 { x: 0, y: 0, z: 0 };
    let r = cotangent_frame(n, zero, zero, Vec2 { x: 0, y: 0 }, Vec2 { x: 0, y: 0 });
    assert_eq!(r, Err(MathError::DegenerateTangentFrame));
}

#[test]
fn parallel_light_passes_the_diffuse_texel_through() {
    // The perturbed normal is (0, 0, -1) and so is the light: the
    // diffuse cosine is exactly one unit, so the diffuse term equals
    // the texel and ambient and specular ride on top.
    let f = flat_input();
    let out = shade_fragment(f).unwrap();
    let rn = Vec3 { x: 0, y: 0, z: -SCALE };
    let lu = normalize3(f.light).unwrap();
    assert_eq!(dot3(rn, lu), SCALE);
    let amb = |c: i64| fx_mul(c, 6554);
    let cd = normalize3(Vec3 { x: -SCALE, y: 0, z: 0 }).unwrap();
    let half = normalize3(Vec3 { x: lu.x + cd.x, y: lu.y + cd.y, z: lu.z + cd.z }).unwrap();
    let sp = pow16(fx_max(dot3(half, rn), 0));
    assert_eq!(out.x, amb(f.diffuse_color.x) + f.diffuse_color.x + sp);
    assert_eq!(out.y, amb(f.diffuse_color.y) + f.diffuse_color.y + sp);
    assert_eq!(out.z, amb(f.diffuse_color.z) + f.diffuse_color.z + sp);
    assert_eq!(out.w, SCALE);
}

#[test]
fn antiparallel_light_zeroes_the_diffuse_term() {
    // Flip the light behind the surface: the diffuse cosine clamps to
    // zero, the half vector also faces away, and only ambient remains.
    let mut f = flat_input();
    f.light = Vec3 { x: 0, y: 0, z: SCALE };
    let out = shade_fragment(f).unwrap();
    let amb = |c: i64| fx_mul(c, 6554);
    assert_eq!(out.x, amb(f.diffuse_color.x));
    assert_eq!(out.y, amb(f.diffuse_color.y));
    assert_eq!(out.z, amb(f.diffuse_color.z));
}

#[test]
fn shading_rejects_a_zero_normal() {
    let mut f = flat_input();
    f.v_normal = Vec3 { x: 0, y: 0, z: 0 };
    assert_eq!(shade_fragment(f), Err(MathError::DegenerateVector));
}

#[test]
fn shading_rejects_a_degenerate_tangent_frame() {
    let mut f = flat_input();
    f.dp1 = Vec3 { x: 0, y: 0, z: 0 };
    f.dp2 = Vec3 { x: 0, y: 0, z: 0 };
    f.duv1 = Vec2 { x: 0, y: 0 };
    f.duv2 = Vec2 { x: 0, y: 0 };
    assert_eq!(shade_fragment(f), Err(MathError::DegenerateTangentFrame));
}

#[test]
fn shading_rejects_a_zero_light() {
    let mut f = flat_input();
    f.light = Vec3 { x: 0, y: 0, z: 0 };
    assert_eq!(shade_fragment(f), Err(MathError::DegenerateVector));
}

#[test]
fn ambient_is_a_tenth_of_the_texel() {
    // With the light edge-on, diffuse and specular both vanish and the
    // output is the ambient term alone.
    let mut f = flat_input();
    f.light = Vec3 { x: SCALE, y: 0, z: 0 };
    f.v_position = Vec3 { x: 0, y: SCALE, z: 0 };
    let out = shade_fragment(f).unwrap();
    let c = f.diffuse_color.x;
    assert_eq!(out.x, fx_mul(c, 6554));
    assert!((out.x as f64 / c as f64 - 0.1).abs() < 0.001);
}
