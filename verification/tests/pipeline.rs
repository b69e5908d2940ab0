//! Host-side checks of the transform pipeline: the fixed-point scalar,
//! the camera builders, the animator and the frame driver.

use render_core::animator::{build_model_rotation, rotation_y};
use render_core::camera::{build_perspective, build_view, perspective_matrix};
use render_core::error::MathError;
use render_core::fixed::{fx_div, fx_divi, fx_mul, fx_sqrt};
use render_core::frame::{render_frame, RenderSession};
use render_core::mat::{det3, identity4, mat4_mul, transform_point, transpose_inverse3x3};
use render_core::trig::{cos_fx, sin_fx, PI_FX, TWO_PI_FX};
use render_core::vec3::{add3, cross3, dot3, length3, neg3, normalize3, scale3, sub3, Vec3};
use render_core::vertex::quad_vertices;
use render_core::SCALE;

fn to_f(r: i64) -> f64 {
    r as f64 / 65536.0
}

fn fx(v: f64) -> i64 {
    (v * 65536.0).round() as i64
}

#[test]
fn fixed_point_products_are_exact() {
    assert_eq!(fx_mul(3 * SCALE, 2 * SCALE), 6 * SCALE);
    assert_eq!(fx_mul(-3 * SCALE, 2 * SCALE), -6 * SCALE);
    assert_eq!(fx_mul(1, 1), 0);
    assert_eq!(fx_div(SCALE, 2 * SCALE), SCALE / 2);
    assert_eq!(fx_div(-SCALE, 2 * SCALE), -SCALE / 2);
    assert_eq!(fx_divi(-7, 2), -3);
    assert_eq!(fx_divi(7, 2), 3);
}

#[test]
fn fixed_point_square_roots() {
    assert_eq!(fx_sqrt(0), 0);
    assert_eq!(fx_sqrt(SCALE), SCALE);
    assert_eq!(fx_sqrt(4 * SCALE), 2 * SCALE);
    let r = fx_sqrt(2 * SCALE);
    assert!((to_f(r) - 2.0f64.sqrt()).abs() < 0.001);
}

#[test]
fn sine_and_cosine_track_the_real_functions() {
    for &a in &[0.0f64, 0.3, 1.0, 1.5707963, 2.5, 3.1415926, 4.0, 5.9, 6.2831853, 9.0] {
        let s = sin_fx(fx(a));
        let c = cos_fx(fx(a));
        assert!((to_f(s) - a.sin()).abs() < 0.01, "sin at {a}");
        assert!((to_f(c) - a.cos()).abs() < 0.01, "cos at {a}");
    }
    assert_eq!(sin_fx(0), 0);
    assert_eq!(cos_fx(0), SCALE);
    assert_eq!(sin_fx(-fx(1.0)), -sin_fx(fx(1.0)));
}

#[test]
fn normalize_gives_unit_length() {
    let v = Vec3 { x: 3 * SCALE, y: 4 * SCALE, z: 0 };
    let u = normalize3(v).unwrap();
    assert!((to_f(u.x) - 0.6).abs() < 0.001);
    assert!((to_f(u.y) - 0.8).abs() < 0.001);
    assert_eq!(u.z, 0);
    let len = length3(u);
    assert!((to_f(len) - 1.0).abs() < 0.001);
    let w = Vec3 { x: fx(0.2), y: fx(-1.3), z: fx(2.7) };
    let uw = normalize3(w).unwrap();
    assert!((to_f(length3(uw)) - 1.0).abs() < 0.001);
}

#[test]
fn normalize_rejects_the_zero_vector() {
    let z = Vec3 { x: 0, y: 0, z: 0 };
    assert_eq!(normalize3(z), Err(MathError::DegenerateVector));
    let tiny = Vec3 { x: 1, y: 0, z: 0 };
    assert_eq!(normalize3(tiny), Err(MathError::DegenerateVector));
}

#[test]
fn view_matrix_maps_the_eye_to_the_origin() {
    let eye = Vec3 { x: fx(0.5), y: fx(0.2), z: fx(-3.0) };
    let dir = Vec3 { x: fx(-0.5), y: fx(-0.2), z: fx(3.0) };
    let up = Vec3 { x: 0, y: SCALE, z: 0 };
    let view = build_view(eye, dir, up).unwrap();
    let p = transform_point(view, eye);
    assert_eq!(p.x, 0);
    assert_eq!(p.y, 0);
    assert_eq!(p.z, 0);
    assert_eq!(p.w, SCALE);
}

#[test]
fn view_matrix_rejects_degenerate_directions() {
    let eye = Vec3 { x: 0, y: 0, z: 0 };
    let up = Vec3 { x: 0, y: SCALE, z: 0 };
    let zero = Vec3 { x: 0, y: 0, z: 0 };
    assert_eq!(build_view(eye, zero, up), Err(MathError::DegenerateVector));
    let parallel = Vec3 { x: 0, y: 2 * SCALE, z: 0 };
    assert_eq!(build_view(eye, parallel, up), Err(MathError::DegenerateVector));
}

#[test]
fn perspective_maps_the_forward_axis_point_with_positive_w() {
    let m = build_perspective(SCALE, PI_FX / 3, fx(0.1), fx(1024.0)).unwrap();
    let p = transform_point(m, Vec3 { x: 0, y: 0, z: SCALE });
    assert_eq!(p.x, 0);
    assert_eq!(p.y, 0);
    assert_eq!(p.w, SCALE);
    assert!(p.w > 0);
    let focal = m.c1.y;
    assert!((to_f(focal) - 3.0f64.sqrt()).abs() < 0.01);
    let depth_ratio = m.c2.z;
    assert!((to_f(depth_ratio) - (1024.0 + 0.1) / (1024.0 - 0.1)).abs() < 0.01);
}

#[test]
fn perspective_rejects_invalid_frustums() {
    assert_eq!(
        build_perspective(SCALE, PI_FX / 3, fx(10.0), fx(1.0)),
        Err(MathError::InvalidFrustum)
    );
    assert_eq!(
        build_perspective(SCALE, PI_FX / 3, 0, fx(1024.0)),
        Err(MathError::InvalidFrustum)
    );
    assert_eq!(
        build_perspective(SCALE, PI_FX / 3, fx(-1.0), fx(1024.0)),
        Err(MathError::InvalidFrustum)
    );
    assert_eq!(build_perspective(SCALE, 0, fx(0.1), fx(1024.0)), Err(MathError::InvalidFrustum));
}

#[test]
fn default_perspective_matches_the_general_builder() {
    let m = perspective_matrix(SCALE);
    let g = build_perspective(SCALE, 68629, 6554, 67108864).unwrap();
    assert_eq!(m, g);
}

#[test]
fn animator_is_identity_at_the_start_of_time() {
    assert_eq!(build_model_rotation(0), identity4());
}

#[test]
fn animator_returns_to_identity_when_the_sine_vanishes() {
    // At this elapsed time the doubled argument is a whole number of
    // turns, so the oscillation's sine is exactly zero again.
    assert_eq!(build_model_rotation(TWO_PI_FX), identity4());
}

#[test]
fn animator_wobbles_rather_than_spins() {
    // angle(t) = sin(2 t): at t = 0.25 the yaw is sin(0.5) ~ 0.479 rad.
    let m = build_model_rotation(fx(0.25));
    let expected = (0.5f64).sin();
    assert!((to_f(m.c0.x) - expected.cos()).abs() < 0.02);
    assert!((to_f(m.c0.z) - expected.sin()).abs() < 0.02);
    assert_eq!(m.c1.y, SCALE);
}

#[test]
fn rotation_layout_matches_the_demo() {
    let c = cos_fx(fx(0.7));
    let s = sin_fx(fx(0.7));
    let m = rotation_y(c, s);
    assert_eq!(m.c0.x, c);
    assert_eq!(m.c0.z, s);
    assert_eq!(m.c2.x, -s);
    assert_eq!(m.c2.z, c);
    assert_eq!(m.c3.w, SCALE);
}

#[test]
fn normal_matrix_of_a_quarter_turn_is_the_rotation() {
    let m = rotation_y(0, SCALE);
    assert_eq!(det3(m), SCALE);
    let n = transpose_inverse3x3(m);
    assert_eq!(n.c0.x, m.c0.x);
    assert_eq!(n.c0.y, m.c0.y);
    assert_eq!(n.c0.z, m.c0.z);
    assert_eq!(n.c1.x, m.c1.x);
    assert_eq!(n.c1.y, m.c1.y);
    assert_eq!(n.c1.z, m.c1.z);
    assert_eq!(n.c2.x, m.c2.x);
    assert_eq!(n.c2.y, m.c2.y);
    assert_eq!(n.c2.z, m.c2.z);
}

#[test]
fn normal_matrix_round_trips_a_general_rotation_within_tolerance() {
    let c = cos_fx(fx(0.6));
    let s = sin_fx(fx(0.6));
    let m = rotation_y(c, s);
    assert!(det3(m) != 0);
    let n = transpose_inverse3x3(m);
    let pairs = [
        (n.c0.x, m.c0.x),
        (n.c0.y, m.c0.y),
        (n.c0.z, m.c0.z),
        (n.c1.x, m.c1.x),
        (n.c1.y, m.c1.y),
        (n.c1.z, m.c1.z),
        (n.c2.x, m.c2.x),
        (n.c2.y, m.c2.y),
        (n.c2.z, m.c2.z),
    ];
    for (got, want) in pairs {
        assert!((to_f(got) - to_f(want)).abs() < 0.01);
    }
}

#[test]
fn identity_times_any_matrix_is_that_matrix() {
    let m = perspective_matrix(SCALE);
    assert_eq!(mat4_mul(identity4(), m), m);
    assert_eq!(mat4_mul(m, identity4()), m);
}

#[test]
fn transforming_by_the_identity_keeps_the_point() {
    let p = Vec3 { x: fx(1.5), y: fx(-2.0), z: fx(0.25) };
    let q = transform_point(identity4(), p);
    assert_eq!(q.x, p.x);
    assert_eq!(q.y, p.y);
    assert_eq!(q.z, p.z);
    assert_eq!(q.w, SCALE);
}

#[test]
fn frame_driver_assembles_the_demo_recipe() {
    let session = RenderSession {
        diffuse_texture: 7,
        normal_texture: 9,
        light: Vec3 { x: -SCALE, y: fx(0.4), z: fx(0.9) },
    };
    let plan = render_frame(&session, 800, 600, 0).unwrap();
    assert_eq!(plan.uniforms.model, identity4());
    let aspect = fx_div(600 * SCALE, 800 * SCALE);
    assert_eq!(plan.uniforms.perspective, perspective_matrix(aspect));
    assert_eq!(plan.uniforms.diffuse_texture, 7);
    assert_eq!(plan.uniforms.normal_texture, 9);
    assert_eq!(plan.uniforms.light, session.light);
    assert!(plan.depth_test_less);
    assert!(plan.depth_write);
    assert!(!plan.backface_culling);
    assert!(plan.triangle_strip);
    assert_eq!(plan.clear_depth, SCALE);
    assert_eq!(plan.clear_color.z, SCALE);
    assert_eq!(plan.clear_color.x, 0);
    let eye = Vec3 { x: fx(0.5), y: fx(0.2), z: fx(-3.0) };
    let at_origin = transform_point(plan.uniforms.view, eye);
    assert_eq!((at_origin.x, at_origin.y, at_origin.z, at_origin.w), (0, 0, 0, SCALE));
}

#[test]
fn quad_covers_the_unit_square() {
    let q = quad_vertices();
    assert_eq!(q.len(), 4);
    assert_eq!(q[0].position, Vec3 { x: -SCALE, y: SCALE, z: 0 });
    assert_eq!(q[3].position, Vec3 { x: SCALE, y: -SCALE, z: 0 });
    for v in &q {
        assert_eq!(v.normal, Vec3 { x: 0, y: 0, z: -SCALE });
    }
    assert_eq!((q[2].tex_u, q[2].tex_v), (0, 0));
    assert_eq!((q[1].tex_u, q[1].tex_v), (SCALE, SCALE));
}

#[test]
fn matrices_stay_finite_for_extreme_aspect_ratios() {
    let tall = perspective_matrix(fx(100.0));
    assert!((to_f(tall.c0.x) - 100.0 * 3.0f64.sqrt()).abs() < 1.0);
    let wide = perspective_matrix(fx(0.01));
    assert!(to_f(wide.c0.x) > 0.0);
}

#[test]
fn vector_operations_compute_exact_values() {
    let a = Vec3 { x: SCALE, y: 2 * SCALE, z: -SCALE };
    let b = Vec3 { x: 3 * SCALE, y: -SCALE, z: SCALE / 2 };
    assert_eq!(add3(a, b), Vec3 { x: 4 * SCALE, y: SCALE, z: -SCALE / 2 });
    assert_eq!(sub3(a, b), Vec3 { x: -2 * SCALE, y: 3 * SCALE, z: -3 * SCALE / 2 });
    assert_eq!(neg3(a), Vec3 { x: -SCALE, y: -2 * SCALE, z: SCALE });
    assert_eq!(scale3(a, 2 * SCALE), Vec3 { x: 2 * SCALE, y: 4 * SCALE, z: -2 * SCALE });
    // (1, 2, -1) x (3, -1, 0.5) = (0, -3.5, -7)
    assert_eq!(cross3(a, b), Vec3 { x: 0, y: -7 * SCALE / 2, z: -7 * SCALE });
    // 3 - 2 - 0.5 = 0.5
    assert_eq!(dot3(a, b), SCALE / 2);
}
