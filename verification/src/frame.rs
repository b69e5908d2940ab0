//! The frame driver: once per redraw it turns the viewport size and the
//! elapsed time into the complete recipe for one pass — clear the color
//! and depth buffers, bind the freshly rebuilt model, view and
//! perspective matrices with the light and texture handles, issue one
//! depth-tested draw over the whole vertex set as a triangle strip, and
//! present. Every matrix is recomputed from scratch each frame; nothing
//! persists between frames but the session's immutable resources. The
//! event loop around it performs the recipe; this module only decides
//! it.

use vstd::prelude::*;
use crate::animator::{build_model_rotation, model_rotation_s};
use crate::camera::{
    build_view, perspective_mat_s, perspective_matrix, view_mat_s, view_ok_s, FOVY_DEFAULT,
    ZFAR_DEFAULT, ZNEAR_DEFAULT,
};
use crate::error::MathError;
use crate::fixed::{fx_div, fx_div_s, iabs, SCALE};
use crate::mat::{Mat4, Vec4};
use crate::vec3::Vec3;

verus! {

/// The eye position of the demo's camera (it stands for
/// `(0.5, 0.2, -3)`).
pub open spec fn eye_default_s() -> Vec3 {
    Vec3 { x: 32768, y: 13107, z: -196608i64 }
}

/// The demo's look direction, back toward the origin (it stands for
/// `(-0.5, -0.2, 3)`).
pub open spec fn dir_default_s() -> Vec3 {
    Vec3 { x: -32768i64, y: -13107i64, z: 196608 }
}

/// The demo's up hint, the world Y axis.
pub open spec fn up_default_s() -> Vec3 {
    Vec3 { x: 0, y: SCALE, z: 0 }
}

/// The demo's light direction (it stands for `(-1, 0.4, 0.9)`).
pub open spec fn light_default_s() -> Vec3 {
    Vec3 { x: -65536i64, y: 26214, z: 58982 }
}

/// The demo's light direction, as a value.
pub fn light_default() -> (r: Vec3)
    ensures
        r == light_default_s(),
{
    Vec3 { x: -65536, y: 26214, z: 58982 }
}

/// What a rendering session owns for its whole lifetime: the opaque
/// handles of the two uploaded textures and the constant light
/// direction. Geometry lives behind the same kind of handle in the
/// event loop and never changes after upload.
#[derive(Clone, Copy, Debug, PartialEq, Eq, Structural)]
pub struct RenderSession {
    pub diffuse_texture: u64,
    pub normal_texture: u64,
    pub light: Vec3,
}

/// The uniform set one draw call consumes.
#[derive(Clone, Copy, Debug, PartialEq, Eq, Structural)]
pub struct FrameUniforms {
    pub model: Mat4,
    pub view: Mat4,
    pub perspective: Mat4,
    pub light: Vec3,
    pub diffuse_texture: u64,
    pub normal_texture: u64,
}

/// One frame's full recipe: clear values, the uniforms, and the fixed
/// draw settings — depth test `less` with writes on, culling off
/// because the mesh is not closed, one triangle-strip draw over all
/// vertices, then present.
#[derive(Clone, Copy, Debug, PartialEq, Eq, Structural)]
pub struct FramePlan {
    pub clear_color: Vec4,
    pub clear_depth: i64,
    pub uniforms: FrameUniforms,
    pub depth_test_less: bool,
    pub depth_write: bool,
    pub backface_culling: bool,
    pub triangle_strip: bool,
}

/// The demo's fixed camera is not degenerate: the look direction has a
/// healthy fixed-point length and its cross with the up hint does too,
/// so the frame driver always produces a plan.
pub proof fn lemma_default_camera_ok()
    ensures
        view_ok_s(dir_default_s(), up_default_s()),
{
    let dir = dir_default_s();
    let up = up_default_s();
    assert((-32768int) * (-32768int) == 1073741824int) by (nonlinear_arith);
    assert(1073741824int / 65536 == 16384);
    assert((-13107int) * (-13107int) == 171793449int) by (nonlinear_arith);
    assert(171793449int / 65536 == 2621);
    assert(196608int * 196608 == 38654705664int) by (nonlinear_arith);
    assert(38654705664int / 65536 == 589824);
    let d1 = crate::vec3::dot3_s(dir, dir);
    assert(d1 == 608829);
    assert(608829int * 65536 == 39900217344int) by (nonlinear_arith);
    assert(199750int * 199750 == 39900062500int) by (nonlinear_arith);
    assert(199751int * 199751 == 39900462001int) by (nonlinear_arith);
    crate::fixed::lemma_isqrt_unique(39900217344nat, 199750nat);
    let l1 = crate::vec3::length3_s(dir);
    assert(l1 == 199750);
    assert((-32768int) * 65536 == -2147483648int) by (nonlinear_arith);
    assert(2147483648int / 199750 == 10750);
    assert((-13107int) * 65536 == -858980352int) by (nonlinear_arith);
    assert(858980352int / 199750 == 4300);
    assert(196608int * 65536 == 12884901888int) by (nonlinear_arith);
    assert(12884901888int / 199750 == 64505);
    let f = crate::vec3::normalize_v(dir);
    assert(f == (Vec3 { x: -10750i64, y: -4300i64, z: 64505 }));
    crate::fixed::lemma_fx_mul_one(64505);
    crate::fixed::lemma_fx_mul_one(-10750);
    crate::fixed::lemma_fx_mul_zero(64505);
    crate::fixed::lemma_fx_mul_zero(-10750);
    crate::fixed::lemma_fx_mul_zero(-4300);
    crate::fixed::lemma_fx_mul_zero(0);
    crate::fixed::lemma_fx_mul_zero(65536);
    let c = crate::vec3::cross_v(up, f);
    assert(c == (Vec3 { x: 64505, y: 0, z: 10750 }));
    assert(64505int * 64505 == 4160895025int) by (nonlinear_arith);
    assert(4160895025int / 65536 == 63490);
    assert(10750int * 10750 == 115562500int) by (nonlinear_arith);
    assert(115562500int / 65536 == 1763);
    assert(crate::vec3::dot3_s(c, c) == 65253);
}

/// The viewport's aspect ratio: height over width, in fixed point.
pub open spec fn aspect_s(width: int, height: int) -> int {
    fx_div_s(height * (SCALE as int), width * (SCALE as int))
}

/// Decides one frame: recomputes the three matrices from the current
/// viewport and elapsed time and packages them with the session's
/// resources and the demo's fixed draw settings. Fails only if the
/// camera constants were degenerate, which the view builder rules on.
pub fn render_frame(session: &RenderSession, width: u32, height: u32, elapsed: i64) -> (r: Result<
    FramePlan,
    MathError,
>)
    requires
        1 <= width <= 32768,
        1 <= height <= 32768,
        -0x8000_0000 <= elapsed <= 0x8000_0000,
    ensures
        r is Ok,
        r matches Ok(p) ==> {
            &&& p.uniforms.model == model_rotation_s(elapsed as int)
            &&& p.uniforms.view == view_mat_s(eye_default_s(), dir_default_s(), up_default_s())
            &&& p.uniforms.perspective == perspective_mat_s(
                aspect_s(width as int, height as int),
                FOVY_DEFAULT as int,
                ZNEAR_DEFAULT as int,
                ZFAR_DEFAULT as int,
            )
            &&& p.uniforms.light == session.light
            &&& p.uniforms.diffuse_texture == session.diffuse_texture
            &&& p.uniforms.normal_texture == session.normal_texture
            &&& p.clear_color == (Vec4 { x: 0, y: 0, z: SCALE, w: SCALE })
            &&& p.clear_depth == SCALE
            &&& p.depth_test_less
            &&& p.depth_write
            &&& !p.backface_culling
            &&& p.triangle_strip
        },
{
    let w_fx: i64 = (width as i64) * 65536;
    let h_fx: i64 = (height as i64) * 65536;
    let aspect = fx_div(h_fx, w_fx);
    proof {
        assert(iabs(aspect as int) * 65536 <= iabs(aspect as int) * (w_fx as int))
            by (nonlinear_arith)
            requires
                w_fx >= 65536,
                iabs(aspect as int) >= 0,
        ;
        assert(iabs(h_fx as int) * (SCALE as int) <= 0x8000_0000_0000_0000);
    }
    let perspective = perspective_matrix(aspect);
    let model = build_model_rotation(elapsed);
    let eye = Vec3 { x: 32768, y: 13107, z: -196608 };
    let dir = Vec3 { x: -32768, y: -13107, z: 196608 };
    let up = Vec3 { x: 0, y: SCALE, z: 0 };
    proof {
        lemma_default_camera_ok();
    }
    let view = match build_view(eye, dir, up) {
        Ok(v) => v,
        Err(e) => {
            return Err(e);
        },
    };
    Ok(
        FramePlan {
            clear_color: Vec4 { x: 0, y: 0, z: SCALE, w: SCALE },
            clear_depth: SCALE,
            uniforms: FrameUniforms {
                model,
                view,
                perspective,
                light: session.light,
                diffuse_texture: session.diffuse_texture,
                normal_texture: session.normal_texture,
            },
            depth_test_less: true,
            depth_write: true,
            backface_culling: false,
            triangle_strip: true,
        },
    )
}

} // verus!
