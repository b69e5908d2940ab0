//! Homogeneous 4x4 matrices and 3x3 bases over the fixed-point scalar.
//! Storage is column-major and composition is right-to-left: a point is
//! transformed as `P * (V * (M * v))`, matching how the uniforms are
//! consumed downstream.

use vstd::prelude::*;
use crate::fixed::{
    dot_bound, fx_div, fx_div_s, fx_mul, fx_mul_s, iabs, lemma_fx_mul_s_bound, FX_MAX, SCALE,
};
use crate::vec3::{
    cross3, cross_x_s, cross_y_s, cross_z_s, dot3, dot3_s, in_range3, Vec3, VEC_MAX,
};

verus! {

/// A column of a homogeneous matrix.
#[derive(Clone, Copy, Debug, PartialEq, Eq, Structural)]
pub struct Vec4 {
    pub x: i64,
    pub y: i64,
    pub z: i64,
    pub w: i64,
}

/// A 4x4 matrix stored as four columns.
#[derive(Clone, Copy, Debug, PartialEq, Eq, Structural)]
pub struct Mat4 {
    pub c0: Vec4,
    pub c1: Vec4,
    pub c2: Vec4,
    pub c3: Vec4,
}

/// A 3x3 basis stored as three columns.
#[derive(Clone, Copy, Debug, PartialEq, Eq, Structural)]
pub struct Mat3 {
    pub c0: Vec3,
    pub c1: Vec3,
    pub c2: Vec3,
}

/// Every component of the column has magnitude at most `b`.
pub open spec fn in_range4(v: Vec4, b: int) -> bool {
    &&& -b <= v.x <= b
    &&& -b <= v.y <= b
    &&& -b <= v.z <= b
    &&& -b <= v.w <= b
}

/// Every entry of the matrix has magnitude at most `b`.
pub open spec fn in_range_mat4(m: Mat4, b: int) -> bool {
    in_range4(m.c0, b) && in_range4(m.c1, b) && in_range4(m.c2, b) && in_range4(m.c3, b)
}

/// Every entry of the basis has magnitude at most `b`.
pub open spec fn in_range_mat3(m: Mat3, b: int) -> bool {
    in_range3(m.c0, b) && in_range3(m.c1, b) && in_range3(m.c2, b)
}

/// The identity transform.
pub open spec fn identity4_s() -> Mat4 {
    Mat4 {
        c0: Vec4 { x: SCALE, y: 0, z: 0, w: 0 },
        c1: Vec4 { x: 0, y: SCALE, z: 0, w: 0 },
        c2: Vec4 { x: 0, y: 0, z: SCALE, w: 0 },
        c3: Vec4 { x: 0, y: 0, z: 0, w: SCALE },
    }
}

/// The identity transform, as a value.
pub fn identity4() -> (r: Mat4)
    ensures
        r == identity4_s(),
{
    Mat4 {
        c0: Vec4 { x: SCALE, y: 0, z: 0, w: 0 },
        c1: Vec4 { x: 0, y: SCALE, z: 0, w: 0 },
        c2: Vec4 { x: 0, y: 0, z: SCALE, w: 0 },
        c3: Vec4 { x: 0, y: 0, z: 0, w: SCALE },
    }
}

/// Fixed-point dot product of a matrix row `(r0, r1, r2, r3)` with a
/// column.
pub open spec fn v4dot_s(r0: int, r1: int, r2: int, r3: int, c: Vec4) -> int {
    fx_mul_s(r0, c.x as int) + fx_mul_s(r1, c.y as int) + fx_mul_s(r2, c.z as int) + fx_mul_s(
        r3,
        c.w as int,
    )
}

/// Component `x` of `m` applied to the homogeneous point `(p, 1)`.
pub open spec fn tp_x_s(m: Mat4, p: Vec3) -> int {
    fx_mul_s(m.c0.x as int, p.x as int) + fx_mul_s(m.c1.x as int, p.y as int) + fx_mul_s(
        m.c2.x as int,
        p.z as int,
    ) + m.c3.x
}

/// Component `y` of `m` applied to the homogeneous point `(p, 1)`.
pub open spec fn tp_y_s(m: Mat4, p: Vec3) -> int {
    fx_mul_s(m.c0.y as int, p.x as int) + fx_mul_s(m.c1.y as int, p.y as int) + fx_mul_s(
        m.c2.y as int,
        p.z as int,
    ) + m.c3.y
}

/// Component `z` of `m` applied to the homogeneous point `(p, 1)`.
pub open spec fn tp_z_s(m: Mat4, p: Vec3) -> int {
    fx_mul_s(m.c0.z as int, p.x as int) + fx_mul_s(m.c1.z as int, p.y as int) + fx_mul_s(
        m.c2.z as int,
        p.z as int,
    ) + m.c3.z
}

/// Component `w` of `m` applied to the homogeneous point `(p, 1)`.
pub open spec fn tp_w_s(m: Mat4, p: Vec3) -> int {
    fx_mul_s(m.c0.w as int, p.x as int) + fx_mul_s(m.c1.w as int, p.y as int) + fx_mul_s(
        m.c2.w as int,
        p.z as int,
    ) + m.c3.w
}

/// Applies `m` to the homogeneous point `(p, 1)` and returns the full
/// clip-space result, `w` included.
pub fn transform_point(m: Mat4, p: Vec3) -> (r: Vec4)
    requires
        in_range_mat4(m, FX_MAX as int),
        in_range3(p, VEC_MAX as int),
    ensures
        r.x == tp_x_s(m, p),
        r.y == tp_y_s(m, p),
        r.z == tp_z_s(m, p),
        r.w == tp_w_s(m, p),
{
    proof {
        lemma_row_products(m.c0, p);
        lemma_row_products(m.c1, p);
        lemma_row_products(m.c2, p);
    }
    Vec4 {
        x: fx_mul(m.c0.x, p.x) + fx_mul(m.c1.x, p.y) + fx_mul(m.c2.x, p.z) + m.c3.x,
        y: fx_mul(m.c0.y, p.x) + fx_mul(m.c1.y, p.y) + fx_mul(m.c2.y, p.z) + m.c3.y,
        z: fx_mul(m.c0.z, p.x) + fx_mul(m.c1.z, p.y) + fx_mul(m.c2.z, p.z) + m.c3.z,
        w: fx_mul(m.c0.w, p.x) + fx_mul(m.c1.w, p.y) + fx_mul(m.c2.w, p.z) + m.c3.w,
    }
}

/// Bounds every product of a column's components with a point's.
proof fn lemma_row_products(c: Vec4, p: Vec3)
    requires
        in_range4(c, FX_MAX as int),
        in_range3(p, VEC_MAX as int),
    ensures
        iabs(fx_mul_s(c.x as int, p.x as int)) <= dot_bound(FX_MAX as int),
        iabs(fx_mul_s(c.y as int, p.x as int)) <= dot_bound(FX_MAX as int),
        iabs(fx_mul_s(c.z as int, p.x as int)) <= dot_bound(FX_MAX as int),
        iabs(fx_mul_s(c.w as int, p.x as int)) <= dot_bound(FX_MAX as int),
        iabs(fx_mul_s(c.x as int, p.y as int)) <= dot_bound(FX_MAX as int),
        iabs(fx_mul_s(c.y as int, p.y as int)) <= dot_bound(FX_MAX as int),
        iabs(fx_mul_s(c.z as int, p.y as int)) <= dot_bound(FX_MAX as int),
        iabs(fx_mul_s(c.w as int, p.y as int)) <= dot_bound(FX_MAX as int),
        iabs(fx_mul_s(c.x as int, p.z as int)) <= dot_bound(FX_MAX as int),
        iabs(fx_mul_s(c.y as int, p.z as int)) <= dot_bound(FX_MAX as int),
        iabs(fx_mul_s(c.z as int, p.z as int)) <= dot_bound(FX_MAX as int),
        iabs(fx_mul_s(c.w as int, p.z as int)) <= dot_bound(FX_MAX as int),
{
    lemma_fx_mul_s_bound(c.x as int, p.x as int, FX_MAX as int);
    lemma_fx_mul_s_bound(c.y as int, p.x as int, FX_MAX as int);
    lemma_fx_mul_s_bound(c.z as int, p.x as int, FX_MAX as int);
    lemma_fx_mul_s_bound(c.w as int, p.x as int, FX_MAX as int);
    lemma_fx_mul_s_bound(c.x as int, p.y as int, FX_MAX as int);
    lemma_fx_mul_s_bound(c.y as int, p.y as int, FX_MAX as int);
    lemma_fx_mul_s_bound(c.z as int, p.y as int, FX_MAX as int);
    lemma_fx_mul_s_bound(c.w as int, p.y as int, FX_MAX as int);
    lemma_fx_mul_s_bound(c.x as int, p.z as int, FX_MAX as int);
    lemma_fx_mul_s_bound(c.y as int, p.z as int, FX_MAX as int);
    lemma_fx_mul_s_bound(c.z as int, p.z as int, FX_MAX as int);
    lemma_fx_mul_s_bound(c.w as int, p.z as int, FX_MAX as int);
}

/// The upper-left 3x3 block of `m`, first column.
pub open spec fn col_a(m: Mat4) -> Vec3 {
    Vec3 { x: m.c0.x, y: m.c0.y, z: m.c0.z }
}

/// The upper-left 3x3 block of `m`, second column.
pub open spec fn col_b(m: Mat4) -> Vec3 {
    Vec3 { x: m.c1.x, y: m.c1.y, z: m.c1.z }
}

/// The upper-left 3x3 block of `m`, third column.
pub open spec fn col_c(m: Mat4) -> Vec3 {
    Vec3 { x: m.c2.x, y: m.c2.y, z: m.c2.z }
}

/// Determinant of the upper-left 3x3 block, as the triple product of its
/// columns under fixed-point arithmetic.
pub open spec fn det3_s(m: Mat4) -> int {
    let a = col_a(m);
    let b = col_b(m);
    let c = col_c(m);
    fx_mul_s(a.x as int, cross_x_s(b, c)) + fx_mul_s(a.y as int, cross_y_s(b, c)) + fx_mul_s(
        a.z as int,
        cross_z_s(b, c),
    )
}

/// Magnitude bound on the upper 3x3 entries of a matrix handed to the
/// normal-matrix construction (it stands for 4).
pub const NRM_MAX: i64 = 262144;

/// The upper-left 3x3 block of `m`, as a basis.
pub open spec fn upper3_s(m: Mat4) -> Mat3 {
    Mat3 { c0: col_a(m), c1: col_b(m), c2: col_c(m) }
}

/// The normal matrix of `m`: the inverse transpose of its upper-left
/// 3x3 block, whose columns are the cross products of `m`'s column
/// pairs divided by the determinant.
pub open spec fn normal_mat_s(m: Mat4) -> Mat3 {
    let a = col_a(m);
    let b = col_b(m);
    let c = col_c(m);
    let d = det3_s(m);
    Mat3 {
        c0: Vec3 {
            x: fx_div_s(cross_x_s(b, c), d) as i64,
            y: fx_div_s(cross_y_s(b, c), d) as i64,
            z: fx_div_s(cross_z_s(b, c), d) as i64,
        },
        c1: Vec3 {
            x: fx_div_s(cross_x_s(c, a), d) as i64,
            y: fx_div_s(cross_y_s(c, a), d) as i64,
            z: fx_div_s(cross_z_s(c, a), d) as i64,
        },
        c2: Vec3 {
            x: fx_div_s(cross_x_s(a, b), d) as i64,
            y: fx_div_s(cross_y_s(a, b), d) as i64,
            z: fx_div_s(cross_z_s(a, b), d) as i64,
        },
    }
}

/// Determinant of the upper-left 3x3 block of `m`.
pub fn det3(m: Mat4) -> (r: i64)
    requires
        in_range3(col_a(m), NRM_MAX as int),
        in_range3(col_b(m), NRM_MAX as int),
        in_range3(col_c(m), NRM_MAX as int),
    ensures
        r == det3_s(m),
{
    let a = Vec3 { x: m.c0.x, y: m.c0.y, z: m.c0.z };
    let b = Vec3 { x: m.c1.x, y: m.c1.y, z: m.c1.z };
    let c = Vec3 { x: m.c2.x, y: m.c2.y, z: m.c2.z };
    proof {
        crate::vec3::lemma_cross_range(b, c, NRM_MAX as int);
    }
    let bc = cross3(b, c);
    dot3(a, bc)
}

/// The inverse transpose of the upper-left 3x3 block of `m`: the "normal
/// matrix" that transforms normals correctly under rotation and
/// non-uniform scale. Its columns are the cross products of `m`'s column
/// pairs, divided by the determinant; the caller guarantees the block is
/// not singular (check with `det3`).
pub fn transpose_inverse3x3(m: Mat4) -> (r: Mat3)
    requires
        in_range3(col_a(m), NRM_MAX as int),
        in_range3(col_b(m), NRM_MAX as int),
        in_range3(col_c(m), NRM_MAX as int),
        det3_s(m) != 0,
    ensures
        r.c0.x == fx_div_s(cross_x_s(col_b(m), col_c(m)), det3_s(m)),
        r.c0.y == fx_div_s(cross_y_s(col_b(m), col_c(m)), det3_s(m)),
        r.c0.z == fx_div_s(cross_z_s(col_b(m), col_c(m)), det3_s(m)),
        r.c1.x == fx_div_s(cross_x_s(col_c(m), col_a(m)), det3_s(m)),
        r.c1.y == fx_div_s(cross_y_s(col_c(m), col_a(m)), det3_s(m)),
        r.c1.z == fx_div_s(cross_z_s(col_c(m), col_a(m)), det3_s(m)),
        r.c2.x == fx_div_s(cross_x_s(col_a(m), col_b(m)), det3_s(m)),
        r.c2.y == fx_div_s(cross_y_s(col_a(m), col_b(m)), det3_s(m)),
        r.c2.z == fx_div_s(cross_z_s(col_a(m), col_b(m)), det3_s(m)),
        r == normal_mat_s(m),
{
    let a = Vec3 { x: m.c0.x, y: m.c0.y, z: m.c0.z };
    let b = Vec3 { x: m.c1.x, y: m.c1.y, z: m.c1.z };
    let c = Vec3 { x: m.c2.x, y: m.c2.y, z: m.c2.z };
    proof {
        crate::vec3::lemma_cross_range(b, c, NRM_MAX as int);
        crate::vec3::lemma_cross_range(c, a, NRM_MAX as int);
        crate::vec3::lemma_cross_range(a, b, NRM_MAX as int);
    }
    let bc = cross3(b, c);
    let d = dot3(a, bc);
    let ca = cross3(c, a);
    let ab = cross3(a, b);
    Mat3 {
        c0: Vec3 { x: fx_div(bc.x, d), y: fx_div(bc.y, d), z: fx_div(bc.z, d) },
        c1: Vec3 { x: fx_div(ca.x, d), y: fx_div(ca.y, d), z: fx_div(ca.z, d) },
        c2: Vec3 { x: fx_div(ab.x, d), y: fx_div(ab.y, d), z: fx_div(ab.z, d) },
    }
}

/// Component `x` of the basis `t` applied to `v`.
pub open spec fn m3_x_s(t: Mat3, v: Vec3) -> int {
    fx_mul_s(t.c0.x as int, v.x as int) + fx_mul_s(t.c1.x as int, v.y as int) + fx_mul_s(
        t.c2.x as int,
        v.z as int,
    )
}

/// Component `y` of the basis `t` applied to `v`.
pub open spec fn m3_y_s(t: Mat3, v: Vec3) -> int {
    fx_mul_s(t.c0.y as int, v.x as int) + fx_mul_s(t.c1.y as int, v.y as int) + fx_mul_s(
        t.c2.y as int,
        v.z as int,
    )
}

/// Component `z` of the basis `t` applied to `v`.
pub open spec fn m3_z_s(t: Mat3, v: Vec3) -> int {
    fx_mul_s(t.c0.z as int, v.x as int) + fx_mul_s(t.c1.z as int, v.y as int) + fx_mul_s(
        t.c2.z as int,
        v.z as int,
    )
}

/// The basis applied to a vector, as a value.
pub open spec fn apply3_v(t: Mat3, v: Vec3) -> Vec3 {
    Vec3 { x: m3_x_s(t, v) as i64, y: m3_y_s(t, v) as i64, z: m3_z_s(t, v) as i64 }
}

/// Applies the 3x3 basis `t` to `v`.
pub fn mat3_apply(t: Mat3, v: Vec3) -> (r: Vec3)
    requires
        in_range_mat3(t, NRM_MAX as int),
        in_range3(v, NRM_MAX as int),
    ensures
        r.x == m3_x_s(t, v),
        r.y == m3_y_s(t, v),
        r.z == m3_z_s(t, v),
        r == apply3_v(t, v),
        in_range3(r, 3 * dot_bound(NRM_MAX as int)),
{
    proof {
        lemma_fx_mul_s_bound(t.c0.x as int, v.x as int, NRM_MAX as int);
        lemma_fx_mul_s_bound(t.c1.x as int, v.y as int, NRM_MAX as int);
        lemma_fx_mul_s_bound(t.c2.x as int, v.z as int, NRM_MAX as int);
        lemma_fx_mul_s_bound(t.c0.y as int, v.x as int, NRM_MAX as int);
        lemma_fx_mul_s_bound(t.c1.y as int, v.y as int, NRM_MAX as int);
        lemma_fx_mul_s_bound(t.c2.y as int, v.z as int, NRM_MAX as int);
        lemma_fx_mul_s_bound(t.c0.z as int, v.x as int, NRM_MAX as int);
        lemma_fx_mul_s_bound(t.c1.z as int, v.y as int, NRM_MAX as int);
        lemma_fx_mul_s_bound(t.c2.z as int, v.z as int, NRM_MAX as int);
    }
    Vec3 {
        x: fx_mul(t.c0.x, v.x) + fx_mul(t.c1.x, v.y) + fx_mul(t.c2.x, v.z),
        y: fx_mul(t.c0.y, v.x) + fx_mul(t.c1.y, v.y) + fx_mul(t.c2.y, v.z),
        z: fx_mul(t.c0.z, v.x) + fx_mul(t.c1.z, v.y) + fx_mul(t.c2.z, v.z),
    }
}

/// Entry `(row x, column j)` of the product of two matrices: the row of
/// `a` against column `cj` of `b`.
pub open spec fn mm_row_x(a: Mat4, cj: Vec4) -> int {
    v4dot_s(a.c0.x as int, a.c1.x as int, a.c2.x as int, a.c3.x as int, cj)
}

/// Entry `(row y, column j)` of the product of two matrices.
pub open spec fn mm_row_y(a: Mat4, cj: Vec4) -> int {
    v4dot_s(a.c0.y as int, a.c1.y as int, a.c2.y as int, a.c3.y as int, cj)
}

/// Entry `(row z, column j)` of the product of two matrices.
pub open spec fn mm_row_z(a: Mat4, cj: Vec4) -> int {
    v4dot_s(a.c0.z as int, a.c1.z as int, a.c2.z as int, a.c3.z as int, cj)
}

/// Entry `(row w, column j)` of the product of two matrices.
pub open spec fn mm_row_w(a: Mat4, cj: Vec4) -> int {
    v4dot_s(a.c0.w as int, a.c1.w as int, a.c2.w as int, a.c3.w as int, cj)
}

/// The matrix product `a * b`, applied right-to-left: `(a * b) * v ==
/// a * (b * v)` up to fixed-point rounding.
pub fn mat4_mul(a: Mat4, b: Mat4) -> (r: Mat4)
    requires
        in_range_mat4(a, FX_MAX as int),
        in_range_mat4(b, FX_MAX as int),
    ensures
        r.c0.x == mm_row_x(a, b.c0) && r.c0.y == mm_row_y(a, b.c0) && r.c0.z == mm_row_z(a, b.c0)
            && r.c0.w == mm_row_w(a, b.c0),
        r.c1.x == mm_row_x(a, b.c1) && r.c1.y == mm_row_y(a, b.c1) && r.c1.z == mm_row_z(a, b.c1)
            && r.c1.w == mm_row_w(a, b.c1),
        r.c2.x == mm_row_x(a, b.c2) && r.c2.y == mm_row_y(a, b.c2) && r.c2.z == mm_row_z(a, b.c2)
            && r.c2.w == mm_row_w(a, b.c2),
        r.c3.x == mm_row_x(a, b.c3) && r.c3.y == mm_row_y(a, b.c3) && r.c3.z == mm_row_z(a, b.c3)
            && r.c3.w == mm_row_w(a, b.c3),
{
    Mat4 { c0: mul_col(a, b.c0), c1: mul_col(a, b.c1), c2: mul_col(a, b.c2), c3: mul_col(a, b.c3) }
}

/// One column of a matrix product.
fn mul_col(a: Mat4, cj: Vec4) -> (r: Vec4)
    requires
        in_range_mat4(a, FX_MAX as int),
        in_range4(cj, FX_MAX as int),
    ensures
        r.x == mm_row_x(a, cj),
        r.y == mm_row_y(a, cj),
        r.z == mm_row_z(a, cj),
        r.w == mm_row_w(a, cj),
{
    proof {
        lemma_col_products(a.c0, cj);
        lemma_col_products(a.c1, cj);
        lemma_col_products(a.c2, cj);
        lemma_col_products(a.c3, cj);
    }
    Vec4 {
        x: fx_mul(a.c0.x, cj.x) + fx_mul(a.c1.x, cj.y) + fx_mul(a.c2.x, cj.z) + fx_mul(
            a.c3.x,
            cj.w,
        ),
        y: fx_mul(a.c0.y, cj.x) + fx_mul(a.c1.y, cj.y) + fx_mul(a.c2.y, cj.z) + fx_mul(
            a.c3.y,
            cj.w,
        ),
        z: fx_mul(a.c0.z, cj.x) + fx_mul(a.c1.z, cj.y) + fx_mul(a.c2.z, cj.z) + fx_mul(
            a.c3.z,
            cj.w,
        ),
        w: fx_mul(a.c0.w, cj.x) + fx_mul(a.c1.w, cj.y) + fx_mul(a.c2.w, cj.z) + fx_mul(
            a.c3.w,
            cj.w,
        ),
    }
}

/// Bounds every product of two columns' components.
proof fn lemma_col_products(c: Vec4, d: Vec4)
    requires
        in_range4(c, FX_MAX as int),
        in_range4(d, FX_MAX as int),
    ensures
        iabs(fx_mul_s(c.x as int, d.x as int)) <= dot_bound(FX_MAX as int),
        iabs(fx_mul_s(c.y as int, d.x as int)) <= dot_bound(FX_MAX as int),
        iabs(fx_mul_s(c.z as int, d.x as int)) <= dot_bound(FX_MAX as int),
        iabs(fx_mul_s(c.w as int, d.x as int)) <= dot_bound(FX_MAX as int),
        iabs(fx_mul_s(c.x as int, d.y as int)) <= dot_bound(FX_MAX as int),
        iabs(fx_mul_s(c.y as int, d.y as int)) <= dot_bound(FX_MAX as int),
        iabs(fx_mul_s(c.z as int, d.y as int)) <= dot_bound(FX_MAX as int),
        iabs(fx_mul_s(c.w as int, d.y as int)) <= dot_bound(FX_MAX as int),
        iabs(fx_mul_s(c.x as int, d.z as int)) <= dot_bound(FX_MAX as int),
        iabs(fx_mul_s(c.y as int, d.z as int)) <= dot_bound(FX_MAX as int),
        iabs(fx_mul_s(c.z as int, d.z as int)) <= dot_bound(FX_MAX as int),
        iabs(fx_mul_s(c.w as int, d.z as int)) <= dot_bound(FX_MAX as int),
        iabs(fx_mul_s(c.x as int, d.w as int)) <= dot_bound(FX_MAX as int),
        iabs(fx_mul_s(c.y as int, d.w as int)) <= dot_bound(FX_MAX as int),
        iabs(fx_mul_s(c.z as int, d.w as int)) <= dot_bound(FX_MAX as int),
        iabs(fx_mul_s(c.w as int, d.w as int)) <= dot_bound(FX_MAX as int),
{
    lemma_fx_mul_s_bound(c.x as int, d.x as int, FX_MAX as int);
    lemma_fx_mul_s_bound(c.y as int, d.x as int, FX_MAX as int);
    lemma_fx_mul_s_bound(c.z as int, d.x as int, FX_MAX as int);
    lemma_fx_mul_s_bound(c.w as int, d.x as int, FX_MAX as int);
    lemma_fx_mul_s_bound(c.x as int, d.y as int, FX_MAX as int);
    lemma_fx_mul_s_bound(c.y as int, d.y as int, FX_MAX as int);
    lemma_fx_mul_s_bound(c.z as int, d.y as int, FX_MAX as int);
    lemma_fx_mul_s_bound(c.w as int, d.y as int, FX_MAX as int);
    lemma_fx_mul_s_bound(c.x as int, d.z as int, FX_MAX as int);
    lemma_fx_mul_s_bound(c.y as int, d.z as int, FX_MAX as int);
    lemma_fx_mul_s_bound(c.z as int, d.z as int, FX_MAX as int);
    lemma_fx_mul_s_bound(c.w as int, d.z as int, FX_MAX as int);
    lemma_fx_mul_s_bound(c.x as int, d.w as int, FX_MAX as int);
    lemma_fx_mul_s_bound(c.y as int, d.w as int, FX_MAX as int);
    lemma_fx_mul_s_bound(c.z as int, d.w as int, FX_MAX as int);
    lemma_fx_mul_s_bound(c.w as int, d.w as int, FX_MAX as int);
}

} // verus!
