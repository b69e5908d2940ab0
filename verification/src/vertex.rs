//! The vertex format of the demo's geometry and the quad it draws: a
//! position, a surface normal and a texture coordinate per vertex,
//! uploaded once at startup and immutable for the life of the process.

use vstd::prelude::*;
use crate::fixed::SCALE;
use crate::vec3::Vec3;

verus! {

/// One vertex of the mesh.
#[derive(Clone, Copy, Debug, PartialEq, Eq, Structural)]
pub struct Vertex {
    pub position: Vec3,
    pub normal: Vec3,
    pub tex_u: i64,
    pub tex_v: i64,
}

/// The screen-filling quad the demo draws, as a triangle strip: four
/// corners at one unit, all normals facing the camera along negative
/// `z`, texture coordinates covering the unit square.
pub fn quad_vertices() -> (r: Vec<Vertex>)
    ensures
        r@.len() == 4,
        r@[0] == (Vertex {
            position: Vec3 { x: (-SCALE) as i64, y: SCALE, z: 0 },
            normal: Vec3 { x: 0, y: 0, z: (-SCALE) as i64 },
            tex_u: 0,
            tex_v: SCALE,
        }),
        r@[1] == (Vertex {
            position: Vec3 { x: SCALE, y: SCALE, z: 0 },
            normal: Vec3 { x: 0, y: 0, z: (-SCALE) as i64 },
            tex_u: SCALE,
            tex_v: SCALE,
        }),
        r@[2] == (Vertex {
            position: Vec3 { x: (-SCALE) as i64, y: (-SCALE) as i64, z: 0 },
            normal: Vec3 { x: 0, y: 0, z: (-SCALE) as i64 },
            tex_u: 0,
            tex_v: 0,
        }),
        r@[3] == (Vertex {
            position: Vec3 { x: SCALE, y: (-SCALE) as i64, z: 0 },
            normal: Vec3 { x: 0, y: 0, z: (-SCALE) as i64 },
            tex_u: SCALE,
            tex_v: 0,
        }),
{
    let mut r: Vec<Vertex> = Vec::new();
    r.push(
        Vertex {
            position: Vec3 { x: -SCALE, y: SCALE, z: 0 },
            normal: Vec3 { x: 0, y: 0, z: -SCALE },
            tex_u: 0,
            tex_v: SCALE,
        },
    );
    r.push(
        Vertex {
            position: Vec3 { x: SCALE, y: SCALE, z: 0 },
            normal: Vec3 { x: 0, y: 0, z: -SCALE },
            tex_u: SCALE,
            tex_v: SCALE,
        },
    );
    r.push(
        Vertex {
            position: Vec3 { x: -SCALE, y: -SCALE, z: 0 },
            normal: Vec3 { x: 0, y: 0, z: -SCALE },
            tex_u: 0,
            tex_v: 0,
        },
    );
    r.push(
        Vertex {
            position: Vec3 { x: SCALE, y: -SCALE, z: 0 },
            normal: Vec3 { x: 0, y: 0, z: -SCALE },
            tex_u: SCALE,
            tex_v: 0,
        },
    );
    r
}

} // verus!
