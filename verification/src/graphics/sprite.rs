//! The shared quad geometry template: every sprite entity is drawn from the
//! same four vertices and six indices, a unit quad centered on the origin.

use vstd::prelude::*;

use crate::graphics::vertex::Vertex;
use crate::math::{Vec2, Vec3, FP_ONE};

verus! {

/// Half of a world unit in raw coordinates: the quad spans `[-1/2, 1/2]`.
pub const QUAD_HALF: i64 = 32768;

/// The four template vertices of the unit quad, counterclockwise from the
/// top-left, with texture coordinate `(0, 0)` at the top-left vertex.
pub open spec fn template_vertices() -> Seq<Vertex> {
    seq![
        Vertex {
            position: Vec3 { x: (-QUAD_HALF) as i64, y: QUAD_HALF, z: 0 },
            tex_coords: Vec2 { x: 0, y: 0 },
        },
        Vertex {
            position: Vec3 { x: (-QUAD_HALF) as i64, y: (-QUAD_HALF) as i64, z: 0 },
            tex_coords: Vec2 { x: 0, y: FP_ONE },
        },
        Vertex {
            position: Vec3 { x: QUAD_HALF, y: (-QUAD_HALF) as i64, z: 0 },
            tex_coords: Vec2 { x: FP_ONE, y: FP_ONE },
        },
        Vertex {
            position: Vec3 { x: QUAD_HALF, y: QUAD_HALF, z: 0 },
            tex_coords: Vec2 { x: FP_ONE, y: 0 },
        },
    ]
}

/// The index pattern of one quad, before the per-entity offset is added:
/// two triangles over the four template vertices.
pub open spec fn template_indices() -> Seq<u32> {
    seq![0u32, 1u32, 3u32, 1u32, 2u32, 3u32]
}

/// The shared sprite geometry.
pub struct Sprite;

impl Sprite {
    /// The six indices of the quad's two triangles.
    pub fn get_indices() -> (r: [u32; 6])
        ensures
            r@ == template_indices(),
    {
        let r: [u32; 6] = [0, 1, 3, 1, 2, 3];
        proof {
            assert(r@ =~= template_indices());
        }
        r
    }

    /// The four template vertices of the unit quad.
    pub fn get_vertices() -> (r: [Vertex; 4])
        ensures
            r@ == template_vertices(),
    {
        let r: [Vertex; 4] = [
            Vertex {
                position: Vec3 { x: -QUAD_HALF, y: QUAD_HALF, z: 0 },
                tex_coords: Vec2 { x: 0, y: 0 },
            },
            Vertex {
                position: Vec3 { x: -QUAD_HALF, y: -QUAD_HALF, z: 0 },
                tex_coords: Vec2 { x: 0, y: FP_ONE },
            },
            Vertex {
                position: Vec3 { x: QUAD_HALF, y: -QUAD_HALF, z: 0 },
                tex_coords: Vec2 { x: FP_ONE, y: FP_ONE },
            },
            Vertex {
                position: Vec3 { x: QUAD_HALF, y: QUAD_HALF, z: 0 },
                tex_coords: Vec2 { x: FP_ONE, y: 0 },
            },
        ];
        proof {
            assert(r@ =~= template_vertices());
        }
        r
    }
}

} // verus!
