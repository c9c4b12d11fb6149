//! Vertex records: the template vertex of the shared quad geometry and the
//! per-entity render vertex that actually occupies the shared vertex buffer.

use vstd::prelude::*;

use crate::math::{entity_transform, is_entity_transform, quat_in_bounds, vec2_in_bounds, Mat4,
    Quat, Vec2, Vec3};

verus! {

/// A template vertex of the shared quad: local position and texture
/// coordinate, both at `FP_ONE` scale.
#[derive(Clone, Copy, Debug, PartialEq, Eq, Structural)]
pub struct Vertex {
    pub position: Vec3,
    pub tex_coords: Vec2,
}

/// A vertex as it stands in the shared vertex buffer: a template vertex
/// with the owning entity's world transform baked in. Four of these form
/// one entity's buffer slot.
#[derive(Clone, Copy, Debug, PartialEq, Eq, Structural)]
pub struct RenderVertex {
    pub position: Vec3,
    pub tex_coords: Vec2,
    pub transform: Mat4,
}

/// The all-zero render vertex used to fill a freshly allocated buffer.
pub open spec fn zero_render_vertex() -> RenderVertex {
    RenderVertex {
        position: Vec3 { x: 0, y: 0, z: 0 },
        tex_coords: Vec2 { x: 0, y: 0 },
        transform: Mat4 {
            c0: crate::math::Vec4 { x: 0, y: 0, z: 0, w: 0 },
            c1: crate::math::Vec4 { x: 0, y: 0, z: 0, w: 0 },
            c2: crate::math::Vec4 { x: 0, y: 0, z: 0, w: 0 },
            c3: crate::math::Vec4 { x: 0, y: 0, z: 0, w: 0 },
        },
    }
}

impl RenderVertex {
    /// Bake the world transform of an entity at `position` with `rotation`
    /// into each of the given template vertices. Positions and texture
    /// coordinates pass through unchanged; every output vertex carries the
    /// same `translation * rotation` matrix.
    pub fn new(position: Vec2, rotation: Quat, verts: &[Vertex]) -> (r: Vec<RenderVertex>)
        requires
            vec2_in_bounds(position),
            quat_in_bounds(rotation),
        ensures
            r@.len() == verts@.len(),
            forall|i: int| 0 <= i < verts@.len() ==> {
                &&& (#[trigger] r@[i]).position == verts@[i].position
                &&& r@[i].tex_coords == verts@[i].tex_coords
                &&& is_entity_transform(r@[i].transform, position, rotation)
            },
    {
        let transform: Mat4 = entity_transform(position, rotation);
        let mut r: Vec<RenderVertex> = Vec::new();
        let mut i: usize = 0;
        while i < verts.len()
            invariant
                i <= verts@.len(),
                r@.len() == i,
                is_entity_transform(transform, position, rotation),
                forall|j: int| 0 <= j < i ==> {
                    &&& (#[trigger] r@[j]).position == verts@[j].position
                    &&& r@[j].tex_coords == verts@[j].tex_coords
                    &&& is_entity_transform(r@[j].transform, position, rotation)
                },
            decreases verts@.len() - i,
        {
            let v: Vertex = verts[i];
            r.push(RenderVertex { position: v.position, tex_coords: v.tex_coords, transform });
            i = i + 1;
        }
        r
    }
}

} // verus!
