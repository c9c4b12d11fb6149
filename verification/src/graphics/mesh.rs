//! A named mesh: vertices and indices kept on the CPU side.

use vstd::prelude::*;

use crate::graphics::vertex::Vertex;

verus! {

/// A mesh owning its geometry.
pub struct Mesh {
    pub name: String,
    pub indices: Vec<u16>,
    pub verts: Vec<Vertex>,
    pub num_elements: u32,
}

impl Mesh {
    /// Copy the given geometry into a new mesh; `num_elements` counts the
    /// indices.
    pub fn new(name: String, verts: &[Vertex], indices: &[u16]) -> (m: Mesh)
        requires
            indices@.len() <= u32::MAX,
        ensures
            m.name@ == name@,
            m.verts@ == verts@,
            m.indices@ == indices@,
            m.num_elements == indices@.len(),
    {
        let mut vs: Vec<Vertex> = Vec::new();
        let mut i: usize = 0;
        while i < verts.len()
            invariant
                i <= verts@.len(),
                vs@ =~= verts@.subrange(0, i as int),
            decreases verts@.len() - i,
        {
            vs.push(verts[i]);
            i = i + 1;
        }
        let mut is: Vec<u16> = Vec::new();
        let mut j: usize = 0;
        while j < indices.len()
            invariant
                j <= indices@.len(),
                is@ =~= indices@.subrange(0, j as int),
            decreases indices@.len() - j,
        {
            is.push(indices[j]);
            j = j + 1;
        }
        let num_elements: u32 = is.len() as u32;
        proof {
            assert(vs@ =~= verts@);
            assert(is@ =~= indices@);
        }
        Mesh { name, indices: is, verts: vs, num_elements }
    }

    /// An element-for-element copy of this mesh.
    pub fn duplicate(&self) -> (m: Mesh)
        requires
            self.indices@.len() <= u32::MAX,
        ensures
            m.name@ == self.name@,
            m.verts@ == self.verts@,
            m.indices@ == self.indices@,
            m.num_elements == self.num_elements,
    {
        let name: String = self.name.clone();
        let m: Mesh = Mesh::new(name, self.verts.as_slice(), self.indices.as_slice());
        Mesh {
            name: m.name,
            indices: m.indices,
            verts: m.verts,
            num_elements: self.num_elements,
        }
    }
}

} // verus!
