//! Materials: a name plus handles to the texture and the bindable
//! resource group that the GPU shell created for it. Materials are
//! created once, shared read-only by every entity that references them
//! by index, and live as long as the owning scene.

use vstd::prelude::*;

verus! {

/// A drawable material. `texture` and `bind_group` are handles into the
/// GPU shell's resource tables.
pub struct Material {
    pub name: String,
    pub texture: usize,
    pub bind_group: usize,
}

impl Material {
    /// Wrap the handles of an already-created texture and resource group.
    pub fn new(name: String, texture: usize, bind_group: usize) -> (m: Material)
        ensures
            m.name@ == name@,
            m.texture == texture,
            m.bind_group == bind_group,
    {
        Material { name, texture, bind_group }
    }
}

} // verus!
