use vstd::prelude::*;

verus! {

/// The stable identifier under which the asset registry keeps a texture.
#[derive(Clone, Copy, Debug, PartialEq, Eq, Hash, Structural)]
pub struct TextureHandle {
    pub id: u64,
}

/// The stable identifier under which the asset registry keeps a mesh.
#[derive(Clone, Copy, Debug, PartialEq, Eq, Hash, Structural)]
pub struct MeshHandle {
    pub id: u64,
}

/// The stable identifier under which the asset registry keeps a material.
#[derive(Clone, Copy, Debug, PartialEq, Eq, Hash, Structural)]
pub struct MaterialHandle {
    pub id: u64,
}

} // verus!
