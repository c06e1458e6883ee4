//! Builds material records from already-loaded textures, handing out
//! material ids in order.

use crate::material_info::MaterialInfo;
use crate::texture_info::TextureInfo;
use vstd::prelude::*;

verus! {

pub struct MaterialFactory {
    next_id: u32,
}

impl MaterialFactory {
    /// The next material id this factory will hand out.
    pub closed spec fn spec_next_id(&self) -> u32 {
        self.next_id
    }

    pub fn new() -> (f: MaterialFactory)
        ensures
            f.spec_next_id() == 0,
    {
        MaterialFactory { next_id: 0 }
    }

    /// Bind three decoded textures into a material under a fresh id. The
    /// albedo texture's image size becomes the material's sprite size.
    pub fn new_material(
        &mut self,
        color: &TextureInfo,
        material: &TextureInfo,
        normal: &TextureInfo,
    ) -> (m: MaterialInfo)
        requires
            old(self).spec_next_id() < u32::MAX,
        ensures
            m.id == old(self).spec_next_id(),
            m.color == color.id,
            m.material == material.id,
            m.normal == normal.id,
            m.size == color.size,
            final(self).spec_next_id() == m.id + 1,
    {
        let material_info = MaterialInfo {
            id: self.next_id,
            color: color.id,
            size: color.size,
            material: material.id,
            normal: normal.id,
        };
        self.next_id += 1;
        material_info
    }
}

} // verus!
