//! The drawable component: a transformed, tinted, textured quad.

use crate::color::Color;
use crate::matrix3x2::Matrix3x2;
use crate::rect::Rect;
use crate::vector2::Vector2;
use vstd::prelude::*;

verus! {

/// A sprite instance. The fields mirror the per-instance attribute block
/// the geometry pass uploads; `height` is carried but unused by shading.
#[derive(Clone, Copy, PartialEq, Eq, Structural, Debug)]
pub struct Sprite {
    pub transform: Matrix3x2,
    pub pivot: Vector2,
    pub color: Color,
    pub uv_rect: Rect,
    pub z: i32,
    pub height: i32,
    /// The material this sprite draws with; set by the sprite factory and
    /// expected to name a prepared material by the time the sprite is drawn.
    pub material_id: u32,
}

impl Sprite {
    /// The material this sprite draws with.
    pub open spec fn spec_material_id(&self) -> u32 {
        self.material_id
    }

    #[verifier::when_used_as_spec(spec_material_id)]
    pub fn get_material_id(&self) -> (id: u32)
        ensures
            id == self.spec_material_id(),
    {
        self.material_id
    }

    /// The per-instance attribute block of this sprite, in upload order:
    /// the six transform entries, the pivot pair, the RGBA tint, the UV
    /// rectangle corners, the depth key, the unused height, and the
    /// material identifier — nineteen four-byte fields.
    pub fn instance_fields(&self) -> (v: Vec<i32>)
        ensures
            v@.len() == 19,
            v@[0] == self.transform.m00,
            v@[1] == self.transform.m01,
            v@[2] == self.transform.m10,
            v@[3] == self.transform.m11,
            v@[4] == self.transform.m20,
            v@[5] == self.transform.m21,
            v@[6] == self.pivot.x,
            v@[7] == self.pivot.y,
            v@[8] == self.color.r,
            v@[9] == self.color.g,
            v@[10] == self.color.b,
            v@[11] == self.color.a,
            v@[12] == self.uv_rect.begin.x,
            v@[13] == self.uv_rect.begin.y,
            v@[14] == self.uv_rect.end.x,
            v@[15] == self.uv_rect.end.y,
            v@[16] == self.z,
            v@[17] == self.height,
            v@[18] == self.material_id as i32,
    {
        let mut v: Vec<i32> = Vec::new();
        v.push(self.transform.m00);
        v.push(self.transform.m01);
        v.push(self.transform.m10);
        v.push(self.transform.m11);
        v.push(self.transform.m20);
        v.push(self.transform.m21);
        v.push(self.pivot.x);
        v.push(self.pivot.y);
        v.push(self.color.r);
        v.push(self.color.g);
        v.push(self.color.b);
        v.push(self.color.a);
        v.push(self.uv_rect.begin.x);
        v.push(self.uv_rect.begin.y);
        v.push(self.uv_rect.end.x);
        v.push(self.uv_rect.end.y);
        v.push(self.z);
        v.push(self.height);
        #[verifier::truncate]
        let id_field: i32 = self.material_id as i32;
        v.push(id_field);
        v
    }
}

} // verus!
