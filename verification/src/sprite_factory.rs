//! Builds sprites in their default state.

use crate::color::Color;
use crate::fixed::FP_ONE;
use crate::matrix3x2::{identity_mat, Matrix3x2};
use crate::rect::Rect;
use crate::sprite::Sprite;
use crate::vector2::Vector2;
use vstd::prelude::*;

verus! {

pub struct SpriteFactory {}

impl SpriteFactory {
    pub fn new() -> SpriteFactory {
        SpriteFactory {  }
    }

    /// A fresh sprite for the given material: identity transform, zero
    /// pivot, white tint, full UV rectangle, zero depth and height.
    pub fn new_sprite(&self, material_id: u32) -> (s: Sprite)
        ensures
            s.transform@ == identity_mat(),
            s.pivot == (Vector2 { x: 0, y: 0 }),
            s.color == (Color { r: FP_ONE, g: FP_ONE, b: FP_ONE, a: FP_ONE }),
            s.uv_rect == (Rect {
                begin: Vector2 { x: 0, y: 0 },
                end: Vector2 { x: FP_ONE, y: FP_ONE },
            }),
            s.z == 0,
            s.height == 0,
            s.spec_material_id() == material_id,
    {
        Sprite {
            transform: Matrix3x2::new(),
            pivot: Vector2::new(),
            color: Color::new(),
            uv_rect: Rect::new_uv(),
            z: 0,
            height: 0,
            material_id,
        }
    }
}

} // verus!
