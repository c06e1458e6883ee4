//! The record the texture cache keeps per decoded image.

use crate::vector2::Vector2;
use vstd::prelude::*;

verus! {

#[derive(Clone, Copy, PartialEq, Eq, Structural, Debug)]
pub struct TextureInfo {
    /// GPU texture handle.
    pub id: u32,
    /// Pixel size of the image, in fixed-point units.
    pub size: Vector2,
    /// How many materials acquired this texture; never decremented.
    pub life_count: u32,
}

} // verus!
