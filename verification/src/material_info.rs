//! The immutable record describing one material: three texture handles and
//! the source image size.

use crate::vector2::Vector2;
use vstd::prelude::*;

verus! {

#[derive(Clone, Copy, PartialEq, Eq, Structural, Debug)]
pub struct MaterialInfo {
    pub id: u32,
    /// Albedo texture handle; its image size is the authoritative sprite size.
    pub color: u32,
    /// Material-mask texture handle.
    pub material: u32,
    /// Normal texture handle.
    pub normal: u32,
    /// Pixel size of the albedo image, in fixed-point units.
    pub size: Vector2,
}

} // verus!
