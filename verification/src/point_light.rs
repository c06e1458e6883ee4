//! The lighting component: a colored point light with a falloff radius.

use crate::color::Color;
use crate::vector2::Vector2;
use vstd::prelude::*;

verus! {

#[derive(Clone, Copy, PartialEq, Eq, Structural, Debug)]
pub struct PointLight {
    /// Color; the alpha channel carries the intensity.
    pub color: Color,
    pub position: Vector2,
    pub height: i32,
    /// Falloff radius of the linear attenuation.
    pub range: i32,
}

} // verus!
