//! An RGBA color with fixed-point channels; one whole unit per channel is
//! full intensity.

use crate::fixed::FP_ONE;
use vstd::prelude::*;

verus! {

#[derive(Clone, Copy, PartialEq, Eq, Structural, Debug)]
pub struct Color {
    pub r: i32,
    pub g: i32,
    pub b: i32,
    pub a: i32,
}

impl Color {
    /// Opaque white, the default sprite tint.
    pub fn new() -> (c: Color)
        ensures
            c.r == FP_ONE,
            c.g == FP_ONE,
            c.b == FP_ONE,
            c.a == FP_ONE,
    {
        Color { r: FP_ONE, g: FP_ONE, b: FP_ONE, a: FP_ONE }
    }
}

} // verus!
