//! An axis-aligned rectangle given by two corners, used for UV regions in
//! normalized texture space.

use crate::fixed::FP_ONE;
use crate::vector2::Vector2;
use vstd::prelude::*;

verus! {

#[derive(Clone, Copy, PartialEq, Eq, Structural, Debug)]
pub struct Rect {
    pub begin: Vector2,
    pub end: Vector2,
}

impl Rect {
    /// The full texture: from (0, 0) to one whole unit in each axis.
    pub fn new_uv() -> (r: Rect)
        ensures
            r.begin == (Vector2 { x: 0, y: 0 }),
            r.end == (Vector2 { x: FP_ONE, y: FP_ONE }),
    {
        Rect {
            begin: Vector2 { x: 0, y: 0 },
            end: Vector2 { x: FP_ONE, y: FP_ONE },
        }
    }
}

} // verus!
