//! The camera: a world transform and the world-space size of the view.

use crate::fixed::{lemma_fp_mul_one, lemma_fp_mul_zero, FP_ONE};
use crate::matrix3x2::{identity_mat, Matrix3x2};
use crate::vector2::Vector2;
use vstd::prelude::*;

verus! {

pub struct Camera {
    pub transform: Matrix3x2,
    pub view_size: Vector2,
}

impl Camera {
    /// A camera at the origin with no rotation and a 1280x720-unit view.
    pub fn new() -> (c: Camera)
        ensures
            c.transform@ == identity_mat(),
            c.view_size.x == 1280 * FP_ONE,
            c.view_size.y == 720 * FP_ONE,
    {
        proof {
            lemma_fp_mul_one(FP_ONE as int);
            lemma_fp_mul_one(0int);
            lemma_fp_mul_zero(FP_ONE as int);
        }
        Camera {
            transform: Matrix3x2::new_transform(
                Vector2 { x: 0, y: 0 },
                Vector2 { x: FP_ONE, y: FP_ONE },
                FP_ONE,
                0,
            ),
            view_size: Vector2 { x: 1280 * FP_ONE, y: 720 * FP_ONE },
        }
    }
}

} // verus!
