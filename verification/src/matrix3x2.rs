//! A 2D affine transform held as a 3x2 matrix of fixed-point scalars:
//! a 2x2 rotation/scale block in the first two rows and a translation pair
//! in the third row.
//!
//! The composition convention is fixed and load-bearing: `translate`
//! composes `self` with a translation matrix on the right, while `rotate`
//! composes a rotation matrix with `self` on the left. Rotation therefore
//! turns the rotation block in place and never moves the translation row.

use crate::fixed::{fits, fp_mul, lemma_fp_mul_one, lemma_fp_mul_zero, FP_ONE};
use crate::vector2::Vector2;
use vstd::prelude::*;

verus! {

/// The mathematical value of a transform: six unbounded integers.
pub ghost struct Mat3 {
    pub m00: int,
    pub m01: int,
    pub m10: int,
    pub m11: int,
    pub m20: int,
    pub m21: int,
}

/// Identity transform.
pub open spec fn identity_mat() -> Mat3 {
    Mat3 { m00: 65536, m01: 0, m10: 0, m11: 65536, m20: 0, m21: 0 }
}

/// Pure translation by `(tx, ty)`.
pub open spec fn translation_mat(tx: int, ty: int) -> Mat3 {
    Mat3 { m00: 65536, m01: 0, m10: 0, m11: 65536, m20: tx, m21: ty }
}

/// Pure scale by `(sx, sy)`.
pub open spec fn scale_mat(sx: int, sy: int) -> Mat3 {
    Mat3 { m00: sx, m01: 0, m10: 0, m11: sy, m20: 0, m21: 0 }
}

/// Pure rotation whose cosine/sine pair is `(c, s)`.
pub open spec fn rotation_mat(c: int, s: int) -> Mat3 {
    Mat3 { m00: c, m01: s, m10: -s, m11: c, m20: 0, m21: 0 }
}

/// Rotation by `(c, s)` and scale by `(sx, sy)`, translated to `(px, py)`.
pub open spec fn transform_mat(px: int, py: int, sx: int, sy: int, c: int, s: int) -> Mat3 {
    Mat3 {
        m00: fp_mul(c, sx),
        m01: fp_mul(s, sx),
        m10: fp_mul(-s, sy),
        m11: fp_mul(c, sy),
        m20: px,
        m21: py,
    }
}

/// The rotation block transposed, with the translation row zeroed.
pub open spec fn transpose_rot(m: Mat3) -> Mat3 {
    Mat3 { m00: m.m00, m01: m.m10, m10: m.m01, m11: m.m11, m20: 0, m21: 0 }
}

/// Matrix product `a * b` of two affine transforms in fixed point, each
/// scalar product floor-divided back to scale on its own.
pub open spec fn compose(a: Mat3, b: Mat3) -> Mat3 {
    Mat3 {
        m00: fp_mul(a.m00, b.m00) + fp_mul(a.m01, b.m10),
        m01: fp_mul(a.m00, b.m01) + fp_mul(a.m01, b.m11),
        m10: fp_mul(a.m10, b.m00) + fp_mul(a.m11, b.m10),
        m11: fp_mul(a.m10, b.m01) + fp_mul(a.m11, b.m11),
        m20: fp_mul(a.m20, b.m00) + fp_mul(a.m21, b.m10) + b.m20,
        m21: fp_mul(a.m20, b.m01) + fp_mul(a.m21, b.m11) + b.m21,
    }
}

/// Whether every entry is representable as an `i32` scalar.
pub open spec fn mat_fits(m: Mat3) -> bool {
    fits(m.m00) && fits(m.m01) && fits(m.m10) && fits(m.m11) && fits(m.m20) && fits(m.m21)
}

/// Whether the approximate inverse of `m` stays within the scalar range.
pub open spec fn inverse_fits(m: Mat3) -> bool {
    &&& m.m20 > i32::MIN
    &&& m.m21 > i32::MIN
    &&& fits(fp_mul(-m.m20, m.m00) + fp_mul(-m.m21, m.m01))
    &&& fits(fp_mul(-m.m20, m.m10) + fp_mul(-m.m21, m.m11))
}

#[derive(Clone, Copy, PartialEq, Eq, Structural, Debug)]
pub struct Matrix3x2 {
    pub m00: i32,
    pub m01: i32,
    pub m10: i32,
    pub m11: i32,
    pub m20: i32,
    pub m21: i32,
}

impl View for Matrix3x2 {
    type V = Mat3;

    open spec fn view(&self) -> Mat3 {
        Mat3 {
            m00: self.m00 as int,
            m01: self.m01 as int,
            m10: self.m10 as int,
            m11: self.m11 as int,
            m20: self.m20 as int,
            m21: self.m21 as int,
        }
    }
}

/// Fixed-point product of two scalars, kept wide; never overflows.
fn mul_wide(a: i32, b: i32) -> (r: i64)
    ensures
        r == fp_mul(a as int, b as int),
{
    proof {
        assert(i64::MIN <= (a as int) * (b as int) <= i64::MAX) by (nonlinear_arith)
            requires
                i32::MIN <= a as int <= i32::MAX,
                i32::MIN <= b as int <= i32::MAX;
    }
    crate::fixed::div_scale((a as i64) * (b as i64))
}

/// Fixed-point product of the negation of `a` with `b`, kept wide.
fn mul_wide_neg(a: i32, b: i32) -> (r: i64)
    ensures
        r == fp_mul(-(a as int), b as int),
{
    proof {
        assert(i64::MIN <= (-(a as int)) * (b as int) <= i64::MAX) by (nonlinear_arith)
            requires
                i32::MIN <= a as int <= i32::MAX,
                i32::MIN <= b as int <= i32::MAX;
    }
    crate::fixed::div_scale((-(a as i64)) * (b as i64))
}

impl Matrix3x2 {
    /// The identity transform.
    pub fn new() -> (m: Matrix3x2)
        ensures
            m@ == identity_mat(),
    {
        Matrix3x2 { m00: FP_ONE, m01: 0, m10: 0, m11: FP_ONE, m20: 0, m21: 0 }
    }

    /// A transform that rotates by the cosine/sine pair `(rot_cos, rot_sin)`,
    /// scales by `scale`, and translates to `position`.
    pub fn new_transform(position: Vector2, scale: Vector2, rot_cos: i32, rot_sin: i32) -> (m:
        Matrix3x2)
        requires
            fits(fp_mul(rot_cos as int, scale.x as int)),
            fits(fp_mul(rot_sin as int, scale.x as int)),
            fits(fp_mul(-(rot_sin as int), scale.y as int)),
            fits(fp_mul(rot_cos as int, scale.y as int)),
        ensures
            m@ == transform_mat(
                position.x as int,
                position.y as int,
                scale.x as int,
                scale.y as int,
                rot_cos as int,
                rot_sin as int,
            ),
    {
        let m00: i64 = mul_wide(rot_cos, scale.x);
        let m01: i64 = mul_wide(rot_sin, scale.x);
        let m10: i64 = mul_wide_neg(rot_sin, scale.y);
        let m11: i64 = mul_wide(rot_cos, scale.y);
        Matrix3x2 {
            m00: m00 as i32,
            m01: m01 as i32,
            m10: m10 as i32,
            m11: m11 as i32,
            m20: position.x,
            m21: position.y,
        }
    }

    /// A pure translation to `position`.
    pub fn new_translation(position: Vector2) -> (m: Matrix3x2)
        ensures
            m@ == translation_mat(position.x as int, position.y as int),
    {
        Matrix3x2 { m00: FP_ONE, m01: 0, m10: 0, m11: FP_ONE, m20: position.x, m21: position.y }
    }

    /// A pure scale by `scale`.
    pub fn new_scale(scale: Vector2) -> (m: Matrix3x2)
        ensures
            m@ == scale_mat(scale.x as int, scale.y as int),
    {
        Matrix3x2 { m00: scale.x, m01: 0, m10: 0, m11: scale.y, m20: 0, m21: 0 }
    }

    /// A rotation block built from the cosine/sine pair. Note the block it
    /// fills is `[c, s; -c, s]`, which mirrors the first column instead of
    /// transposing it; `new_transform` is the one that builds the usual
    /// `[c, s; -s, c]` block.
    pub fn new_rotation(rot_cos: i32, rot_sin: i32) -> (m: Matrix3x2)
        requires
            rot_cos > i32::MIN,
        ensures
            m@ == (Mat3 {
                m00: rot_cos as int,
                m01: rot_sin as int,
                m10: -(rot_cos as int),
                m11: rot_sin as int,
                m20: 0,
                m21: 0,
            }),
    {
        Matrix3x2 { m00: rot_cos, m01: rot_sin, m10: -rot_cos, m11: rot_sin, m20: 0, m21: 0 }
    }

    /// The matrix product `a * b`.
    fn mul(a: &Matrix3x2, b: &Matrix3x2) -> (m: Matrix3x2)
        requires
            mat_fits(compose(a@, b@)),
        ensures
            m@ == compose(a@, b@),
    {
        let m00: i64 = mul_wide(a.m00, b.m00) + mul_wide(a.m01, b.m10);
        let m01: i64 = mul_wide(a.m00, b.m01) + mul_wide(a.m01, b.m11);
        let m10: i64 = mul_wide(a.m10, b.m00) + mul_wide(a.m11, b.m10);
        let m11: i64 = mul_wide(a.m10, b.m01) + mul_wide(a.m11, b.m11);
        let m20: i64 = mul_wide(a.m20, b.m00) + mul_wide(a.m21, b.m10) + (b.m20 as i64);
        let m21: i64 = mul_wide(a.m20, b.m01) + mul_wide(a.m21, b.m11) + (b.m21 as i64);
        Matrix3x2 {
            m00: m00 as i32,
            m01: m01 as i32,
            m10: m10 as i32,
            m11: m11 as i32,
            m20: m20 as i32,
            m21: m21 as i32,
        }
    }

    /// An approximate inverse: transposes the rotation block and re-applies
    /// the negated translation through it. It deliberately does not invert a
    /// non-unit scale; with such a scale the result is not a true inverse.
    pub fn inverse(&self) -> (m: Matrix3x2)
        requires
            inverse_fits(self@),
        ensures
            m@ == compose(
                translation_mat(-(self.m20 as int), -(self.m21 as int)),
                transpose_rot(self@),
            ),
            m.m00 == self.m00,
            m.m01 == self.m10,
            m.m10 == self.m01,
            m.m11 == self.m11,
    {
        let rot = Matrix3x2 {
            m00: self.m00,
            m01: self.m10,
            m10: self.m01,
            m11: self.m11,
            m20: 0,
            m21: 0,
        };
        let pos = Matrix3x2::new_translation(Vector2 { x: -self.m20, y: -self.m21 });
        proof {
            lemma_fp_mul_one(rot@.m00);
            lemma_fp_mul_one(rot@.m01);
            lemma_fp_mul_one(rot@.m10);
            lemma_fp_mul_one(rot@.m11);
            lemma_fp_mul_zero(rot@.m00);
            lemma_fp_mul_zero(rot@.m01);
            lemma_fp_mul_zero(rot@.m10);
            lemma_fp_mul_zero(rot@.m11);
        }
        Matrix3x2::mul(&pos, &rot)
    }

    /// Translate in world space: compose `self` with a pure translation on
    /// the right, which adds the offset to the translation row and leaves
    /// the rotation block untouched.
    pub fn translate(&mut self, translation: Vector2)
        requires
            fits(old(self).m20 + translation.x),
            fits(old(self).m21 + translation.y),
        ensures
            final(self)@ == compose(
                old(self)@,
                translation_mat(translation.x as int, translation.y as int),
            ),
            final(self).m00 == old(self).m00,
            final(self).m01 == old(self).m01,
            final(self).m10 == old(self).m10,
            final(self).m11 == old(self).m11,
            final(self).m20 == old(self).m20 + translation.x,
            final(self).m21 == old(self).m21 + translation.y,
    {
        let tra_mat = Matrix3x2::new_translation(translation);
        proof {
            lemma_fp_mul_one(self@.m00);
            lemma_fp_mul_one(self@.m01);
            lemma_fp_mul_one(self@.m10);
            lemma_fp_mul_one(self@.m11);
            lemma_fp_mul_one(self@.m20);
            lemma_fp_mul_one(self@.m21);
            lemma_fp_mul_zero(self@.m00);
            lemma_fp_mul_zero(self@.m01);
            lemma_fp_mul_zero(self@.m10);
            lemma_fp_mul_zero(self@.m11);
            lemma_fp_mul_zero(self@.m20);
            lemma_fp_mul_zero(self@.m21);
        }
        let cop_mat = *self;
        *self = Matrix3x2::mul(&cop_mat, &tra_mat);
    }

    /// Rotate in place: compose a pure rotation with `self` on the left,
    /// which turns the rotation block and leaves the translation row
    /// untouched.
    pub fn rotate(&mut self, rot_cos: i32, rot_sin: i32)
        requires
            rot_sin > i32::MIN,
            fits(fp_mul(rot_cos as int, old(self).m00 as int) + fp_mul(
                rot_sin as int,
                old(self).m10 as int,
            )),
            fits(fp_mul(rot_cos as int, old(self).m01 as int) + fp_mul(
                rot_sin as int,
                old(self).m11 as int,
            )),
            fits(fp_mul(-(rot_sin as int), old(self).m00 as int) + fp_mul(
                rot_cos as int,
                old(self).m10 as int,
            )),
            fits(fp_mul(-(rot_sin as int), old(self).m01 as int) + fp_mul(
                rot_cos as int,
                old(self).m11 as int,
            )),
        ensures
            final(self)@ == compose(rotation_mat(rot_cos as int, rot_sin as int), old(self)@),
            final(self).m20 == old(self).m20,
            final(self).m21 == old(self).m21,
    {
        proof {
            lemma_fp_mul_one(rot_cos as int);
            lemma_fp_mul_one(rot_sin as int);
            lemma_fp_mul_one(-(rot_sin as int));
            lemma_fp_mul_zero(self@.m00);
            lemma_fp_mul_zero(self@.m01);
            lemma_fp_mul_zero(self@.m10);
            lemma_fp_mul_zero(self@.m11);
        }
        let one = Vector2 { x: FP_ONE, y: FP_ONE };
        let rot_mat = Matrix3x2::new_transform(Vector2::new(), one, rot_cos, rot_sin);
        let cop_mat = *self;
        *self = Matrix3x2::mul(&rot_mat, &cop_mat);
    }

    /// The translation row.
    pub fn get_position(&self) -> (v: Vector2)
        ensures
            v.x == self.m20,
            v.y == self.m21,
    {
        Vector2 { x: self.m20, y: self.m21 }
    }
}

/// With this composition convention, translating and then rotating yields
/// exactly the same transform as rotating and then translating: `rotate`
/// composes on the left and only turns the rotation block, while
/// `translate` composes on the right and only adds to the translation row,
/// so the two operations commute entry for entry.
pub proof fn lemma_translate_rotate_commute(m: Mat3, tx: int, ty: int, c: int, s: int)
    ensures
        compose(rotation_mat(c, s), compose(m, translation_mat(tx, ty))) == compose(
            compose(rotation_mat(c, s), m),
            translation_mat(tx, ty),
        ),
{
    lemma_fp_mul_one(m.m00);
    lemma_fp_mul_one(m.m01);
    lemma_fp_mul_one(m.m10);
    lemma_fp_mul_one(m.m11);
    lemma_fp_mul_one(m.m20);
    lemma_fp_mul_one(m.m21);
    lemma_fp_mul_zero(m.m00);
    lemma_fp_mul_zero(m.m01);
    lemma_fp_mul_zero(m.m10);
    lemma_fp_mul_zero(m.m11);
    lemma_fp_mul_zero(m.m20);
    lemma_fp_mul_zero(m.m21);
    let a = compose(rotation_mat(c, s), compose(m, translation_mat(tx, ty)));
    let b = compose(compose(rotation_mat(c, s), m), translation_mat(tx, ty));
    lemma_fp_mul_one(b.m00);
    lemma_fp_mul_one(b.m01);
    lemma_fp_mul_one(b.m10);
    lemma_fp_mul_one(b.m11);
    lemma_fp_mul_one(fp_mul(c, m.m00) + fp_mul(s, m.m10));
    lemma_fp_mul_one(fp_mul(c, m.m01) + fp_mul(s, m.m11));
    lemma_fp_mul_one(fp_mul(-s, m.m00) + fp_mul(c, m.m10));
    lemma_fp_mul_one(fp_mul(-s, m.m01) + fp_mul(c, m.m11));
    lemma_fp_mul_zero(fp_mul(c, m.m00) + fp_mul(s, m.m10));
    lemma_fp_mul_zero(fp_mul(c, m.m01) + fp_mul(s, m.m11));
    lemma_fp_mul_zero(fp_mul(-s, m.m00) + fp_mul(c, m.m10));
    lemma_fp_mul_zero(fp_mul(-s, m.m01) + fp_mul(c, m.m11));
    lemma_fp_mul_zero(c);
    lemma_fp_mul_zero(s);
    lemma_fp_mul_zero(-s);
}

} // verus!
