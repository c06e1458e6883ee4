//! Fixed-point scalar arithmetic.
//!
//! Every geometric and color quantity in the engine is a signed fixed-point
//! number counted in 1/65536ths of a unit, held in an `i32`. Products are
//! computed through a widening `i64` multiply followed by a floor division
//! back to the scalar scale, so `fp_mul` below is the exact mathematical
//! meaning of a scalar product.

use vstd::prelude::*;

verus! {

/// One unit, i.e. the fixed-point scale factor.
pub const FP_ONE: i32 = 65536;

/// Exact meaning of multiplying two fixed-point scalars: the wide product,
/// floor-divided by the scale.
pub open spec fn fp_mul(a: int, b: int) -> int {
    (a * b) / 65536
}

/// Whether a mathematical integer is representable as an `i32` scalar.
pub open spec fn fits(x: int) -> bool {
    i32::MIN <= x <= i32::MAX
}

/// Floor division by a positive divisor.
pub(crate) fn div_floor(x: i64, d: i64) -> (r: i64)
    requires
        d > 0,
    ensures
        r == x as int / d as int,
{
    proof {
        vstd::arithmetic::div_mod::lemma_fundamental_div_mod(x as int, d as int);
        vstd::arithmetic::div_mod::lemma_mod_division_less_than_divisor(x as int, d as int);
        assert(i64::MIN <= x as int / d as int <= i64::MAX) by (nonlinear_arith)
            requires
                0 < d as int,
                x as int == (d as int) * (x as int / d as int) + (x as int % d as int),
                0 <= x as int % (d as int) < d as int,
                i64::MIN <= x as int <= i64::MAX;
    }
    match x.checked_div_euclid(d) {
        Some(q) => q,
        None => {
            proof {
                assert(false);
            }
            0
        },
    }
}

/// Floor division of a wide product by the scale.
pub(crate) fn div_scale(x: i64) -> (r: i64)
    ensures
        r == x as int / 65536,
{
    div_floor(x, 65536)
}

/// Fixed-point product of two scalars.
pub fn mul_fp(a: i32, b: i32) -> (r: i32)
    requires
        fits(fp_mul(a as int, b as int)),
    ensures
        r == fp_mul(a as int, b as int),
{
    let wide: i64 = (a as i64) * (b as i64);
    let q: i64 = div_scale(wide);
    q as i32
}

/// Multiplying by one whole unit is exact.
pub proof fn lemma_fp_mul_one(a: int)
    ensures
        fp_mul(a, 65536) == a,
        fp_mul(65536, a) == a,
{
    vstd::arithmetic::div_mod::lemma_div_multiples_vanish(a, 65536);
    assert(a * 65536 == 65536 * a) by (nonlinear_arith);
}

/// Multiplying by zero gives zero.
pub proof fn lemma_fp_mul_zero(a: int)
    ensures
        fp_mul(a, 0) == 0,
        fp_mul(0, a) == 0,
{
    assert(a * 0 == 0) by (nonlinear_arith);
    assert(0 * a == 0) by (nonlinear_arith);
    vstd::arithmetic::div_mod::lemma_div_of0(65536);
}

/// A product of non-negative scalars is monotone in both factors.
pub proof fn lemma_fp_mul_mono(a: int, b: int, ca: int, cb: int)
    requires
        0 <= a <= ca,
        0 <= b <= cb,
    ensures
        0 <= fp_mul(a, b) <= fp_mul(ca, cb),
{
    assert(0 <= a * b && a * b <= ca * cb) by (nonlinear_arith)
        requires
            0 <= a <= ca,
            0 <= b <= cb;
    vstd::arithmetic::div_mod::lemma_div_is_ordered(a * b, ca * cb, 65536);
    vstd::arithmetic::div_mod::lemma_div_pos_is_pos(a * b, 65536);
}

/// A product of scalars no larger than one unit stays within one unit.
pub proof fn lemma_fp_mul_unit(a: int, b: int)
    requires
        -65536 <= a <= 65536,
        -65536 <= b <= 65536,
    ensures
        -65536 <= fp_mul(a, b) <= 65536,
{
    assert(-(65536 * 65536) <= a * b && a * b <= 65536 * 65536) by (nonlinear_arith)
        requires
            -65536 <= a <= 65536,
            -65536 <= b <= 65536;
    vstd::arithmetic::div_mod::lemma_div_is_ordered(a * b, 65536int * 65536, 65536);
    vstd::arithmetic::div_mod::lemma_div_is_ordered(-(65536int * 65536), a * b, 65536);
    vstd::arithmetic::div_mod::lemma_div_multiples_vanish(65536, 65536);
    vstd::arithmetic::div_mod::lemma_div_multiples_vanish(-65536, 65536);
}

} // verus!
