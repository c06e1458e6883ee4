//! The fragment arithmetic of the lighting pass, on fixed-point scalars:
//! ambient modulation, point-light attenuation, the packed-normal
//! reconstruction and the additive compositing of light passes.
//!
//! The normal reconstruction keeps this pipeline's own convention: the
//! z component is `1 - (nx*nx + ny*ny)`, which does not normalize the
//! vector; it is reproduced, not corrected.

use crate::color::Color;
use crate::fixed::{
    fp_mul, lemma_fp_mul_mono, lemma_fp_mul_one, lemma_fp_mul_unit, lemma_fp_mul_zero, FP_ONE,
};
use crate::point_light::PointLight;
use crate::vector2::Vector2;
use vstd::prelude::*;

verus! {

/// Coordinates handed to the point-light shading are kept within this
/// bound so that squared distances fit the machine words.
pub const COORD_LIMIT: i32 = 0x4000_0000;

/// The integer square root, rounded down.
pub open spec fn sqrt_floor(n: nat) -> nat
    decreases n,
{
    if n == 0 {
        0
    } else {
        let r = sqrt_floor((n - 1) as nat);
        if (r + 1) * (r + 1) <= n {
            r + 1
        } else {
            r
        }
    }
}

/// `sqrt_floor` is exactly the rounded-down square root.
pub proof fn lemma_sqrt_floor(n: nat)
    ensures
        sqrt_floor(n) * sqrt_floor(n) <= n,
        n < (sqrt_floor(n) + 1) * (sqrt_floor(n) + 1),
    decreases n,
{
    reveal_with_fuel(sqrt_floor, 2);
    if n == 0 {
        assert(sqrt_floor(n) == 0);
        assert(sqrt_floor(n) * sqrt_floor(n) <= n && n < (sqrt_floor(n) + 1) * (sqrt_floor(n)
            + 1)) by (nonlinear_arith)
            requires
                n == 0,
                sqrt_floor(n) == 0;
    } else {
        lemma_sqrt_floor((n - 1) as nat);
        let r = sqrt_floor((n - 1) as nat);
        let s = sqrt_floor(n);
        if (r + 1) * (r + 1) <= n {
            assert(s == r + 1);
            assert(s * s <= n && n < (s + 1) * (s + 1)) by (nonlinear_arith)
                requires
                    s == r + 1,
                    (r + 1) * (r + 1) <= n,
                    (n - 1) < (r + 1) * (r + 1);
        } else {
            assert(s == r);
            assert(s * s <= n && n < (s + 1) * (s + 1)) by (nonlinear_arith)
                requires
                    s == r,
                    r * r <= n - 1,
                    !((r + 1) * (r + 1) <= n);
        }
        assert(sqrt_floor(n) * sqrt_floor(n) <= n);
        assert(n < (sqrt_floor(n) + 1) * (sqrt_floor(n) + 1));
    }
}

/// Any value bracketed by consecutive squares is the square root.
pub proof fn lemma_sqrt_floor_unique(n: nat, r: nat)
    requires
        r * r <= n,
        n < (r + 1) * (r + 1),
    ensures
        r == sqrt_floor(n),
{
    lemma_sqrt_floor(n);
    let s = sqrt_floor(n);
    if r < s {
        assert(false) by (nonlinear_arith)
            requires
                r < s,
                s * s <= n,
                n < (r + 1) * (r + 1);
    } else if s < r {
        assert(false) by (nonlinear_arith)
            requires
                s < r,
                r * r <= n,
                n < (s + 1) * (s + 1);
    }
}

/// The integer square root of a 64-bit value, by bisection.
pub fn isqrt64(x: u64) -> (r: u64)
    ensures
        r == sqrt_floor(x as nat),
        r * r <= x < (r + 1) * (r + 1),
{
    let mut lo: u64 = 0;
    let mut hi: u64 = 0x1_0000_0000;
    proof {
        assert((0x1_0000_0000 as int) * (0x1_0000_0000 as int) > u64::MAX as int)
            by (nonlinear_arith);
    }
    while lo + 1 < hi
        invariant
            lo < hi <= 0x1_0000_0000,
            (lo as int) * (lo as int) <= x as int,
            (x as int) < (hi as int) * (hi as int),
        decreases hi - lo,
    {
        let mid: u64 = lo + (hi - lo) / 2;
        proof {
            assert((mid as int) * (mid as int) <= 0xffff_ffff * 0xffff_ffff)
                by (nonlinear_arith)
                requires
                    0 <= mid as int <= 0xffff_ffff;
        }
        if mid * mid <= x {
            lo = mid;
        } else {
            hi = mid;
        }
    }
    proof {
        lemma_sqrt_floor_unique(x as nat, lo as nat);
    }
    lo
}

/// One channel of the ambient composite: albedo modulated by the ambient
/// color scaled by the ambient intensity.
pub open spec fn ambient_channel(albedo: int, ambient: int, intensity: int) -> int {
    fp_mul(albedo, fp_mul(ambient, intensity))
}

/// The ambient sub-pass at one fragment: color channels are modulated,
/// alpha is carried through.
pub fn shade_ambient(albedo: &Color, ambience: &Color) -> (c: Color)
    requires
        0 <= albedo.r <= FP_ONE,
        0 <= albedo.g <= FP_ONE,
        0 <= albedo.b <= FP_ONE,
        0 <= albedo.a <= FP_ONE,
        0 <= ambience.r <= FP_ONE,
        0 <= ambience.g <= FP_ONE,
        0 <= ambience.b <= FP_ONE,
        0 <= ambience.a <= FP_ONE,
    ensures
        c.r == ambient_channel(albedo.r as int, ambience.r as int, ambience.a as int),
        c.g == ambient_channel(albedo.g as int, ambience.g as int, ambience.a as int),
        c.b == ambient_channel(albedo.b as int, ambience.b as int, ambience.a as int),
        c.a == albedo.a,
        0 <= c.r <= FP_ONE && 0 <= c.g <= FP_ONE && 0 <= c.b <= FP_ONE,
    {
    proof {
        lemma_fp_mul_one(65536);
        lemma_fp_mul_mono(ambience.r as int, ambience.a as int, 65536, 65536);
        lemma_fp_mul_mono(ambience.g as int, ambience.a as int, 65536, 65536);
        lemma_fp_mul_mono(ambience.b as int, ambience.a as int, 65536, 65536);
        lemma_fp_mul_mono(
            albedo.r as int,
            fp_mul(ambience.r as int, ambience.a as int),
            65536,
            65536,
        );
        lemma_fp_mul_mono(
            albedo.g as int,
            fp_mul(ambience.g as int, ambience.a as int),
            65536,
            65536,
        );
        lemma_fp_mul_mono(
            albedo.b as int,
            fp_mul(ambience.b as int, ambience.a as int),
            65536,
            65536,
        );
    }
    let sr = crate::fixed::mul_fp(ambience.r, ambience.a);
    let sg = crate::fixed::mul_fp(ambience.g, ambience.a);
    let sb = crate::fixed::mul_fp(ambience.b, ambience.a);
    Color {
        r: crate::fixed::mul_fp(albedo.r, sr),
        g: crate::fixed::mul_fp(albedo.g, sg),
        b: crate::fixed::mul_fp(albedo.b, sb),
        a: albedo.a,
    }
}

/// Squared linear falloff: `clamp((range - dist) / range, 0, ..)`, then
/// squared. Zero at and beyond the range.
pub open spec fn attenuation_spec(range: int, dist: int) -> int {
    if dist >= range {
        0
    } else {
        let lin = (range - dist) * 65536 / range;
        fp_mul(lin, lin)
    }
}

/// The attenuation factor of a point light at a given distance.
pub fn attenuation(range: i32, dist: i64) -> (a: i32)
    requires
        range >= 1,
        dist >= 0,
    ensures
        a == attenuation_spec(range as int, dist as int),
        0 <= a <= FP_ONE,
        dist >= range ==> a == 0,
    {
    if dist >= range as i64 {
        0
    } else {
        let num: u64 = ((range as i64 - dist) as u64) * 65536;
        let lin: u64 = num / (range as u64);
        proof {
            vstd::arithmetic::div_mod::lemma_div_is_ordered(
                (range - dist) * 65536,
                (range as int) * 65536,
                range as int,
            );
            vstd::arithmetic::div_mod::lemma_div_multiples_vanish(65536, range as int);
            vstd::arithmetic::div_mod::lemma_div_pos_is_pos((range - dist) * 65536, range as int);
            assert((range as int) * 65536 == 65536 * (range as int)) by (nonlinear_arith);
            assert(0 <= (range - dist) * 65536) by (nonlinear_arith)
                requires
                    dist < range;
            assert((range - dist) * 65536 <= (range as int) * 65536) by (nonlinear_arith)
                requires
                    0 <= dist,
                    dist < range;
            assert(lin as int <= 65536);
            assert(lin as int * lin as int <= 65536int * 65536) by (nonlinear_arith)
                requires
                    0 <= lin as int <= 65536;
        }
        let att: u64 = (lin * lin) / 65536;
        proof {
            lemma_fp_mul_mono(lin as int, lin as int, 65536, 65536);
            lemma_fp_mul_one(65536);
        }
        att as i32
    }
}

/// A packed-normal channel remapped from `[0, 1]` to `[-1, 1]`.
pub open spec fn remap_channel(ch: int) -> int {
    2 * ch - 65536
}

/// The derived z component of the reconstructed normal:
/// `1 - (nx*nx + ny*ny)`. The resulting vector is intentionally not
/// normalized.
pub open spec fn flat_nz(nx: int, ny: int) -> int {
    65536 - (fp_mul(nx, nx) + fp_mul(ny, ny))
}

/// One component of the normalized direction from the fragment to the
/// light; zero if the fragment sits exactly on the light.
pub open spec fn dir_component(delta: int, dist: int) -> int {
    if dist == 0 {
        0
    } else {
        delta * 65536 / dist
    }
}

/// The diffuse term: the dot product of the light direction and the
/// reconstructed normal, clamped to be non-negative.
pub open spec fn lambert(dx: int, dy: int, dz: int, nx: int, ny: int, nz: int) -> int {
    let dot = fp_mul(dx, nx) + fp_mul(dy, ny) + fp_mul(dz, nz);
    if dot > 0 {
        dot
    } else {
        0
    }
}

/// One channel of a point light's contribution.
pub open spec fn light_channel(albedo: int, light: int, intensity: int, att: int, theta: int) -> int {
    fp_mul(fp_mul(fp_mul(albedo, fp_mul(light, intensity)), att), theta)
}

/// The point-light sub-pass at one fragment. The fragment sits at `frag`
/// in world space at height zero; the light hovers at its own height
/// above its position. A light with a non-positive range is clamped to
/// the smallest positive range instead of dividing by zero. A fragment
/// at or beyond the range receives nothing.
pub fn shade_point_light(
    albedo: &Color,
    normal_sample: &Color,
    light: &PointLight,
    frag: Vector2,
) -> (c: Color)
    requires
        0 <= albedo.r <= FP_ONE,
        0 <= albedo.g <= FP_ONE,
        0 <= albedo.b <= FP_ONE,
        0 <= normal_sample.r <= FP_ONE,
        0 <= normal_sample.g <= FP_ONE,
        0 <= light.color.r <= FP_ONE,
        0 <= light.color.g <= FP_ONE,
        0 <= light.color.b <= FP_ONE,
        0 <= light.color.a <= FP_ONE,
        -COORD_LIMIT <= frag.x <= COORD_LIMIT,
        -COORD_LIMIT <= frag.y <= COORD_LIMIT,
        -COORD_LIMIT <= light.position.x <= COORD_LIMIT,
        -COORD_LIMIT <= light.position.y <= COORD_LIMIT,
        -COORD_LIMIT <= light.height <= COORD_LIMIT,
    ensures
        ({
            let dxl = light.position.x - frag.x;
            let dyl = light.position.y - frag.y;
            let dzl = light.height as int;
            let dist = sqrt_floor((dxl * dxl + dyl * dyl + dzl * dzl) as nat) as int;
            let range = if light.range < 1 {
                1int
            } else {
                light.range as int
            };
            let att = attenuation_spec(range, dist);
            let nx = remap_channel(normal_sample.r as int);
            let ny = remap_channel(normal_sample.g as int);
            let nz = flat_nz(nx, ny);
            let theta = lambert(
                dir_component(dxl, dist),
                dir_component(dyl, dist),
                dir_component(dzl, dist),
                nx,
                ny,
                nz,
            );
            &&& c.r == light_channel(
                albedo.r as int,
                light.color.r as int,
                light.color.a as int,
                att,
                theta,
            )
            &&& c.g == light_channel(
                albedo.g as int,
                light.color.g as int,
                light.color.a as int,
                att,
                theta,
            )
            &&& c.b == light_channel(
                albedo.b as int,
                light.color.b as int,
                light.color.a as int,
                att,
                theta,
            )
            &&& c.a == FP_ONE
            &&& dist >= range ==> c.r == 0 && c.g == 0 && c.b == 0
        }),
{
    let dx: i64 = light.position.x as i64 - frag.x as i64;
    let dy: i64 = light.position.y as i64 - frag.y as i64;
    let dz: i64 = light.height as i64;
    proof {
        assert(0 <= dx * dx <= 0x4000_0000_0000_0000 && 0 <= dy * dy <= 0x4000_0000_0000_0000
            && 0 <= dz * dz <= 0x4000_0000_0000_0000) by (nonlinear_arith)
            requires
                -0x8000_0000 <= dx <= 0x8000_0000,
                -0x8000_0000 <= dy <= 0x8000_0000,
                -0x4000_0000 <= dz <= 0x4000_0000;
    }
    let sq: u64 = ((dx * dx) as u64) + ((dy * dy) as u64) + ((dz * dz) as u64);
    let dist_root: u64 = isqrt64(sq);
    proof {
        assert(dist_root <= 0xffff_ffffu64) by (nonlinear_arith)
            requires
                (dist_root as int) * (dist_root as int) <= sq as int,
                sq as int <= u64::MAX as int;
    }
    let dist: i64 = dist_root as i64;
    let range: i32 = if light.range < 1 {
        1
    } else {
        light.range
    };
    let att: i32 = attenuation(range, dist);

    let nx: i32 = 2 * normal_sample.r - FP_ONE;
    let ny: i32 = 2 * normal_sample.g - FP_ONE;
    proof {
        lemma_fp_mul_unit(nx as int, nx as int);
        lemma_fp_mul_unit(ny as int, ny as int);
        assert(0 <= (nx as int) * (nx as int) && 0 <= (ny as int) * (ny as int))
            by (nonlinear_arith);
        vstd::arithmetic::div_mod::lemma_div_pos_is_pos((nx as int) * (nx as int), 65536);
        vstd::arithmetic::div_mod::lemma_div_pos_is_pos((ny as int) * (ny as int), 65536);
    }
    let nxx: i32 = crate::fixed::mul_fp(nx, nx);
    let nyy: i32 = crate::fixed::mul_fp(ny, ny);
    let nz: i32 = FP_ONE - (nxx + nyy);

    let dir_x: i32;
    let dir_y: i32;
    let dir_z: i32;
    if dist == 0 {
        dir_x = 0;
        dir_y = 0;
        dir_z = 0;
    } else {
        proof {
            assert(dx * dx <= sq as int && dy * dy <= sq as int && dz * dz <= sq as int);
            assert(-dist <= dx <= dist && -dist <= dy <= dist && -dist <= dz <= dist)
                by (nonlinear_arith)
                requires
                    dx * dx <= sq as int,
                    dy * dy <= sq as int,
                    dz * dz <= sq as int,
                    sq < (dist + 1) * (dist + 1),
                    dist as int >= 0;
            vstd::arithmetic::div_mod::lemma_div_is_ordered(
                dx as int * 65536,
                dist as int * 65536,
                dist as int,
            );
            vstd::arithmetic::div_mod::lemma_div_is_ordered(
                -(dist as int) * 65536,
                dx as int * 65536,
                dist as int,
            );
            vstd::arithmetic::div_mod::lemma_div_is_ordered(
                dy as int * 65536,
                dist as int * 65536,
                dist as int,
            );
            vstd::arithmetic::div_mod::lemma_div_is_ordered(
                -(dist as int) * 65536,
                dy as int * 65536,
                dist as int,
            );
            vstd::arithmetic::div_mod::lemma_div_is_ordered(
                dz as int * 65536,
                dist as int * 65536,
                dist as int,
            );
            vstd::arithmetic::div_mod::lemma_div_is_ordered(
                -(dist as int) * 65536,
                dz as int * 65536,
                dist as int,
            );
            vstd::arithmetic::div_mod::lemma_div_multiples_vanish(65536, dist as int);
            vstd::arithmetic::div_mod::lemma_div_multiples_vanish(-65536, dist as int);
            assert(dist as int * 65536 == (dist as int) * 65536);
            assert(-(dist as int) * 65536 == (dist as int) * -65536) by (nonlinear_arith);
            assert((dist as int) * 65536 == 65536 * (dist as int)) by (nonlinear_arith);
            assert((dist as int) * -65536 == -65536 * (dist as int)) by (nonlinear_arith);
        }
        dir_x = crate::fixed::div_floor(dx * 65536, dist) as i32;
        dir_y = crate::fixed::div_floor(dy * 65536, dist) as i32;
        dir_z = crate::fixed::div_floor(dz * 65536, dist) as i32;
    }
    proof {
        lemma_fp_mul_unit(dir_x as int, nx as int);
        lemma_fp_mul_unit(dir_y as int, ny as int);
        lemma_fp_mul_unit(dir_z as int, nz as int);
    }
    let dot: i32 = crate::fixed::mul_fp(dir_x, nx) + crate::fixed::mul_fp(dir_y, ny)
        + crate::fixed::mul_fp(dir_z, nz);
    let theta: i32 = if dot > 0 {
        dot
    } else {
        0
    };

    proof {
        lemma_fp_mul_one(196608);
        lemma_fp_mul_zero(fp_mul(
            albedo.r as int,
            fp_mul(light.color.r as int, light.color.a as int),
        ));
        lemma_fp_mul_zero(fp_mul(
            albedo.g as int,
            fp_mul(light.color.g as int, light.color.a as int),
        ));
        lemma_fp_mul_zero(fp_mul(
            albedo.b as int,
            fp_mul(light.color.b as int, light.color.a as int),
        ));
        lemma_fp_mul_zero(theta as int);
        lemma_fp_mul_mono(light.color.r as int, light.color.a as int, 65536, 65536);
        lemma_fp_mul_mono(light.color.g as int, light.color.a as int, 65536, 65536);
        lemma_fp_mul_mono(light.color.b as int, light.color.a as int, 65536, 65536);
        lemma_fp_mul_one(65536);
        lemma_fp_mul_mono(
            albedo.r as int,
            fp_mul(light.color.r as int, light.color.a as int),
            65536,
            65536,
        );
        lemma_fp_mul_mono(
            albedo.g as int,
            fp_mul(light.color.g as int, light.color.a as int),
            65536,
            65536,
        );
        lemma_fp_mul_mono(
            albedo.b as int,
            fp_mul(light.color.b as int, light.color.a as int),
            65536,
            65536,
        );
    }
    let lr: i32 = crate::fixed::mul_fp(light.color.r, light.color.a);
    let lg: i32 = crate::fixed::mul_fp(light.color.g, light.color.a);
    let lb: i32 = crate::fixed::mul_fp(light.color.b, light.color.a);
    let mr: i32 = crate::fixed::mul_fp(albedo.r, lr);
    let mg: i32 = crate::fixed::mul_fp(albedo.g, lg);
    let mb: i32 = crate::fixed::mul_fp(albedo.b, lb);
    proof {
        lemma_fp_mul_mono(mr as int, att as int, 65536, 65536);
        lemma_fp_mul_mono(mg as int, att as int, 65536, 65536);
        lemma_fp_mul_mono(mb as int, att as int, 65536, 65536);
    }
    let ar: i32 = crate::fixed::mul_fp(mr, att);
    let ag: i32 = crate::fixed::mul_fp(mg, att);
    let ab: i32 = crate::fixed::mul_fp(mb, att);
    proof {
        lemma_fp_mul_mono(ar as int, theta as int, 65536, 196608);
        lemma_fp_mul_mono(ag as int, theta as int, 65536, 196608);
        lemma_fp_mul_mono(ab as int, theta as int, 65536, 196608);
    }
    Color {
        r: crate::fixed::mul_fp(ar, theta),
        g: crate::fixed::mul_fp(ag, theta),
        b: crate::fixed::mul_fp(ab, theta),
        a: FP_ONE,
    }
}

/// A channel clamped to the representable intensity range of the target.
pub open spec fn clamp_channel(x: int) -> int {
    if x < 0 {
        0
    } else if x > 65536 {
        65536
    } else {
        x
    }
}

/// Left-to-right additive accumulation with clamping after every pass,
/// the way the blended target accumulates one pass per light.
pub open spec fn accumulate(acc: int, adds: Seq<int>) -> int
    decreases adds.len(),
{
    if adds.len() == 0 {
        acc
    } else {
        accumulate(clamp_channel(acc + adds[0]), adds.drop_first())
    }
}

/// One channel of the composited frame: the ambient result written to the
/// clamped target, then every light added on top.
pub open spec fn composite_channel(base: int, adds: Seq<int>) -> int {
    accumulate(clamp_channel(base), adds)
}

/// Adding one more pass clamps once more on top of the accumulated value.
proof fn lemma_accumulate_push(acc: int, adds: Seq<int>, x: int)
    ensures
        accumulate(acc, adds.push(x)) == clamp_channel(accumulate(acc, adds) + x),
    decreases adds.len(),
{
    reveal_with_fuel(accumulate, 3);
    if adds.len() == 0 {
        assert(adds.push(x).drop_first() =~= Seq::<int>::empty());
        assert(adds.push(x)[0] == x);
    } else {
        assert(adds.push(x).drop_first() =~= adds.drop_first().push(x));
        lemma_accumulate_push(clamp_channel(acc + adds[0]), adds.drop_first(), x);
    }
}

/// Composite the ambient result with every light's contribution at one
/// fragment, clamping after every pass as the blended target does.
pub fn composite_fragment(ambient_out: &Color, light_outputs: &Vec<Color>) -> (c: Color)
    ensures
        c.r == composite_channel(
            ambient_out.r as int,
            light_outputs@.map_values(|l: Color| l.r as int),
        ),
        c.g == composite_channel(
            ambient_out.g as int,
            light_outputs@.map_values(|l: Color| l.g as int),
        ),
        c.b == composite_channel(
            ambient_out.b as int,
            light_outputs@.map_values(|l: Color| l.b as int),
        ),
        c.a == composite_channel(
            ambient_out.a as int,
            light_outputs@.map_values(|l: Color| l.a as int),
        ),
{
    let ghost adds_r = light_outputs@.map_values(|l: Color| l.r as int);
    let ghost adds_g = light_outputs@.map_values(|l: Color| l.g as int);
    let ghost adds_b = light_outputs@.map_values(|l: Color| l.b as int);
    let ghost adds_a = light_outputs@.map_values(|l: Color| l.a as int);
    let mut r: i32 = clamp_exec(ambient_out.r as i64);
    let mut g: i32 = clamp_exec(ambient_out.g as i64);
    let mut b: i32 = clamp_exec(ambient_out.b as i64);
    let mut a: i32 = clamp_exec(ambient_out.a as i64);
    let n: usize = light_outputs.len();
    let mut i: usize = 0;
    proof {
        assert(adds_r.take(0) =~= Seq::<int>::empty());
        assert(adds_g.take(0) =~= Seq::<int>::empty());
        assert(adds_b.take(0) =~= Seq::<int>::empty());
        assert(adds_a.take(0) =~= Seq::<int>::empty());
    }
    while i < n
        invariant
            i <= n,
            n == light_outputs@.len(),
            adds_r == light_outputs@.map_values(|l: Color| l.r as int),
            adds_g == light_outputs@.map_values(|l: Color| l.g as int),
            adds_b == light_outputs@.map_values(|l: Color| l.b as int),
            adds_a == light_outputs@.map_values(|l: Color| l.a as int),
            r == accumulate(clamp_channel(ambient_out.r as int), adds_r.take(i as int)),
            g == accumulate(clamp_channel(ambient_out.g as int), adds_g.take(i as int)),
            b == accumulate(clamp_channel(ambient_out.b as int), adds_b.take(i as int)),
            a == accumulate(clamp_channel(ambient_out.a as int), adds_a.take(i as int)),
            0 <= r <= FP_ONE && 0 <= g <= FP_ONE && 0 <= b <= FP_ONE && 0 <= a <= FP_ONE,
        decreases n - i,
    {
        let light = light_outputs[i];
        proof {
            assert(adds_r.take(i as int + 1) =~= adds_r.take(i as int).push(light.r as int));
            assert(adds_g.take(i as int + 1) =~= adds_g.take(i as int).push(light.g as int));
            assert(adds_b.take(i as int + 1) =~= adds_b.take(i as int).push(light.b as int));
            assert(adds_a.take(i as int + 1) =~= adds_a.take(i as int).push(light.a as int));
            lemma_accumulate_push(
                clamp_channel(ambient_out.r as int),
                adds_r.take(i as int),
                light.r as int,
            );
            lemma_accumulate_push(
                clamp_channel(ambient_out.g as int),
                adds_g.take(i as int),
                light.g as int,
            );
            lemma_accumulate_push(
                clamp_channel(ambient_out.b as int),
                adds_b.take(i as int),
                light.b as int,
            );
            lemma_accumulate_push(
                clamp_channel(ambient_out.a as int),
                adds_a.take(i as int),
                light.a as int,
            );
        }
        r = clamp_exec(r as i64 + light.r as i64);
        g = clamp_exec(g as i64 + light.g as i64);
        b = clamp_exec(b as i64 + light.b as i64);
        a = clamp_exec(a as i64 + light.a as i64);
        i += 1;
    }
    proof {
        assert(adds_r.take(n as int) =~= adds_r);
        assert(adds_g.take(n as int) =~= adds_g);
        assert(adds_b.take(n as int) =~= adds_b);
        assert(adds_a.take(n as int) =~= adds_a);
    }
    Color { r, g, b, a }
}

/// Clamp one accumulated channel to the target's range.
fn clamp_exec(x: i64) -> (r: i32)
    ensures
        r == clamp_channel(x as int),
        0 <= r <= FP_ONE,
{
    if x < 0 {
        0
    } else if x > 65536 {
        FP_ONE
    } else {
        x as i32
    }
}

/// With no lights and a full-white, full-intensity ambient color, the
/// composited output at a fragment is exactly the albedo the geometry
/// pass wrote there.
pub proof fn lemma_ambient_only_identity(albedo: Color)
    requires
        0 <= albedo.r <= FP_ONE,
        0 <= albedo.g <= FP_ONE,
        0 <= albedo.b <= FP_ONE,
        0 <= albedo.a <= FP_ONE,
    ensures
        composite_channel(
            ambient_channel(albedo.r as int, FP_ONE as int, FP_ONE as int),
            Seq::<int>::empty(),
        ) == albedo.r,
        composite_channel(
            ambient_channel(albedo.g as int, FP_ONE as int, FP_ONE as int),
            Seq::<int>::empty(),
        ) == albedo.g,
        composite_channel(
            ambient_channel(albedo.b as int, FP_ONE as int, FP_ONE as int),
            Seq::<int>::empty(),
        ) == albedo.b,
        composite_channel(albedo.a as int, Seq::<int>::empty()) == albedo.a,
{
    lemma_fp_mul_one(65536);
    lemma_fp_mul_one(albedo.r as int);
    lemma_fp_mul_one(albedo.g as int);
    lemma_fp_mul_one(albedo.b as int);
}

} // verus!
