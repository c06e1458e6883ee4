use tpixel::color::Color;
use tpixel::fixed::FP_ONE;
use tpixel::lighting::{attenuation, composite_fragment, isqrt64, shade_ambient, shade_point_light};
use tpixel::point_light::PointLight;
use tpixel::vector2::Vector2;

#[test]
fn isqrt_exact_values() {
    assert_eq!(isqrt64(0), 0);
    assert_eq!(isqrt64(1), 1);
    assert_eq!(isqrt64(10), 3);
    assert_eq!(isqrt64(144), 12);
    assert_eq!(isqrt64(u64::MAX), 0xffff_ffff);
    let d = (600 * FP_ONE) as u64;
    assert_eq!(isqrt64(d * d), d);
}

#[test]
fn attenuation_exact_midpoint() {
    // Halfway into the range the linear term is one half, squared a quarter.
    let range = 2 * FP_ONE;
    let dist = FP_ONE as i64;
    assert_eq!(attenuation(range, dist), FP_ONE / 4);
}

#[test]
fn attenuation_is_zero_at_and_beyond_range() {
    let range = 512 * FP_ONE;
    assert_eq!(attenuation(range, (512 * FP_ONE) as i64), 0);
    assert_eq!(attenuation(range, (600 * FP_ONE) as i64), 0);
    assert!(attenuation(range, (256 * FP_ONE) as i64) > 0);
}

#[test]
fn out_of_range_light_contributes_nothing() {
    // A point light with range 512 at the origin and a fragment at
    // distance 600 must come out black.
    let light = PointLight {
        color: Color { r: FP_ONE, g: FP_ONE, b: FP_ONE, a: FP_ONE },
        position: Vector2 { x: 0, y: 0 },
        height: 0,
        range: 512 * FP_ONE,
    };
    let albedo = Color { r: FP_ONE, g: FP_ONE / 2, b: FP_ONE / 4, a: FP_ONE };
    let normal = Color { r: FP_ONE / 2, g: FP_ONE / 2, b: FP_ONE, a: FP_ONE };
    let out = shade_point_light(&albedo, &normal, &light, Vector2 { x: 600 * FP_ONE, y: 0 });
    assert_eq!((out.r, out.g, out.b), (0, 0, 0));
    assert_eq!(out.a, FP_ONE);
}

#[test]
fn in_range_light_facing_fragment_contributes_exactly() {
    // A white light straight above the fragment, halfway into its range,
    // with a flat normal: the linear falloff is one half, squared one
    // quarter, and the diffuse term is exactly one, so every channel
    // comes out at a quarter intensity.
    let light = PointLight {
        color: Color { r: FP_ONE, g: FP_ONE, b: FP_ONE, a: FP_ONE },
        position: Vector2 { x: 0, y: 0 },
        height: 64 * FP_ONE,
        range: 128 * FP_ONE,
    };
    let albedo = Color { r: FP_ONE, g: FP_ONE, b: FP_ONE, a: FP_ONE };
    // A flat normal sample: (0.5, 0.5) remaps to (0, 0), so nz is one.
    let normal = Color { r: FP_ONE / 2, g: FP_ONE / 2, b: FP_ONE, a: FP_ONE };
    let out = shade_point_light(&albedo, &normal, &light, Vector2 { x: 0, y: 0 });
    assert_eq!((out.r, out.g, out.b), (FP_ONE / 4, FP_ONE / 4, FP_ONE / 4));
    assert_eq!(out.a, FP_ONE);
}

#[test]
fn ambient_full_white_passes_albedo_through() {
    let albedo = Color { r: 12345, g: 54321, b: FP_ONE, a: 700 };
    let white = Color { r: FP_ONE, g: FP_ONE, b: FP_ONE, a: FP_ONE };
    let out = shade_ambient(&albedo, &white);
    assert_eq!(out, albedo);
}

#[test]
fn ambient_scales_by_intensity() {
    let albedo = Color { r: FP_ONE, g: FP_ONE, b: FP_ONE, a: FP_ONE };
    let half = Color { r: FP_ONE, g: FP_ONE, b: FP_ONE, a: FP_ONE / 2 };
    let out = shade_ambient(&albedo, &half);
    assert_eq!((out.r, out.g, out.b), (FP_ONE / 2, FP_ONE / 2, FP_ONE / 2));
    assert_eq!(out.a, FP_ONE);
}

#[test]
fn ambient_only_composite_equals_albedo() {
    // With zero lights and ambient color (1,1,1,1) the composited output
    // at a fragment is exactly the G-buffer albedo.
    let albedo = Color { r: 40000, g: 20000, b: 10000, a: FP_ONE };
    let white = Color { r: FP_ONE, g: FP_ONE, b: FP_ONE, a: FP_ONE };
    let ambient_out = shade_ambient(&albedo, &white);
    let no_lights: Vec<Color> = Vec::new();
    let composited = composite_fragment(&ambient_out, &no_lights);
    assert_eq!(composited, albedo);
}

#[test]
fn composite_adds_and_clamps() {
    let base = Color { r: 60000, g: 0, b: 0, a: 0 };
    let lights = vec![
        Color { r: 10000, g: 100, b: 0, a: FP_ONE },
        Color { r: 10000, g: 100, b: 0, a: FP_ONE },
    ];
    let out = composite_fragment(&base, &lights);
    assert_eq!(out.r, FP_ONE); // clamped at one unit
    assert_eq!(out.g, 200);
    assert_eq!(out.b, 0);
    assert_eq!(out.a, FP_ONE);
}
