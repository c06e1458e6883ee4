use tpixel::color::Color;
use tpixel::engine::Engine;
use tpixel::fixed::FP_ONE;
use tpixel::point_light::PointLight;
use tpixel::sprite::Sprite;
use tpixel::texture_info::TextureInfo;
use tpixel::vector2::Vector2;

fn texture(id: u32, w: i32, h: i32) -> TextureInfo {
    TextureInfo { id, size: Vector2 { x: w * FP_ONE, y: h * FP_ONE }, life_count: 1 }
}

#[test]
fn entities_are_allocated_in_order() {
    let mut engine = Engine::new();
    engine.init();
    assert_eq!(engine.registry.create_entity(), 0);
    assert_eq!(engine.registry.create_entity(), 1);
    assert_eq!(engine.registry.create_entity(), 2);
}

#[test]
fn materials_get_sequential_ids_and_albedo_size() {
    let mut engine = Engine::new();
    engine.init();
    let a = engine.new_material(&texture(10, 64, 64), &texture(11, 64, 64), &texture(12, 64, 64));
    let b = engine.new_material(&texture(20, 32, 16), &texture(21, 8, 8), &texture(22, 8, 8));
    assert_eq!(a, 0);
    assert_eq!(b, 1);
}

#[test]
fn new_sprite_starts_in_default_state() {
    let mut engine = Engine::new();
    engine.init();
    let sprite = engine.new_sprite(3);
    assert_eq!(sprite.get_material_id(), 3);
    assert_eq!(sprite.z, 0);
    assert_eq!(sprite.height, 0);
    assert_eq!(sprite.color, Color { r: FP_ONE, g: FP_ONE, b: FP_ONE, a: FP_ONE });
    assert_eq!(sprite.uv_rect.begin, Vector2 { x: 0, y: 0 });
    assert_eq!(sprite.uv_rect.end, Vector2 { x: FP_ONE, y: FP_ONE });
}

#[test]
fn key_edges_are_detected_per_frame() {
    let mut engine = Engine::new();
    engine.init();
    let key = 87;
    assert!(!engine.is_key_down(key));
    assert!(!engine.is_key_pressed(key));

    engine.update_event(key, true);
    assert!(engine.is_key_down(key));
    assert!(engine.is_key_pressed(key)); // first frame down: pressed
    assert!(!engine.is_key_released(key));

    engine.update_input(); // next frame, still held
    assert!(engine.is_key_down(key));
    assert!(!engine.is_key_pressed(key));
    assert!(!engine.is_key_released(key));

    engine.update_input();
    engine.update_event(key, false); // released this frame
    assert!(!engine.is_key_down(key));
    assert!(!engine.is_key_pressed(key));
    assert!(engine.is_key_released(key));

    engine.update_input(); // settled
    assert!(!engine.is_key_released(key));
}

#[test]
fn frame_time_is_remembered() {
    let mut engine = Engine::new();
    engine.start_frame(FP_ONE / 60);
    assert_eq!(engine.get_dt(), FP_ONE / 60);
}

#[test]
fn resize_view_takes_a_third_of_the_framebuffer() {
    let mut engine = Engine::new();
    engine.resize_view(1280, 720);
    assert_eq!(engine.camera.view_size.x, 1280 * FP_ONE / 3);
    assert_eq!(engine.camera.view_size.y, 240 * FP_ONE);
}

#[test]
fn texture_cache_deduplicates_by_path() {
    let mut engine = Engine::new();
    let path = String::from("assets/test_color.png");
    assert!(engine.texture_factory.acquire_cached(&path).is_none());
    engine.texture_factory.register_texture(&path, 31, Vector2 { x: 64 * FP_ONE, y: 64 * FP_ONE });
    let hit = engine.texture_factory.acquire_cached(&path).unwrap();
    assert_eq!(hit.id, 31);
    assert_eq!(hit.life_count, 2);
    let other = String::from("assets/test_normal.png");
    assert!(engine.texture_factory.acquire_cached(&other).is_none());
}

#[test]
fn engine_plans_a_small_scene() {
    let mut engine = Engine::new();
    engine.init();
    let mat = engine.new_material(&texture(1, 128, 128), &texture(2, 128, 128), &texture(3, 128, 128));
    engine.ambient_color = Color { r: FP_ONE, g: FP_ONE, b: FP_ONE, a: FP_ONE / 2 };

    for _ in 0..2 {
        let ent = engine.registry.create_entity();
        let sprite = engine.new_sprite(mat);
        engine.registry.get_map_mut::<Sprite>().insert(ent, sprite);
    }
    let light_ent = engine.registry.create_entity();
    let light = PointLight {
        color: Color { r: FP_ONE, g: FP_ONE, b: FP_ONE, a: FP_ONE },
        position: Vector2 { x: 0, y: 0 },
        height: 64 * FP_ONE,
        range: 512 * FP_ONE,
    };
    engine.registry.get_map_mut::<PointLight>().insert(light_ent, light);

    let plan = engine.render().unwrap();
    assert_eq!(plan.geometry.len(), 1);
    assert_eq!(plan.geometry[0].material.id, mat);
    assert_eq!(plan.geometry[0].instances.len(), 2);
    assert_eq!(plan.lights.len(), 1);
    assert_eq!(plan.ambient_color.a, FP_ONE / 2);

    // A second frame plans the same scene again.
    let plan2 = engine.render().unwrap();
    assert_eq!(plan2.geometry[0].instances.len(), 2);
}
