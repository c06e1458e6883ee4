use tpixel::camera::Camera;
use tpixel::color::Color;
use tpixel::deferred_renderer::{DeferredRenderer, RenderError, MAX_GEO_INSTANCE_COUNT};
use tpixel::fixed::FP_ONE;
use tpixel::material_info::MaterialInfo;
use tpixel::matrix3x2::Matrix3x2;
use tpixel::point_light::PointLight;
use tpixel::registry::Registry;
use tpixel::sparse_map::SparseMap;
use tpixel::sprite::Sprite;
use tpixel::sprite_factory::SpriteFactory;
use tpixel::vector2::Vector2;

fn material(id: u32) -> MaterialInfo {
    MaterialInfo {
        id,
        color: 100 + id,
        material: 200 + id,
        normal: 300 + id,
        size: Vector2 { x: 128 * FP_ONE, y: 128 * FP_ONE },
    }
}

#[test]
fn batches_partition_sprites_across_materials() {
    // N sprites across M materials: the per-material batch sizes add up
    // to N and every batch holds only its own material.
    let mut renderer = DeferredRenderer::new();
    renderer.prepare_material(&material(0));
    renderer.prepare_material(&material(1));
    renderer.prepare_material(&material(2));

    let factory = SpriteFactory::new();
    let mut sprites: SparseMap<Sprite> = SparseMap::new();
    for i in 0..30u32 {
        sprites.insert(i, factory.new_sprite(i % 3));
    }

    assert!(renderer.batch_sprites(&sprites).is_ok());
    let draws = renderer.drain_draws();
    assert_eq!(draws.len(), 3);
    let total: usize = draws.iter().map(|d| d.instances.len()).sum();
    assert_eq!(total, 30);
    for d in draws.iter() {
        assert_eq!(d.instances.len(), 10);
        for s in d.instances.iter() {
            assert_eq!(s.get_material_id(), d.material.id);
        }
    }
}

#[test]
fn material_without_drawables_issues_no_draw() {
    let mut renderer = DeferredRenderer::new();
    renderer.prepare_material(&material(0));
    renderer.prepare_material(&material(9));

    let factory = SpriteFactory::new();
    let mut sprites: SparseMap<Sprite> = SparseMap::new();
    sprites.insert(0, factory.new_sprite(0));

    assert!(renderer.batch_sprites(&sprites).is_ok());
    let draws = renderer.drain_draws();
    assert_eq!(draws.len(), 1);
    assert_eq!(draws[0].material.id, 0);
    assert_eq!(draws[0].instances.len(), 1);
}

#[test]
fn grid_scene_fills_exactly_one_bucket() {
    // 1024 sprites laid out as 32x32 grid tiles of one material: batching
    // must produce exactly one non-empty bucket of size 1024 and no
    // bucket for any other material.
    let mut registry = Registry::new();
    registry.init_map::<Sprite>();
    registry.init_map::<PointLight>();

    let mut renderer = DeferredRenderer::new();
    renderer.prepare_material(&material(5));
    renderer.prepare_material(&material(6));

    let factory = SpriteFactory::new();
    for i in 0..1024u32 {
        let ent = registry.create_entity();
        let mut sprite = factory.new_sprite(5);
        let tile_x = (i % 32) as i32 * 128 * FP_ONE - 512 * FP_ONE;
        let tile_y = (i / 32) as i32 * 128 * FP_ONE - 512 * FP_ONE;
        sprite.transform = Matrix3x2::new_translation(Vector2 { x: tile_x, y: tile_y });
        registry.get_map_mut::<Sprite>().insert(ent, sprite);
    }

    let camera = Camera::new();
    let ambient = Color { r: FP_ONE, g: FP_ONE, b: FP_ONE, a: FP_ONE };
    let plan = renderer.render(&registry, &camera, &ambient).unwrap();

    assert_eq!(plan.geometry.len(), 1);
    assert_eq!(plan.geometry[0].material.id, 5);
    assert_eq!(plan.geometry[0].instances.len(), 1024);
    assert_eq!(plan.lights.len(), 0);
    assert_eq!(plan.ambient_color, ambient);
}

#[test]
fn overflowing_a_batch_is_reported() {
    let mut registry = Registry::new();
    registry.init_map::<Sprite>();
    registry.init_map::<PointLight>();

    let mut renderer = DeferredRenderer::new();
    renderer.prepare_material(&material(4));

    let factory = SpriteFactory::new();
    for _ in 0..(MAX_GEO_INSTANCE_COUNT as u32 + 1) {
        let ent = registry.create_entity();
        registry.get_map_mut::<Sprite>().insert(ent, factory.new_sprite(4));
    }

    let camera = Camera::new();
    let ambient = Color { r: 0, g: 0, b: 0, a: 0 };
    let result = renderer.render(&registry, &camera, &ambient);
    assert_eq!(result.err(), Some(RenderError::BatchOverflow { material_id: 4 }));
}

#[test]
fn batches_keep_store_order_and_clear_between_frames() {
    let mut registry = Registry::new();
    registry.init_map::<Sprite>();
    registry.init_map::<PointLight>();

    let mut renderer = DeferredRenderer::new();
    renderer.prepare_material(&material(0));

    let factory = SpriteFactory::new();
    for i in 0..4u32 {
        let ent = registry.create_entity();
        let mut sprite = factory.new_sprite(0);
        sprite.z = i as i32;
        registry.get_map_mut::<Sprite>().insert(ent, sprite);
    }

    let camera = Camera::new();
    let ambient = Color { r: 0, g: 0, b: 0, a: 0 };
    let plan1 = renderer.render(&registry, &camera, &ambient).unwrap();
    assert_eq!(plan1.geometry[0].instances.len(), 4);
    for (i, s) in plan1.geometry[0].instances.iter().enumerate() {
        assert_eq!(s.z, i as i32);
    }
    // Batches were cleared, so a second frame sees the same counts.
    let plan2 = renderer.render(&registry, &camera, &ambient).unwrap();
    assert_eq!(plan2.geometry[0].instances.len(), 4);
}

#[test]
fn plan_carries_camera_and_lights_in_store_order() {
    let mut registry = Registry::new();
    registry.init_map::<Sprite>();
    registry.init_map::<PointLight>();

    let mut renderer = DeferredRenderer::new();
    for i in 0..3u32 {
        let ent = registry.create_entity();
        let light = PointLight {
            color: Color { r: FP_ONE, g: 0, b: 0, a: FP_ONE },
            position: Vector2 { x: i as i32 * FP_ONE, y: 0 },
            height: 64 * FP_ONE,
            range: 512 * FP_ONE,
        };
        registry.get_map_mut::<PointLight>().insert(ent, light);
    }

    let camera = Camera::new();
    let ambient = Color { r: 0, g: 0, b: 0, a: 0 };
    let plan = renderer.render(&registry, &camera, &ambient).unwrap();
    assert_eq!(plan.geometry.len(), 0);
    assert_eq!(plan.lights.len(), 3);
    for (i, l) in plan.lights.iter().enumerate() {
        assert_eq!(l.position.x, i as i32 * FP_ONE);
    }
    assert_eq!(plan.camera_transform, camera.transform);
    // Identity camera: the approximate inverse is the identity as well.
    assert_eq!(plan.camera_transform_inverse, camera.transform);
    assert_eq!(plan.camera_view_half.x, 640 * FP_ONE);
    assert_eq!(plan.camera_view_half.y, 360 * FP_ONE);
}

#[test]
fn instance_layout_is_nineteen_fields() {
    let factory = SpriteFactory::new();
    let mut sprite = factory.new_sprite(7);
    sprite.z = 42;
    sprite.height = 17;
    let fields = sprite.instance_fields();
    assert_eq!(fields.len(), 19);
    assert_eq!(&fields[0..6], &[FP_ONE, 0, 0, FP_ONE, 0, 0]);
    assert_eq!(&fields[6..8], &[0, 0]);
    assert_eq!(&fields[8..12], &[FP_ONE, FP_ONE, FP_ONE, FP_ONE]);
    assert_eq!(&fields[12..16], &[0, 0, FP_ONE, FP_ONE]);
    assert_eq!(fields[16], 42);
    assert_eq!(fields[17], 17);
    assert_eq!(fields[18], 7);
}
