//! The engine: one object owning the registry, the camera, the ambient
//! color, the input state, the factories and the renderer. The window,
//! the clock and the GPU live outside this crate: they deliver plain
//! values (key events, frame times, decoded textures) and execute the
//! frame plans this engine produces.

use crate::camera::Camera;
use crate::color::Color;
use crate::deferred_renderer::{FramePlan, MaterialPrepInfo, RenderError};
use crate::input_manager::{InputManager, KeyState};
use crate::material_factory::MaterialFactory;
use crate::matrix3x2::identity_mat;
use crate::point_light::PointLight;
use crate::registry::{Component, Registry};
use crate::renderer::Renderer;
use crate::sprite::Sprite;
use crate::sprite_factory::SpriteFactory;
use crate::texture_factory::TextureFactory;
use crate::vector2::Vector2;
use vstd::prelude::*;

verus! {

pub struct Engine {
    pub registry: Registry,
    pub camera: Camera,
    pub ambient_color: Color,
    /// Seconds since the previous frame, as a fixed-point scalar.
    pub delta_time: i32,
    pub input_manager: InputManager,
    pub renderer: Renderer,
    pub sprite_factory: SpriteFactory,
    /// The texture cache; the image decoding that feeds it lives outside.
    pub texture_factory: TextureFactory,
    pub material_factory: MaterialFactory,
}

impl Engine {
    /// The tracked key states.
    pub open spec fn input_states(&self) -> Map<u32, KeyState> {
        self.input_manager.states()
    }

    /// The renderer's material preparation table.
    pub open spec fn preps(&self) -> Seq<(u32, MaterialPrepInfo)> {
        self.renderer.preps()
    }

    /// Whether a material id has been prepared for drawing.
    pub open spec fn prepared(&self, id: u32) -> bool {
        self.renderer.prepared(id)
    }

    /// Whether every batch is empty, as between frames.
    pub open spec fn batches_clear(&self) -> bool {
        self.renderer.batches_clear()
    }

    /// The next material id the factory will hand out.
    pub open spec fn next_material_id(&self) -> u32 {
        self.material_factory.spec_next_id()
    }

    /// The stored frame time.
    pub open spec fn spec_dt(&self) -> i32 {
        self.delta_time
    }

    pub open spec fn wf(&self) -> bool {
        &&& self.registry.wf()
        &&& self.input_manager.wf()
        &&& self.renderer.wf()
        &&& self.texture_factory.wf()
    }

    pub fn new() -> (e: Engine)
        ensures
            e.wf(),
            e.registry.spec_next_id() == 0,
            <Sprite as Component>::store_of(e.registry) is None,
            <PointLight as Component>::store_of(e.registry) is None,
            e.camera.transform@ == identity_mat(),
            e.camera.view_size.x == 1280 * 65536,
            e.camera.view_size.y == 720 * 65536,
            e.ambient_color == (Color { r: 0, g: 0, b: 0, a: 0 }),
            e.input_states() == Map::<u32, KeyState>::empty(),
            forall|id: u32| !e.prepared(id),
            e.batches_clear(),
            e.next_material_id() == 0,
            e.spec_dt() == 0,
    {
        Engine {
            registry: Registry::new(),
            camera: Camera::new(),
            ambient_color: Color { r: 0, g: 0, b: 0, a: 0 },
            delta_time: 0,
            input_manager: InputManager::new(),
            renderer: Renderer::new(),
            sprite_factory: SpriteFactory::new(),
            texture_factory: TextureFactory::new(),
            material_factory: MaterialFactory::new(),
        }
    }

    /// Register the component stores the engine drives: sprites and
    /// point lights, both empty.
    pub fn init(&mut self)
        requires
            old(self).wf(),
        ensures
            final(self).wf(),
            <Sprite as Component>::store_of(final(self).registry) matches Some(m) && m.wf()
                && m@ == Map::<u32, Sprite>::empty() && m.items() == Seq::<(u32, Sprite)>::empty(),
            <PointLight as Component>::store_of(final(self).registry) matches Some(m) && m.wf()
                && m@ == Map::<u32, PointLight>::empty() && m.items() == Seq::<
                (u32, PointLight),
            >::empty(),
            final(self).registry.spec_next_id() == old(self).registry.spec_next_id(),
            final(self).camera == old(self).camera,
            final(self).ambient_color == old(self).ambient_color,
            final(self).input_states() == old(self).input_states(),
            final(self).preps() == old(self).preps(),
            final(self).next_material_id() == old(self).next_material_id(),
    {
        self.registry.init_map::<Sprite>();
        self.registry.init_map::<PointLight>();
    }

    /// Begin a frame: remember how long the previous one took.
    pub fn start_frame(&mut self, delta_time: i32)
        ensures
            *final(self) == (Engine { delta_time, ..*old(self) }),
    {
        self.delta_time = delta_time;
    }

    /// Plan the frame from the current registry, camera and ambient
    /// color; the caller executes the plan.
    pub fn render(&mut self) -> (r: Result<FramePlan, RenderError>)
        requires
            old(self).wf(),
            <Sprite as Component>::store_of(old(self).registry) is Some,
            <PointLight as Component>::store_of(old(self).registry) is Some,
            forall|i: int|
                0 <= i < <Sprite as Component>::store_of(
                    old(self).registry,
                ).unwrap().items().len() ==> old(self).prepared(
                    (#[trigger] <Sprite as Component>::store_of(
                        old(self).registry,
                    ).unwrap().items()[i]).1.material_id,
                ),
            old(self).batches_clear(),
            crate::matrix3x2::inverse_fits(old(self).camera.transform@),
            old(self).camera.view_size.x >= 0,
            old(self).camera.view_size.y >= 0,
        ensures
            final(self).wf(),
            final(self).registry == old(self).registry,
            final(self).camera == old(self).camera,
            final(self).ambient_color == old(self).ambient_color,
            final(self).input_states() == old(self).input_states(),
            forall|id: u32| final(self).prepared(id) == old(self).prepared(id),
            match r {
                Ok(plan) => {
                    let sprite_items = <Sprite as Component>::store_of(
                        old(self).registry,
                    ).unwrap().items();
                    let light_items = <PointLight as Component>::store_of(
                        old(self).registry,
                    ).unwrap().items();
                    &&& crate::deferred_renderer::draw_pairs(plan.geometry@)
                        == crate::deferred_renderer::planned_geometry(
                        old(self).preps(),
                        crate::deferred_renderer::sprite_values(sprite_items),
                    )
                    &&& plan.lights@ == light_items.map_values(|p: (u32, PointLight)| p.1)
                    &&& forall|d: int|
                        0 <= d < plan.geometry@.len() ==> (
                        #[trigger] plan.geometry@[d]).instances@.len()
                            <= crate::deferred_renderer::MAX_GEO_INSTANCE_COUNT
                    &&& plan.ambient_color == old(self).ambient_color
                    &&& plan.camera_transform == old(self).camera.transform
                    &&& final(self).batches_clear()
                },
                Err(RenderError::BatchOverflow { material_id }) => {
                    &&& old(self).prepared(material_id)
                    &&& crate::deferred_renderer::bucket_of(
                        crate::deferred_renderer::sprite_values(
                            <Sprite as Component>::store_of(
                                old(self).registry,
                            ).unwrap().items(),
                        ),
                        material_id,
                    ).len() > crate::deferred_renderer::MAX_GEO_INSTANCE_COUNT
                },
            },
    {
        self.renderer.render(&self.registry, &self.camera, &self.ambient_color)
    }

    /// Resize the view: the camera sees a third of the framebuffer's
    /// pixel size in world units per axis.
    pub fn resize_view(&mut self, width: i32, height: i32)
        requires
            0 <= width <= 32767,
            0 <= height <= 32767,
        ensures
            final(self).camera.view_size.x == width * 65536 / 3,
            final(self).camera.view_size.y == height * 65536 / 3,
            final(self).camera.transform == old(self).camera.transform,
            final(self).registry == old(self).registry,
            final(self).ambient_color == old(self).ambient_color,
            final(self).wf() == old(self).wf(),
            final(self).input_states() == old(self).input_states(),
            final(self).preps() == old(self).preps(),
    {
        self.camera.view_size = Vector2 {
            x: ((width as u32 * 65536) / 3) as i32,
            y: ((height as u32 * 65536) / 3) as i32,
        };
    }

    /// Record one key event delivered by the window.
    pub fn update_event(&mut self, key: u32, down: bool)
        requires
            old(self).wf(),
        ensures
            final(self).wf(),
            final(self).input_states() == old(self).input_states().insert(
                key,
                KeyState {
                    this_frame: down,
                    last_frame: if old(self).input_states().contains_key(key) {
                        old(self).input_states()[key].last_frame
                    } else {
                        false
                    },
                },
            ),
            final(self).registry == old(self).registry,
            final(self).camera == old(self).camera,
            final(self).preps() == old(self).preps(),
    {
        self.input_manager.update_event(key, down);
    }

    /// Roll the input samples over to the new frame.
    pub fn update_input(&mut self)
        requires
            old(self).wf(),
        ensures
            final(self).wf(),
            final(self).input_states().dom() == old(self).input_states().dom(),
            forall|k: u32|
                old(self).input_states().dom().contains(k) ==> final(self).input_states()[k] == (
                KeyState {
                    this_frame: old(self).input_states()[k].this_frame,
                    last_frame: old(self).input_states()[k].this_frame,
                }),
            final(self).registry == old(self).registry,
            final(self).camera == old(self).camera,
            final(self).preps() == old(self).preps(),
    {
        self.input_manager.update_input();
    }

    /// A fresh sprite for a material.
    pub fn new_sprite(&mut self, material_id: u32) -> (s: Sprite)
        ensures
            *final(self) == *old(self),
            s.transform@ == identity_mat(),
            s.z == 0,
            s.height == 0,
            s.spec_material_id() == material_id,
    {
        self.sprite_factory.new_sprite(material_id)
    }

    /// Bind three loaded textures into a new material and make it
    /// drawable; returns the fresh material id.
    pub fn new_material(
        &mut self,
        color: &crate::texture_info::TextureInfo,
        material: &crate::texture_info::TextureInfo,
        normal: &crate::texture_info::TextureInfo,
    ) -> (id: u32)
        requires
            old(self).wf(),
            old(self).next_material_id() < u32::MAX,
        ensures
            final(self).wf(),
            id == old(self).next_material_id(),
            final(self).next_material_id() == id + 1,
            final(self).prepared(id),
            forall|m: u32| old(self).prepared(m) ==> final(self).prepared(m),
            old(self).batches_clear() ==> final(self).batches_clear(),
            final(self).registry == old(self).registry,
            final(self).camera == old(self).camera,
            final(self).ambient_color == old(self).ambient_color,
            final(self).input_states() == old(self).input_states(),
    {
        let material_data = self.material_factory.new_material(color, material, normal);
        self.renderer.prepare_material(&material_data);
        material_data.id
    }

    /// The stored frame time.
    pub fn get_dt(&self) -> (dt: i32)
        ensures
            dt == self.spec_dt(),
    {
        self.delta_time
    }

    pub fn is_key_pressed(&self, key: u32) -> (pressed: bool)
        requires
            self.wf(),
        ensures
            pressed == (self.input_states().contains_key(key)
                && self.input_states()[key].this_frame && !self.input_states()[key].last_frame),
    {
        self.input_manager.is_key_pressed(key)
    }

    pub fn is_key_down(&self, key: u32) -> (down: bool)
        requires
            self.wf(),
        ensures
            down == (self.input_states().contains_key(key)
                && self.input_states()[key].this_frame),
    {
        self.input_manager.is_key_down(key)
    }

    pub fn is_key_released(&self, key: u32) -> (released: bool)
        requires
            self.wf(),
        ensures
            released == (self.input_states().contains_key(key)
                && !self.input_states()[key].this_frame && self.input_states()[key].last_frame),
    {
        self.input_manager.is_key_released(key)
    }
}

} // verus!
