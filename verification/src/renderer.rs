//! The renderer facade: it owns the deferred renderer and forwards
//! material preparation and frame planning to it. Building the GPU
//! resources and executing a planned frame happen outside this crate.

use crate::camera::Camera;
use crate::color::Color;
use crate::deferred_renderer::{
    DeferredRenderer, FramePlan, MaterialPrepInfo, RenderError,
};
use crate::material_info::MaterialInfo;
use crate::point_light::PointLight;
use crate::registry::{Component, Registry};
use crate::sprite::Sprite;
use vstd::prelude::*;

verus! {

pub struct Renderer {
    deferred_renderer: DeferredRenderer,
}

impl Renderer {
    /// The preparation table of the deferred renderer underneath.
    pub closed spec fn preps(&self) -> Seq<(u32, MaterialPrepInfo)> {
        self.deferred_renderer.preps()
    }

    /// Whether a material id has been prepared.
    pub closed spec fn prepared(&self, id: u32) -> bool {
        self.deferred_renderer.prepared(id)
    }

    /// Whether every sprite among `items` draws with a prepared material.
    pub open spec fn materials_ready(&self, items: Seq<(u32, Sprite)>) -> bool {
        forall|i: int|
            0 <= i < items.len() ==> self.prepared((#[trigger] items[i]).1.material_id)
    }

    /// Whether every batch is empty, as at the start of a frame.
    pub open spec fn batches_clear(&self) -> bool {
        forall|j: int|
            0 <= j < self.preps().len() ==> (#[trigger] self.preps()[j]).1.batch@.len() == 0
    }

    pub closed spec fn wf(&self) -> bool {
        self.deferred_renderer.wf()
    }

    pub fn new() -> (r: Renderer)
        ensures
            r.wf(),
            r.preps() == Seq::<(u32, MaterialPrepInfo)>::empty(),
            r.batches_clear(),
            forall|id: u32| !r.prepared(id),
    {
        Renderer { deferred_renderer: DeferredRenderer::new() }
    }

    /// Make a material drawable; a known id leaves the table untouched.
    pub fn prepare_material(&mut self, material_info: &MaterialInfo)
        requires
            old(self).wf(),
        ensures
            final(self).wf(),
            final(self).prepared(material_info.id),
            forall|id: u32| old(self).prepared(id) ==> final(self).prepared(id),
            forall|id: u32|
                #[trigger] final(self).prepared(id) ==> old(self).prepared(id) || id
                    == material_info.id,
            old(self).batches_clear() ==> final(self).batches_clear(),
            old(self).preps().len() <= final(self).preps().len(),
    {
        self.deferred_renderer.prepare_material(material_info);
        proof {
            if old(self).deferred_renderer.batches_clear() {
                assert forall|j: int|
                    0 <= j < self.deferred_renderer.preps().len() implies (
                #[trigger] self.deferred_renderer.preps()[j]).1.batch@.len() == 0 by {
                    if j < self.deferred_renderer.preps().len() - 1 {
                        assert(self.deferred_renderer.preps().drop_last()[j]
                            == self.deferred_renderer.preps()[j]);
                    }
                }
            }
        }
    }

    /// Plan one frame from the registry's sprites and lights.
    pub fn render(
        &mut self,
        registry: &Registry,
        camera: &Camera,
        ambient_color: &Color,
    ) -> (r: Result<FramePlan, RenderError>)
        requires
            old(self).wf(),
            registry.wf(),
            <Sprite as Component>::store_of(*registry) is Some,
            <PointLight as Component>::store_of(*registry) is Some,
            old(self).materials_ready(
                <Sprite as Component>::store_of(*registry).unwrap().items(),
            ),
            old(self).batches_clear(),
            crate::matrix3x2::inverse_fits(camera.transform@),
            camera.view_size.x >= 0,
            camera.view_size.y >= 0,
        ensures
            final(self).wf(),
            forall|id: u32| final(self).prepared(id) == old(self).prepared(id),
            match r {
                Ok(plan) => {
                    let sprite_items = <Sprite as Component>::store_of(*registry).unwrap().items();
                    let light_items = <PointLight as Component>::store_of(
                        *registry,
                    ).unwrap().items();
                    &&& crate::deferred_renderer::draw_pairs(plan.geometry@)
                        == crate::deferred_renderer::planned_geometry(
                        old(self).preps(),
                        crate::deferred_renderer::sprite_values(sprite_items),
                    )
                    &&& plan.lights@ == light_items.map_values(|p: (u32, PointLight)| p.1)
                    &&& forall|d: int|
                        0 <= d < plan.geometry@.len() ==> (
                        #[trigger] plan.geometry@[d]).instances@.len()
                            <= crate::deferred_renderer::MAX_GEO_INSTANCE_COUNT
                    &&& plan.ambient_color == *ambient_color
                    &&& plan.camera_transform == camera.transform
                    &&& plan.camera_transform_inverse@ == crate::matrix3x2::compose(
                        crate::matrix3x2::translation_mat(
                            -(camera.transform.m20 as int),
                            -(camera.transform.m21 as int),
                        ),
                        crate::matrix3x2::transpose_rot(camera.transform@),
                    )
                    &&& plan.camera_view_half.x == camera.view_size.x as int / 2
                    &&& plan.camera_view_half.y == camera.view_size.y as int / 2
                    &&& final(self).batches_clear()
                },
                Err(RenderError::BatchOverflow { material_id }) => {
                    &&& old(self).prepared(material_id)
                    &&& crate::deferred_renderer::bucket_of(
                        crate::deferred_renderer::sprite_values(
                            <Sprite as Component>::store_of(*registry).unwrap().items(),
                        ),
                        material_id,
                    ).len() > crate::deferred_renderer::MAX_GEO_INSTANCE_COUNT
                },
            },
    {
        self.deferred_renderer.render(registry, camera, ambient_color)
    }
}

} // verus!
