//! The CPU side of the deferred renderer: the per-material preparation
//! table and the per-frame batching that groups every sprite into its
//! material's batch, ready to be uploaded as one instance stream per
//! material.
//!
//! The GPU side (framebuffers, shader programs, uploads and draw calls)
//! lives outside this crate and consumes the [`FramePlan`] this module
//! produces; executing the plan in order is exactly the strict pass order
//! of the pipeline: geometry first, then ambient, then one accumulation
//! pass per light.

use crate::camera::Camera;
use crate::color::Color;
use crate::material_info::MaterialInfo;
use crate::matrix3x2::{compose, translation_mat, transpose_rot, Matrix3x2};
use crate::point_light::PointLight;
use crate::registry::{Component, Registry};
use crate::sparse_map::SparseMap;
use crate::sprite::Sprite;
use crate::vector2::Vector2;
use vstd::prelude::*;

verus! {

/// Hard cap on the number of instances one material batch may hold; one
/// GPU upload buffer is sized for exactly this many instances.
pub const MAX_GEO_INSTANCE_COUNT: usize = 1024;

/// Why a frame could not be planned.
#[derive(Clone, Copy, PartialEq, Eq, Structural, Debug)]
pub enum RenderError {
    /// More sprites share one material than the instance buffer can hold.
    BatchOverflow { material_id: u32 },
}

/// Per-material preparation: the material's bindings and the transient
/// batch of sprite instances collected for the current frame.
pub struct MaterialPrepInfo {
    pub material: MaterialInfo,
    pub batch: Vec<Sprite>,
}

/// The sprites drawn with material `m`, in dense store order.
pub open spec fn bucket_of(vs: Seq<Sprite>, m: u32) -> Seq<Sprite> {
    vs.filter(|sp: Sprite| sp.material_id == m)
}

/// The values of a sprite store's dense records.
pub open spec fn sprite_values(items: Seq<(u32, Sprite)>) -> Seq<Sprite> {
    items.map_values(|p: (u32, Sprite)| p.1)
}

/// One instanced draw of the geometry pass: bind the material's three
/// textures, upload `instances` as one block, draw `instances.len()`
/// instanced quads.
pub struct GeoDraw {
    pub material: MaterialInfo,
    pub instances: Vec<Sprite>,
}

/// What a sequence of geometry draws binds and uploads.
pub open spec fn draw_pairs(draws: Seq<GeoDraw>) -> Seq<(MaterialInfo, Seq<Sprite>)> {
    draws.map_values(|d: GeoDraw| (d.material, d.instances@))
}

/// The material/batch pairs of a preparation table.
pub open spec fn prep_pairs(items: Seq<(u32, MaterialPrepInfo)>) -> Seq<
    (MaterialInfo, Seq<Sprite>),
> {
    items.map_values(|p: (u32, MaterialPrepInfo)| (p.1.material, p.1.batch@))
}

/// Only the pairs that actually have instances: a material with no
/// drawables this frame issues no draw call.
pub open spec fn nonempty_pairs(s: Seq<(MaterialInfo, Seq<Sprite>)>) -> Seq<
    (MaterialInfo, Seq<Sprite>),
> {
    s.filter(|q: (MaterialInfo, Seq<Sprite>)| q.1.len() > 0)
}

/// The geometry pass planned from a preparation table and the sprites of
/// one frame: each prepared material paired with its bucket, materials
/// with empty buckets skipped, in table order.
pub open spec fn planned_geometry(items: Seq<(u32, MaterialPrepInfo)>, vs: Seq<Sprite>) -> Seq<
    (MaterialInfo, Seq<Sprite>),
> {
    nonempty_pairs(items.map_values(|p: (u32, MaterialPrepInfo)| (p.1.material, bucket_of(vs, p.0))))
}

/// The total size of the buckets of the listed materials.
pub open spec fn bucket_len_sum(vs: Seq<Sprite>, ms: Seq<u32>) -> int
    decreases ms.len(),
{
    if ms.len() == 0 {
        0
    } else {
        bucket_of(vs, ms[0]).len() + bucket_len_sum(vs, ms.drop_first())
    }
}

/// With no sprites, every bucket is empty.
proof fn lemma_bucket_sum_empty(vs: Seq<Sprite>, ms: Seq<u32>)
    requires
        vs.len() == 0,
    ensures
        bucket_len_sum(vs, ms) == 0,
    decreases ms.len(),
{
    reveal_with_fuel(Seq::filter, 1);
    if ms.len() > 0 {
        lemma_bucket_sum_empty(vs, ms.drop_first());
    }
}

/// Appending one sprite grows the bucket total by exactly one, provided
/// its material is listed once.
proof fn lemma_bucket_sum_push(vs: Seq<Sprite>, s: Sprite, ms: Seq<u32>)
    requires
        forall|i: int, j: int| 0 <= i < j < ms.len() ==> ms[i] != ms[j],
    ensures
        bucket_len_sum(vs.push(s), ms) == bucket_len_sum(vs, ms) + if ms.contains(
            s.material_id,
        ) {
            1int
        } else {
            0int
        },
    decreases ms.len(),
{
    if ms.len() == 0 {
        assert(!ms.contains(s.material_id));
    } else {
        lemma_bucket_push(vs, s, ms[0]);
        assert(forall|i: int, j: int|
            0 <= i < j < ms.drop_first().len() ==> ms.drop_first()[i] != ms.drop_first()[j]);
        lemma_bucket_sum_push(vs, s, ms.drop_first());
        if s.material_id == ms[0] {
            assert(ms.contains(s.material_id));
            if ms.drop_first().contains(s.material_id) {
                let w = choose|w: int|
                    0 <= w < ms.drop_first().len() && ms.drop_first()[w] == s.material_id;
                assert(ms[w + 1] == ms[0]);
                assert(false);
            }
        } else {
            if ms.contains(s.material_id) {
                let w = choose|w: int| 0 <= w < ms.len() && ms[w] == s.material_id;
                assert(ms.drop_first()[w - 1] == s.material_id);
                assert(ms.drop_first().contains(s.material_id));
            }
            if ms.drop_first().contains(s.material_id) {
                let w = choose|w: int|
                    0 <= w < ms.drop_first().len() && ms.drop_first()[w] == s.material_id;
                assert(ms[w + 1] == s.material_id);
                assert(ms.contains(s.material_id));
            }
        }
    }
}

/// Every member of a bucket carries the bucket's material.
pub proof fn lemma_bucket_members(vs: Seq<Sprite>, m: u32)
    ensures
        forall|k: int|
            0 <= k < bucket_of(vs, m).len() ==> (#[trigger] bucket_of(vs, m)[k]).material_id
                == m,
    decreases vs.len(),
{
    reveal_with_fuel(Seq::filter, 1);
    if vs.len() > 0 {
        let prefix = vs.drop_last();
        lemma_bucket_members(prefix, m);
        assert(vs =~= prefix.push(vs.last()));
        lemma_bucket_push(prefix, vs.last(), m);
    }
}

/// Batching partitions the frame's sprites: with every drawn material
/// listed exactly once, the bucket sizes add up to the number of sprites,
/// and buckets of different materials share no sprite.
pub proof fn lemma_batching_partition(vs: Seq<Sprite>, ms: Seq<u32>)
    requires
        forall|i: int, j: int| 0 <= i < j < ms.len() ==> ms[i] != ms[j],
        forall|i: int| 0 <= i < vs.len() ==> ms.contains((#[trigger] vs[i]).material_id),
    ensures
        bucket_len_sum(vs, ms) == vs.len(),
        forall|m1: u32, m2: u32, s: Sprite|
            m1 != m2 && #[trigger] bucket_of(vs, m1).contains(s) ==> !(#[trigger] bucket_of(
                vs,
                m2,
            ).contains(s)),
    decreases vs.len(),
{
    if vs.len() == 0 {
        lemma_bucket_sum_empty(vs, ms);
    } else {
        let prefix = vs.drop_last();
        let s = vs.last();
        assert(vs =~= prefix.push(s));
        lemma_batching_partition(prefix, ms);
        lemma_bucket_sum_push(prefix, s, ms);
        assert(ms.contains(s.material_id));
    }
    assert forall|m1: u32, m2: u32, s: Sprite|
        m1 != m2 && #[trigger] bucket_of(vs, m1).contains(s) implies !(#[trigger] bucket_of(
        vs,
        m2,
    ).contains(s)) by {
        lemma_bucket_members(vs, m1);
        lemma_bucket_members(vs, m2);
        if bucket_of(vs, m2).contains(s) {
            let k1 = choose|k: int| 0 <= k < bucket_of(vs, m1).len() && bucket_of(vs, m1)[k] == s;
            let k2 = choose|k: int| 0 <= k < bucket_of(vs, m2).len() && bucket_of(vs, m2)[k] == s;
            assert(s.material_id == m1);
            assert(s.material_id == m2);
        }
    }
}

/// Appending one pair extends the non-empty selection iff it is non-empty.
proof fn lemma_nonempty_pairs_push(s: Seq<(MaterialInfo, Seq<Sprite>)>, q: (MaterialInfo, Seq<Sprite>))
    ensures
        q.1.len() > 0 ==> nonempty_pairs(s.push(q)) == nonempty_pairs(s).push(q),
        q.1.len() == 0 ==> nonempty_pairs(s.push(q)) == nonempty_pairs(s),
{
    reveal_with_fuel(Seq::filter, 2);
    let w = s.push(q);
    assert(w.drop_last() =~= s);
    assert(w.last() == q);
}

/// Every selected pair comes from the underlying sequence.
proof fn lemma_nonempty_pairs_are_among(s: Seq<(MaterialInfo, Seq<Sprite>)>)
    ensures
        forall|k: int|
            0 <= k < nonempty_pairs(s).len() ==> s.contains(#[trigger] nonempty_pairs(s)[k]),
    decreases s.len(),
{
    reveal_with_fuel(Seq::filter, 1);
    if s.len() > 0 {
        let prefix = s.drop_last();
        lemma_nonempty_pairs_are_among(prefix);
        assert(s =~= prefix.push(s.last()));
        lemma_nonempty_pairs_push(prefix, s.last());
        assert forall|k: int|
            0 <= k < nonempty_pairs(s).len() implies s.contains(
            #[trigger] nonempty_pairs(s)[k],
        ) by {
            let q = nonempty_pairs(s)[k];
            if k < nonempty_pairs(prefix).len() {
                assert(prefix.contains(q));
                let w = choose|w: int| 0 <= w < prefix.len() && prefix[w] == q;
                assert(s[w] == q);
            } else {
                assert(q == s.last());
                assert(s[s.len() - 1] == q);
            }
        }
    }
}

/// Everything the GPU side executes for one frame, in order: the geometry
/// pass draws, then the ambient composite, then one additive pass per
/// light.
pub struct FramePlan {
    /// Inverse camera transform, the geometry pass's view uniform.
    pub camera_transform_inverse: Matrix3x2,
    /// The camera transform as the lighting passes receive it for world
    /// position reconstruction.
    pub camera_transform: Matrix3x2,
    /// Half the view size, the orthographic divide of every pass.
    pub camera_view_half: Vector2,
    /// Ambient light color; alpha carries the intensity.
    pub ambient_color: Color,
    /// Per-material instanced draws of the geometry pass.
    pub geometry: Vec<GeoDraw>,
    /// The lights accumulated by the point-light sub-pass, in store order.
    pub lights: Vec<PointLight>,
}

/// Appending one sprite extends exactly its own material's bucket.
pub proof fn lemma_bucket_push(vs: Seq<Sprite>, s: Sprite, m: u32)
    ensures
        s.material_id == m ==> bucket_of(vs.push(s), m) == bucket_of(vs, m).push(s),
        s.material_id != m ==> bucket_of(vs.push(s), m) == bucket_of(vs, m),
{
    reveal_with_fuel(Seq::filter, 2);
    let w = vs.push(s);
    assert(w.drop_last() =~= vs);
    assert(w.last() == s);
}

/// A prefix never has a larger bucket than the whole sequence.
pub proof fn lemma_bucket_prefix_le(vs: Seq<Sprite>, i: int, m: u32)
    requires
        0 <= i <= vs.len(),
    ensures
        bucket_of(vs.take(i), m).len() <= bucket_of(vs, m).len(),
    decreases vs.len() - i,
{
    if i == vs.len() {
        assert(vs.take(i) =~= vs);
    } else {
        assert(vs.take(i + 1) =~= vs.take(i).push(vs[i]));
        lemma_bucket_push(vs.take(i), vs[i], m);
        lemma_bucket_prefix_le(vs, i + 1, m);
    }
}

pub struct DeferredRenderer {
    material_preps: SparseMap<MaterialPrepInfo>,
}

impl DeferredRenderer {
    /// The preparation table's dense records, keyed by material id.
    pub closed spec fn preps(&self) -> Seq<(u32, MaterialPrepInfo)> {
        self.material_preps.items()
    }

    /// Whether a material id has been prepared.
    pub closed spec fn prepared(&self, id: u32) -> bool {
        self.material_preps@.contains_key(id)
    }

    /// The table is consistent and every record is keyed by its own
    /// material id.
    pub closed spec fn wf(&self) -> bool {
        &&& self.material_preps.wf()
        &&& forall|j: int|
            0 <= j < self.material_preps.items().len() ==> (
            #[trigger] self.material_preps.items()[j]).1.material.id
                == self.material_preps.items()[j].0
    }

    /// Whether every sprite among `items` draws with a prepared material.
    pub open spec fn materials_ready(&self, items: Seq<(u32, Sprite)>) -> bool {
        forall|i: int|
            0 <= i < items.len() ==> self.prepared((#[trigger] items[i]).1.material_id)
    }

    /// Whether every batch is empty, as at the start of a frame.
    pub open spec fn batches_clear(&self) -> bool {
        forall|j: int| 0 <= j < self.preps().len() ==> (#[trigger] self.preps()[j]).1.batch@.len() == 0
    }

    pub fn new() -> (r: DeferredRenderer)
        ensures
            r.wf(),
            r.preps() == Seq::<(u32, MaterialPrepInfo)>::empty(),
            forall|id: u32| !r.prepared(id),
    {
        DeferredRenderer { material_preps: SparseMap::new() }
    }

    /// Make a material drawable: an unseen material id gets a record with
    /// an empty batch; a known id leaves the table untouched.
    pub fn prepare_material(&mut self, material_info: &MaterialInfo)
        requires
            old(self).wf(),
        ensures
            final(self).wf(),
            final(self).prepared(material_info.id),
            forall|id: u32| old(self).prepared(id) ==> final(self).prepared(id),
            forall|id: u32|
                #[trigger] final(self).prepared(id) ==> old(self).prepared(id) || id
                    == material_info.id,
            old(self).prepared(material_info.id) ==> final(self).preps() == old(self).preps(),
            !old(self).prepared(material_info.id) ==> {
                &&& final(self).preps().len() == old(self).preps().len() + 1
                &&& final(self).preps().drop_last() == old(self).preps()
                &&& final(self).preps().last().0 == material_info.id
                &&& final(self).preps().last().1.material == *material_info
                &&& final(self).preps().last().1.batch@ == Seq::<Sprite>::empty()
            },
    {
        if !self.material_preps.contains_key(material_info.id) {
            self.material_preps.insert(
                material_info.id,
                MaterialPrepInfo { material: *material_info, batch: Vec::new() },
            );
            proof {
                assert(self.preps().drop_last() =~= old(self).preps());
            }
        }
    }

    /// Collect every sprite into its material's batch, one pass in dense
    /// store order. Every batch must be empty when the pass starts and
    /// every sprite's material must be prepared. On success each batch
    /// holds exactly the sprites of its material, in store order, and no
    /// batch exceeds the instance cap; a material that would exceed the
    /// cap is reported instead of silently overflowing the upload buffer.
    pub fn batch_sprites(&mut self, sprites: &SparseMap<Sprite>) -> (r: Result<(), RenderError>)
        requires
            old(self).wf(),
            sprites.wf(),
            old(self).materials_ready(sprites.items()),
            old(self).batches_clear(),
        ensures
            final(self).wf(),
            final(self).preps().len() == old(self).preps().len(),
            forall|j: int|
                0 <= j < final(self).preps().len() ==> {
                    &&& (#[trigger] final(self).preps()[j]).0 == old(self).preps()[j].0
                    &&& final(self).preps()[j].1.material == old(self).preps()[j].1.material
                    &&& final(self).preps()[j].1.batch@.len() <= MAX_GEO_INSTANCE_COUNT
                },
            forall|id: u32| final(self).prepared(id) == old(self).prepared(id),
            match r {
                Ok(()) => forall|j: int|
                    0 <= j < final(self).preps().len() ==> (
                    #[trigger] final(self).preps()[j]).1.batch@ == bucket_of(
                        sprite_values(sprites.items()),
                        final(self).preps()[j].0,
                    ),
                Err(RenderError::BatchOverflow { material_id }) => {
                    &&& old(self).prepared(material_id)
                    &&& bucket_of(sprite_values(sprites.items()), material_id).len()
                        > MAX_GEO_INSTANCE_COUNT
                },
            },
    {
        let ghost vs = sprite_values(sprites.items());
        let ghost old_self = *self;
        let n: usize = sprites.len();
        let mut i: usize = 0;
        proof {
            sprites.lemma_model();
        }
        while i < n
            invariant
                old_self == *old(self),
                n == vs.len(),
                i <= n,
                sprites.wf(),
                vs == sprite_values(sprites.items()),
                forall|w: int| 0 <= w < n ==> #[trigger] vs[w] == sprites.items()[w].1,
                forall|w: int| 0 <= w < n ==> old_self.prepared((#[trigger] vs[w]).material_id),
                old_self.wf(),
                self.wf(),
                self.material_preps.items().len() == old_self.preps().len(),
                forall|id: u32| self.prepared(id) == old_self.prepared(id),
                forall|j: int|
                    0 <= j < self.material_preps.items().len() ==> {
                        &&& (#[trigger] self.material_preps.items()[j]).0
                            == old_self.preps()[j].0
                        &&& self.material_preps.items()[j].1.material
                            == old_self.preps()[j].1.material
                    },
                forall|j: int|
                    0 <= j < self.material_preps.items().len() ==> (
                    #[trigger] self.material_preps.items()[j]).1.batch@ == bucket_of(
                        vs.take(i as int),
                        self.material_preps.items()[j].0,
                    ),
                forall|j: int|
                    0 <= j < self.material_preps.items().len() ==> (
                    #[trigger] self.material_preps.items()[j]).1.batch@.len()
                        <= MAX_GEO_INSTANCE_COUNT,
            decreases n - i,
        {
            let ghost pre_loop_self = *self;
            let rec: &crate::sparse_map::SparseMapItem<Sprite> = sprites.item_at(i);
            let sprite_value: Sprite = rec.value;
            let material_id: u32 = sprite_value.material_id;
            proof {
                assert(vs[i as int] == sprite_value);
                assert(old_self.prepared(material_id));
                assert(self.prepared(material_id));
                self.material_preps.lemma_model();
            }
            let ghost j0 = self.material_preps.dense_index_of(material_id);
            if self.material_preps.get(material_id).batch.len() >= MAX_GEO_INSTANCE_COUNT {
                proof {
                    assert(self.material_preps.items()[j0] == (
                        material_id,
                        self.material_preps@[material_id],
                    ));
                    assert(vs.take(i as int + 1) =~= vs.take(i as int).push(vs[i as int]));
                    lemma_bucket_push(vs.take(i as int), vs[i as int], material_id);
                    assert(bucket_of(vs.take(i as int + 1), material_id).len()
                        == MAX_GEO_INSTANCE_COUNT + 1);
                    lemma_bucket_prefix_le(vs, i as int + 1, material_id);
                }
                return Err(RenderError::BatchOverflow { material_id });
            }
            let prep = self.material_preps.get_mut(material_id);
            prep.batch.push(sprite_value);
            proof {
                pre_loop_self.material_preps.lemma_model();
                assert(self.material_preps.items() =~= pre_loop_self.material_preps.items().update(
                    j0,
                    (material_id, *final(prep)),
                ));
                assert(vs.take(i as int + 1) =~= vs.take(i as int).push(vs[i as int]));
                assert forall|j: int| 0 <= j < self.material_preps.items().len() implies (
                #[trigger] self.material_preps.items()[j]).1.batch@ == bucket_of(
                    vs.take(i as int + 1),
                    self.material_preps.items()[j].0,
                ) by {
                    lemma_bucket_push(
                        vs.take(i as int),
                        vs[i as int],
                        self.material_preps.items()[j].0,
                    );
                    if j != j0 {
                        assert(self.material_preps.items()[j].0 != material_id);
                    }
                }
                assert(forall|id: u32| self.prepared(id) == pre_loop_self.prepared(id));
            }
            i += 1;
        }
        proof {
            assert(vs.take(n as int) =~= vs);
        }
        Ok(())
    }

    /// Turn the collected batches into the geometry pass's draw list, in
    /// table order, skipping materials with empty batches, and leave every
    /// batch empty for the next frame.
    pub fn drain_draws(&mut self) -> (draws: Vec<GeoDraw>)
        requires
            old(self).wf(),
        ensures
            final(self).wf(),
            final(self).preps().len() == old(self).preps().len(),
            forall|j: int|
                0 <= j < final(self).preps().len() ==> {
                    &&& (#[trigger] final(self).preps()[j]).0 == old(self).preps()[j].0
                    &&& final(self).preps()[j].1.material == old(self).preps()[j].1.material
                    &&& final(self).preps()[j].1.batch@.len() == 0
                },
            forall|id: u32| final(self).prepared(id) == old(self).prepared(id),
            draw_pairs(draws@) == nonempty_pairs(prep_pairs(old(self).preps())),
    {
        let ghost old_self = *self;
        let ghost mapped = prep_pairs(old(self).preps());
        let mut draws: Vec<GeoDraw> = Vec::new();
        let n: usize = self.material_preps.len();
        let mut i: usize = 0;
        proof {
            assert(draw_pairs(draws@) =~= nonempty_pairs(mapped.take(0)));
            assert(mapped.take(0) =~= Seq::<(MaterialInfo, Seq<Sprite>)>::empty());
            reveal_with_fuel(Seq::filter, 1);
        }
        while i < n
            invariant
                old_self == *old(self),
                i <= n,
                old_self.wf(),
                mapped == prep_pairs(old_self.preps()),
                n == old_self.preps().len(),
                self.wf(),
                self.material_preps.items().len() == n,
                forall|id: u32| self.prepared(id) == old_self.prepared(id),
                forall|j: int|
                    0 <= j < n ==> {
                        &&& (#[trigger] self.material_preps.items()[j]).0
                            == old_self.preps()[j].0
                        &&& self.material_preps.items()[j].1.material
                            == old_self.preps()[j].1.material
                    },
                forall|j: int|
                    0 <= j < i ==> (#[trigger] self.material_preps.items()[j]).1.batch@.len()
                        == 0,
                forall|j: int|
                    i <= j < n ==> #[trigger] self.material_preps.items()[j]
                        == old_self.preps()[j],
                draw_pairs(draws@) == nonempty_pairs(mapped.take(i as int)),
            decreases n - i,
        {
            let ghost pre_self = *self;
            let ghost pre_draws = draws@;
            let prep = self.material_preps.all_iter_mut(i);
            if prep.batch.len() > 0 {
                let mut instances: Vec<Sprite> = Vec::new();
                std::mem::swap(&mut instances, &mut prep.batch);
                let material = prep.material;
                draws.push(GeoDraw { material, instances });
            }
            proof {
                pre_self.material_preps.lemma_model();
                assert(pre_self.material_preps@.contains_key(
                    pre_self.material_preps.items()[i as int].0,
                ));
                assert(mapped.take(i as int + 1) =~= mapped.take(i as int).push(
                    mapped[i as int],
                ));
                lemma_nonempty_pairs_push(mapped.take(i as int), mapped[i as int]);
                assert(mapped[i as int] == (
                    old_self.preps()[i as int].1.material,
                    old_self.preps()[i as int].1.batch@,
                ));
                assert(draw_pairs(draws@) =~= nonempty_pairs(mapped.take(i as int + 1)));
            }
            i += 1;
        }
        proof {
            assert(mapped.take(n as int) =~= mapped);
        }
        draws
    }

    /// Plan one frame: batch every sprite by material, turn the batches
    /// into the geometry draw list, and gather the light passes, the
    /// ambient color and the camera uniforms. Executing the plan front to
    /// back is the fixed pass order: geometry, then ambient, then one
    /// additive pass per light.
    pub fn render(
        &mut self,
        registry: &Registry,
        camera: &Camera,
        ambient_color: &Color,
    ) -> (r: Result<FramePlan, RenderError>)
        requires
            old(self).wf(),
            registry.wf(),
            <Sprite as Component>::store_of(*registry) is Some,
            <PointLight as Component>::store_of(*registry) is Some,
            old(self).materials_ready(<Sprite as Component>::store_of(*registry).unwrap().items()),
            old(self).batches_clear(),
            crate::matrix3x2::inverse_fits(camera.transform@),
            camera.view_size.x >= 0,
            camera.view_size.y >= 0,
        ensures
            final(self).wf(),
            final(self).preps().len() == old(self).preps().len(),
            forall|j: int|
                0 <= j < final(self).preps().len() ==> {
                    &&& (#[trigger] final(self).preps()[j]).0 == old(self).preps()[j].0
                    &&& final(self).preps()[j].1.material == old(self).preps()[j].1.material
                },
            forall|id: u32| final(self).prepared(id) == old(self).prepared(id),
            match r {
                Ok(plan) => {
                    let sprite_items = <Sprite as Component>::store_of(*registry).unwrap().items();
                    let light_items = <PointLight as Component>::store_of(
                        *registry,
                    ).unwrap().items();
                    &&& draw_pairs(plan.geometry@) == planned_geometry(
                        old(self).preps(),
                        sprite_values(sprite_items),
                    )
                    &&& plan.lights@ == light_items.map_values(|p: (u32, PointLight)| p.1)
                    &&& plan.ambient_color == *ambient_color
                    &&& plan.camera_transform == camera.transform
                    &&& plan.camera_transform_inverse@ == compose(
                        translation_mat(
                            -(camera.transform.m20 as int),
                            -(camera.transform.m21 as int),
                        ),
                        transpose_rot(camera.transform@),
                    )
                    &&& plan.camera_view_half.x == camera.view_size.x as int / 2
                    &&& plan.camera_view_half.y == camera.view_size.y as int / 2
                    &&& forall|d: int|
                        0 <= d < plan.geometry@.len() ==> (
                        #[trigger] plan.geometry@[d]).instances@.len()
                            <= MAX_GEO_INSTANCE_COUNT
                    &&& forall|j: int|
                        0 <= j < final(self).preps().len() ==> (
                        #[trigger] final(self).preps()[j]).1.batch@.len() == 0
                },
                Err(RenderError::BatchOverflow { material_id }) => {
                    &&& old(self).prepared(material_id)
                    &&& bucket_of(
                        sprite_values(
                            <Sprite as Component>::store_of(*registry).unwrap().items(),
                        ),
                        material_id,
                    ).len() > MAX_GEO_INSTANCE_COUNT
                },
            },
    {
        let camera_transform_inverse = camera.transform.inverse();
        let camera_view_half = Vector2 {
            x: ((camera.view_size.x as u32) / 2) as i32,
            y: ((camera.view_size.y as u32) / 2) as i32,
        };

        let sprite_map = registry.get_map::<Sprite>();
        proof {
            assert(*sprite_map == <Sprite as Component>::store_of(*registry).unwrap());
        }
        match self.batch_sprites(sprite_map) {
            Ok(()) => {},
            Err(e) => {
                return Err(e);
            },
        }
        let ghost mid_self = *self;
        let geometry = self.drain_draws();
        proof {
            assert(prep_pairs(mid_self.preps()) =~= old(self).preps().map_values(
                |p: (u32, MaterialPrepInfo)|
                    (
                        p.1.material,
                        bucket_of(
                            sprite_values(
                                <Sprite as Component>::store_of(*registry).unwrap().items(),
                            ),
                            p.0,
                        ),
                    ),
            ));
        }

        proof {
            let pairs = prep_pairs(mid_self.preps());
            lemma_nonempty_pairs_are_among(pairs);
            assert forall|d: int|
                0 <= d < geometry@.len() implies (#[trigger] geometry@[d]).instances@.len()
                <= MAX_GEO_INSTANCE_COUNT by {
                assert(draw_pairs(geometry@)[d] == (geometry@[d].material, geometry@[d].instances@));
                assert(pairs.contains(draw_pairs(geometry@)[d]));
                let w = choose|w: int| 0 <= w < pairs.len() && pairs[w] == draw_pairs(geometry@)[d];
                assert(pairs[w].1 == mid_self.preps()[w].1.batch@);
            }
        }

        let light_map = registry.get_map::<PointLight>();
        let ghost light_items = light_map.items();
        let n_lights: usize = light_map.len();
        let mut lights: Vec<PointLight> = Vec::new();
        let mut i: usize = 0;
        while i < n_lights
            invariant
                light_map.wf(),
                light_items == light_map.items(),
                n_lights == light_items.len(),
                i <= n_lights,
                lights@.len() == i,
                forall|w: int| 0 <= w < i ==> #[trigger] lights@[w] == light_items[w].1,
            decreases n_lights - i,
        {
            let rec = light_map.item_at(i);
            lights.push(rec.value);
            i += 1;
        }
        proof {
            assert(lights@ =~= light_items.map_values(|p: (u32, PointLight)| p.1));
        }

        Ok(
            FramePlan {
                camera_transform_inverse,
                camera_transform: camera.transform,
                camera_view_half,
                ambient_color: *ambient_color,
                geometry,
                lights,
            },
        )
    }
}

} // verus!
