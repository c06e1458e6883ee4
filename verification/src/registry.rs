//! The entity/component registry: it allocates entity ids and exclusively
//! owns one sparse-set store per registered component type.
//!
//! The dynamic, downcast-based table this design usually takes is replaced
//! by a compile-time one: each component type implements [`Component`],
//! which names the slot of the registry that holds its store. A store must
//! be initialized once, through `init_map`, before it is accessed; access
//! to an uninitialized store is a caller error, ruled out by precondition.

use crate::point_light::PointLight;
use crate::sparse_map::SparseMap;
use crate::sprite::Sprite;
use vstd::prelude::*;

verus! {

pub struct Registry {
    next_id: u32,
    sprites: Option<SparseMap<Sprite>>,
    lights: Option<SparseMap<PointLight>>,
}

/// The sprite store slot of a registry.
pub closed spec fn sprites_slot(r: Registry) -> Option<SparseMap<Sprite>> {
    r.sprites
}

/// The point-light store slot of a registry.
pub closed spec fn lights_slot(r: Registry) -> Option<SparseMap<PointLight>> {
    r.lights
}

/// A component type whose store the registry owns.
pub trait Component: Sized {
    /// The store slot for this component, if initialized.
    spec fn store_of(r: Registry) -> Option<SparseMap<Self>>;

    /// All of the registry except this component's store is the same.
    spec fn rest_unchanged(r1: Registry, r2: Registry) -> bool;

    fn init_store(r: &mut Registry)
        ensures
            Self::store_of(*final(r)) matches Some(m) && m.wf() && m@ == Map::<
                u32,
                Self,
            >::empty() && m.items() == Seq::<(u32, Self)>::empty(),
            Self::rest_unchanged(*old(r), *final(r)),
            final(r).spec_next_id() == old(r).spec_next_id(),
            old(r).wf() ==> final(r).wf(),
    ;

    fn store_in(r: &Registry) -> (m: &SparseMap<Self>)
        requires
            Self::store_of(*r) is Some,
        ensures
            Some(*m) == Self::store_of(*r),
            r.wf() ==> m.wf(),
    ;

    fn store_in_mut(r: &mut Registry) -> (m: &mut SparseMap<Self>)
        requires
            Self::store_of(*old(r)) is Some,
        ensures
            Some(*m) == Self::store_of(*old(r)),
            old(r).wf() ==> m.wf(),
            Self::store_of(*final(r)) == Some(*final(m)),
            Self::rest_unchanged(*old(r), *final(r)),
            final(r).spec_next_id() == old(r).spec_next_id(),
            old(r).wf() && final(m).wf() ==> final(r).wf(),
    ;
}

impl Component for Sprite {
    open spec fn store_of(r: Registry) -> Option<SparseMap<Sprite>> {
        sprites_slot(r)
    }

    open spec fn rest_unchanged(r1: Registry, r2: Registry) -> bool {
        lights_slot(r2) == lights_slot(r1)
    }

    fn init_store(r: &mut Registry) {
        r.sprites = Some(SparseMap::new());
    }

    fn store_in(r: &Registry) -> (m: &SparseMap<Sprite>) {
        r.sprites.as_ref().unwrap()
    }

    fn store_in_mut(r: &mut Registry) -> (m: &mut SparseMap<Sprite>) {
        r.sprites.as_mut().unwrap()
    }
}

impl Component for PointLight {
    open spec fn store_of(r: Registry) -> Option<SparseMap<PointLight>> {
        lights_slot(r)
    }

    open spec fn rest_unchanged(r1: Registry, r2: Registry) -> bool {
        sprites_slot(r2) == sprites_slot(r1)
    }

    fn init_store(r: &mut Registry) {
        r.lights = Some(SparseMap::new());
    }

    fn store_in(r: &Registry) -> (m: &SparseMap<PointLight>) {
        r.lights.as_ref().unwrap()
    }

    fn store_in_mut(r: &mut Registry) -> (m: &mut SparseMap<PointLight>) {
        r.lights.as_mut().unwrap()
    }
}

impl Registry {
    /// The next entity id to be allocated.
    pub closed spec fn spec_next_id(&self) -> u32 {
        self.next_id
    }

    /// Every initialized store is internally consistent.
    pub closed spec fn wf(&self) -> bool {
        &&& match self.sprites {
            Some(m) => m.wf(),
            None => true,
        }
        &&& match self.lights {
            Some(m) => m.wf(),
            None => true,
        }
    }

    pub fn new() -> (r: Registry)
        ensures
            r.wf(),
            r.spec_next_id() == 0,
            <Sprite as Component>::store_of(r) is None,
            <PointLight as Component>::store_of(r) is None,
    {
        Registry { next_id: 0, sprites: None, lights: None }
    }

    /// Allocate the next entity id. Ids are handed out in order and never
    /// recycled; the id space is exhausted at `u32::MAX` allocations, which
    /// is a caller error, ruled out by precondition.
    pub fn create_entity(&mut self) -> (e: u32)
        requires
            old(self).spec_next_id() < u32::MAX,
        ensures
            e == old(self).spec_next_id(),
            final(self).spec_next_id() == e + 1,
            final(self).wf() == old(self).wf(),
            <Sprite as Component>::store_of(*final(self)) == <Sprite as Component>::store_of(
                *old(self),
            ),
            <PointLight as Component>::store_of(*final(self))
                == <PointLight as Component>::store_of(*old(self)),
    {
        let id = self.next_id;
        self.next_id += 1;
        id
    }

    /// Register an empty store for component type `T`. Must be called once
    /// before `T`'s store is accessed; calling it again empties the store.
    pub fn init_map<T: Component>(&mut self)
        ensures
            T::store_of(*final(self)) matches Some(m) && m.wf() && m@ == Map::<u32, T>::empty()
                && m.items() == Seq::<(u32, T)>::empty(),
            T::rest_unchanged(*old(self), *final(self)),
            final(self).spec_next_id() == old(self).spec_next_id(),
            old(self).wf() ==> final(self).wf(),
    {
        T::init_store(self)
    }

    /// Borrow the store for component type `T`.
    pub fn get_map<T: Component>(&self) -> (m: &SparseMap<T>)
        requires
            T::store_of(*self) is Some,
        ensures
            Some(*m) == T::store_of(*self),
            self.wf() ==> m.wf(),
    {
        T::store_in(self)
    }

    /// Mutably borrow the store for component type `T`; the rest of the
    /// registry is untouched.
    pub fn get_map_mut<T: Component>(&mut self) -> (m: &mut SparseMap<T>)
        requires
            T::store_of(*old(self)) is Some,
        ensures
            Some(*m) == T::store_of(*old(self)),
            old(self).wf() ==> m.wf(),
            T::store_of(*final(self)) == Some(*final(m)),
            T::rest_unchanged(*old(self), *final(self)),
            final(self).spec_next_id() == old(self).spec_next_id(),
            old(self).wf() && final(m).wf() ==> final(self).wf(),
    {
        T::store_in_mut(self)
    }
}

} // verus!
