//! A minimal real-time 2D engine core: a sparse-set component store, an
//! entity/component registry, fixed-point 2D affine transforms, per-material
//! sprite batching and a deferred two-pass lighting model.
//!
//! All geometry and color scalars are fixed-point integers (see [`fixed`]);
//! the windowing, GPU and image-decoding layers live outside this crate and
//! exchange plain values with it.

pub mod camera;
pub mod color;
pub mod deferred_renderer;
pub mod engine;
pub mod fixed;
pub mod game;
pub mod input_manager;
pub mod lighting;
pub mod material_factory;
pub mod material_info;
pub mod matrix3x2;
pub mod point_light;
pub mod rect;
pub mod registry;
pub mod renderer;
pub mod shader_program;
pub mod sparse_map;
pub mod sprite;
pub mod sprite_factory;
pub mod texture_factory;
pub mod texture_info;
pub mod vector2;
