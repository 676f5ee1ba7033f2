//! A deterministic procedural voxel generation engine.
//!
//! The crate provides a compressed, paletted voxel storage layer (a bounded
//! in-memory container and a chunked, pageable grid), a deterministic seeded
//! random stream, rejection-sampling placement helpers, a cost-weighted A*
//! road-carving pass, and a family of composable model generators driven by
//! a seed, so that the same seed always reproduces the same world.

pub mod mathx;
pub mod ivec3;
pub mod vs_vec3;
pub mod ibox3;
pub mod block;
pub mod voxel_palette;
pub mod voxel_set;
pub mod chunk_palette;
pub mod chunk_full;
pub mod chunk_sparse;
pub mod chunk;
pub mod grid_palette;
pub mod voxel_grid;
pub mod rng;
pub mod point_set;
pub mod error;
pub mod codec;
pub mod paint;
pub mod voxel_model;
pub mod scene2;
pub mod voxel_scene;
pub mod noise;
pub mod generators;
