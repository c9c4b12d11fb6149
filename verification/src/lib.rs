//! A verified core for a 2D sprite engine: entity render-state
//! synchronization and sprite batching.
//!
//! Many independent game entities (each with a position, rotation and
//! material) are mirrored into two large shared buffers (one vertex buffer,
//! one index buffer) so that a whole scene can be drawn with one draw call
//! per entity and no per-frame index rewrites. Each entity owns a fixed
//! byte range of the vertex buffer, keyed by its small integer identity.
//!
//! All geometry is carried in exact fixed-point coordinates; the unverified
//! shell that talks to the GPU converts them to floating point at the edge.

pub mod camera;
pub mod components;
pub mod config;
pub mod entity;
pub mod graphics;
pub mod input;
pub mod math;
pub mod parsing;
pub mod physics;
pub mod resources;
pub mod state;
pub mod ui;
