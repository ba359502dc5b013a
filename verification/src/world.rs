//! Voxel descriptors, chunk storage and terrain.

pub mod chunk;
pub mod grid;
pub mod voxel;
pub mod world;
