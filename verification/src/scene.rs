//! Turning world data into meshes.

pub mod basic;
pub mod world;
