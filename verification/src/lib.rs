//! A voxel-world core: palette-compressed chunk storage, terrain filling
//! from sampled noise, and face-culling mesh construction.
//!
//! - [`world::voxel`]: the voxel descriptor.
//! - [`world::grid`]: where a dense grid stores its cells.
//! - [`world::chunk`]: the palette, and the chunk that stores one palette id
//!   per cell.
//! - [`world::world`]: terrain, from the samples of a noise field to a chunk.
//! - [`scene::world`]: the mesh of a chunk, a quad for every face that can
//!   be seen.
//! - [`scene::basic`]: a chunk that stores its voxels directly, and its mesh
//!   of four corners a quad.
//! - [`render`]: the mesh builder, and vertices with their packed layout
//!   and the bytes they pack to.
//!
//! Every function is verified against its contract. The contracts speak of
//! the views of the types: a palette is its slots and its next free slot, a
//! chunk is its position, its palette and the ids of its cells, and a mesh
//! is the sequence of its vertices.

use vstd::prelude::*;

pub mod error;
pub mod net;
pub mod render;
pub mod scene;
pub mod window;
pub mod world;

verus! {

/// On which side of a connection the game runs.
#[derive(Clone, Copy, Debug, PartialEq, Eq, Structural)]
pub enum Gamemode {
    Client,
    Server,
}

} // verus!
