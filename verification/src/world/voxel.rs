//! The voxel descriptor: the material and shape of one unit cube.

use vstd::prelude::*;

verus! {

/// A tile of the texture atlas: the edge length of a tile and its layer.
#[derive(Clone, Copy, Debug, PartialEq, Eq, Structural)]
pub struct TextureId {
    pub size: u16,
    pub index: u16,
}

impl TextureId {
    pub fn new(size: u16, index: u16) -> (id: TextureId)
        ensures
            id.size == size,
            id.index == index,
    {
        TextureId { size, index }
    }
}

/// How the faces of a voxel are mapped to atlas tiles.
#[derive(Clone, Copy, Debug, PartialEq, Eq, Structural)]
pub enum VoxelTexture {
    /// No texture (a voxel without a mesh, or a plain white block).
    Blank,
    /// The same tile on all six faces.
    Single { faces: TextureId },
    /// One tile for the sides and the bottom, another for the top.
    Top { sides: TextureId, top: TextureId },
    /// One tile for the sides, one for the top, one for the bottom.
    Sides { sides: TextureId, top: TextureId, bottom: TextureId },
    /// A tile of its own for every face.
    All {
        top: TextureId,
        bottom: TextureId,
        right: TextureId,
        left: TextureId,
        front: TextureId,
        back: TextureId,
    },
}

/// The shape a voxel is drawn with.
#[derive(Clone, Copy, Debug, PartialEq, Eq, Structural)]
pub enum VoxelMesh {
    /// A full unit cube.
    Full,
    /// The lower half of a cube.
    Half,
    /// A slice of a cube: the payload over 256 is the filled ratio.
    Fraction(u8),
    /// No volume at all.
    Nil,
    /// A free-form model, by its number.
    Model(usize),
}

/// The six axis directions a voxel face can look in.
#[derive(Clone, Copy, Debug, PartialEq, Eq, Structural)]
pub enum VoxelDirection {
    /// y+
    Up,
    /// y-
    Down,
    /// x+
    Right,
    /// x-
    Left,
    /// z+
    Away,
    /// z-
    Towards,
}

/// One block type: whether it is empty, whether it collides, its shape and
/// its texture mapping. Equality is structural.
#[derive(Clone, Copy, Debug, PartialEq, Eq, Structural)]
pub struct Voxel {
    pub is_air: bool,
    pub collide: bool,
    pub mesh: VoxelMesh,
    pub texture: VoxelTexture,
}

/// The empty voxel as a mathematical value.
pub open spec fn air_voxel() -> Voxel {
    Voxel { is_air: true, collide: false, mesh: VoxelMesh::Nil, texture: VoxelTexture::Blank }
}

impl Voxel {
    /// The empty voxel: no collision, no shape, no texture.
    pub fn air() -> (v: Voxel)
        ensures
            v == air_voxel(),
        no_unwind
    {
        Voxel { is_air: true, collide: false, mesh: VoxelMesh::Nil, texture: VoxelTexture::Blank }
    }

    /// A solid, colliding full cube with the given texture mapping.
    pub fn new_full(texture: VoxelTexture) -> (v: Voxel)
        ensures
            v == (Voxel { is_air: false, collide: true, mesh: VoxelMesh::Full, texture }),
    {
        Voxel { is_air: false, collide: true, mesh: VoxelMesh::Full, texture }
    }
}

} // verus!
