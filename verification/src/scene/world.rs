//! The mesh of a chunk: a quad for every face of a voxel that borders air
//! or the edge of the chunk.

use vstd::prelude::*;
use crate::render::mesh::data::{
    component_byte, i8_3, u16_3, u8_3, AttribKind, VertexAttrib,
};
use crate::render::mesh::{append_is_associative, quad, MeshBuilder, Vertex};
use crate::error::Error;
use crate::world::chunk::{Chunk, ChunkView};
use crate::world::voxel::{TextureId, Voxel, VoxelDirection, VoxelTexture};

verus! {

/// A vertex of a chunk mesh: a position in the chunk, the normal of its
/// face, and texture coordinates with the tile's layer.
#[derive(Clone, Copy, Debug, PartialEq, Eq, Structural)]
pub struct ChunkVertex {
    pub pos: u8_3,
    pub norm: i8_3,
    pub tex: u16_3,
}

impl ChunkVertex {
    pub fn new(d0: u8, d1: u8, d2: u8, d3: i8, d4: i8, d5: i8, d6: u16, d7: u16, d8: u16) -> (v:
        Self)
        ensures
            v.pos == (u8_3 { d0, d1, d2 }),
            v.norm == (i8_3 { d0: d3, d1: d4, d2: d5 }),
            v.tex == (u16_3 { d0: d6, d1: d7, d2: d8 }),
    {
        Self { pos: u8_3::new(d0, d1, d2), norm: i8_3::new(d3, d4, d5), tex: u16_3::new(d6, d7, d8) }
    }
}

impl Vertex for ChunkVertex {
    open spec fn stride() -> nat {
        12
    }

    open spec fn attribs() -> Seq<VertexAttrib> {
        seq![
            VertexAttrib {
                location: 0,
                components: 3,
                kind: AttribKind::UnsignedByte,
                stride: 12,
                offset: 0,
            },
            VertexAttrib {
                location: 1,
                components: 3,
                kind: AttribKind::Byte,
                stride: 12,
                offset: 3,
            },
            VertexAttrib {
                location: 2,
                components: 3,
                kind: AttribKind::UnsignedShort,
                stride: 12,
                offset: 6,
            },
        ]
    }

    open spec fn component(&self, attrib: int, index: int) -> int {
        if attrib == 0 {
            if index == 0 {
                self.pos.d0 as int
            } else if index == 1 {
                self.pos.d1 as int
            } else {
                self.pos.d2 as int
            }
        } else if attrib == 1 {
            if index == 0 {
                self.norm.d0 as int
            } else if index == 1 {
                self.norm.d1 as int
            } else {
                self.norm.d2 as int
            }
        } else {
            if index == 0 {
                self.tex.d0 as int
            } else if index == 1 {
                self.tex.d1 as int
            } else {
                self.tex.d2 as int
            }
        }
    }

    open spec fn packed(&self) -> Seq<u8> {
        self.pos.packed() + self.norm.packed() + self.tex.packed()
    }

    proof fn packed_follows_the_layout(&self) {
        assert forall|a: int, c: int, b: int|
            #![trigger component_byte(Self::attribs()[a].kind, self.component(a, c), b)]
            0 <= a < Self::attribs().len() && 0 <= c < Self::attribs()[a].components && 0 <= b
                < Self::attribs()[a].kind.spec_size() implies self.packed()[Self::attribs()[a].offset
            + c * Self::attribs()[a].kind.spec_size() + b] == component_byte(
            Self::attribs()[a].kind,
            self.component(a, c),
            b,
        ) by {
            assert(Self::attribs()[0].kind == AttribKind::UnsignedByte);
            assert(Self::attribs()[1].kind == AttribKind::Byte);
            assert(Self::attribs()[2].kind == AttribKind::UnsignedShort);
        }
    }

    fn vertex_attribs() -> (attribs: Vec<VertexAttrib>) {
        let stride = u8_3::SIZE + i8_3::SIZE + u16_3::SIZE;
        let mut attribs: Vec<VertexAttrib> = Vec::with_capacity(3);
        let location: usize = 0;
        let offset: usize = 0;
        attribs.push(u8_3::vertex_attrib(stride, location, offset));
        let location: usize = 1;
        let offset = offset + u8_3::SIZE;
        attribs.push(i8_3::vertex_attrib(stride, location, offset));
        let location: usize = 2;
        let offset = offset + i8_3::SIZE;
        attribs.push(u16_3::vertex_attrib(stride, location, offset));
        assert(attribs@ =~= Self::attribs());
        attribs
    }

    fn pack(&self, bytes: &mut Vec<u8>) {
        self.pos.pack(bytes);
        self.norm.pack(bytes);
        self.tex.pack(bytes);
        assert(bytes@ =~= old(bytes)@ + self.packed());
    }
}

/// One corner of a voxel's face: its offsets from the voxel's position,
/// each 0 or 1, and whether its texture coordinates lie at the far edge of
/// the tile.
pub struct FaceCorner {
    pub dx: int,
    pub dy: int,
    pub dz: int,
    pub u: bool,
    pub v: bool,
}

/// Corner `k` of the face that looks in `dir`, in the order in which the
/// face's quad is wound.
pub open spec fn face_corner(dir: VoxelDirection, k: int) -> FaceCorner {
    match dir {
        VoxelDirection::Towards => if k == 0 {
            FaceCorner { dx: 1, dy: 1, dz: 0, u: true, v: true }
        } else if k == 1 {
            FaceCorner { dx: 0, dy: 1, dz: 0, u: false, v: true }
        } else if k == 2 {
            FaceCorner { dx: 0, dy: 0, dz: 0, u: false, v: false }
        } else {
            FaceCorner { dx: 1, dy: 0, dz: 0, u: true, v: false }
        },
        VoxelDirection::Away => if k == 0 {
            FaceCorner { dx: 1, dy: 0, dz: 1, u: true, v: false }
        } else if k == 1 {
            FaceCorner { dx: 0, dy: 0, dz: 1, u: false, v: false }
        } else if k == 2 {
            FaceCorner { dx: 0, dy: 1, dz: 1, u: false, v: true }
        } else {
            FaceCorner { dx: 1, dy: 1, dz: 1, u: true, v: true }
        },
        VoxelDirection::Left => if k == 0 {
            FaceCorner { dx: 0, dy: 1, dz: 0, u: true, v: true }
        } else if k == 1 {
            FaceCorner { dx: 0, dy: 1, dz: 1, u: false, v: true }
        } else if k == 2 {
            FaceCorner { dx: 0, dy: 0, dz: 1, u: false, v: false }
        } else {
            FaceCorner { dx: 0, dy: 0, dz: 0, u: true, v: false }
        },
        VoxelDirection::Right => if k == 0 {
            FaceCorner { dx: 1, dy: 0, dz: 0, u: true, v: false }
        } else if k == 1 {
            FaceCorner { dx: 1, dy: 0, dz: 1, u: false, v: false }
        } else if k == 2 {
            FaceCorner { dx: 1, dy: 1, dz: 1, u: false, v: true }
        } else {
            FaceCorner { dx: 1, dy: 1, dz: 0, u: true, v: true }
        },
        VoxelDirection::Down => if k == 0 {
            FaceCorner { dx: 0, dy: 0, dz: 1, u: true, v: false }
        } else if k == 1 {
            FaceCorner { dx: 1, dy: 0, dz: 1, u: false, v: false }
        } else if k == 2 {
            FaceCorner { dx: 1, dy: 0, dz: 0, u: false, v: true }
        } else {
            FaceCorner { dx: 0, dy: 0, dz: 0, u: true, v: true }
        },
        VoxelDirection::Up => if k == 0 {
            FaceCorner { dx: 0, dy: 1, dz: 0, u: true, v: true }
        } else if k == 1 {
            FaceCorner { dx: 1, dy: 1, dz: 0, u: false, v: true }
        } else if k == 2 {
            FaceCorner { dx: 1, dy: 1, dz: 1, u: false, v: false }
        } else {
            FaceCorner { dx: 0, dy: 1, dz: 1, u: true, v: false }
        },
    }
}

/// Whether a corner with the offsets of `c` lies on the side of a voxel
/// that looks in `dir`.
pub open spec fn lies_on_face(dir: VoxelDirection, c: FaceCorner) -> bool {
    match dir {
        VoxelDirection::Up => c.dy == 1,
        VoxelDirection::Down => c.dy == 0,
        VoxelDirection::Right => c.dx == 1,
        VoxelDirection::Left => c.dx == 0,
        VoxelDirection::Away => c.dz == 1,
        VoxelDirection::Towards => c.dz == 0,
    }
}

/// In how many of their three offsets two corners differ.
pub open spec fn offsets_apart(a: FaceCorner, b: FaceCorner) -> int {
    (if a.dx != b.dx {
        1int
    } else {
        0
    }) + (if a.dy != b.dy {
        1int
    } else {
        0
    }) + (if a.dz != b.dz {
        1int
    } else {
        0
    })
}

/// The four corners of a face are the corners of that side of the unit
/// cube, wound around it: each is a corner of the cube on the side the
/// face looks to, no two coincide, and each is joined to the next, and the
/// last to the first, by an edge of the cube.
pub proof fn face_corners_are_wound_around_the_face(dir: VoxelDirection, j: int, k: int)
    requires
        0 <= j < 4,
        0 <= k < 4,
    ensures
        0 <= face_corner(dir, k).dx <= 1,
        0 <= face_corner(dir, k).dy <= 1,
        0 <= face_corner(dir, k).dz <= 1,
        lies_on_face(dir, face_corner(dir, k)),
        j != k ==> offsets_apart(face_corner(dir, j), face_corner(dir, k)) >= 1,
        k == (j + 1) % 4 ==> offsets_apart(face_corner(dir, j), face_corner(dir, k)) == 1,
{
}

/// The normal that the vertices of the face looking in `dir` carry.
pub open spec fn face_normal(dir: VoxelDirection) -> i8_3 {
    match dir {
        VoxelDirection::Towards => i8_3 { d0: 0, d1: 0, d2: 1 },
        VoxelDirection::Away => i8_3 { d0: 0, d1: 0, d2: -1i8 },
        VoxelDirection::Left => i8_3 { d0: -1i8, d1: 0, d2: 0 },
        VoxelDirection::Right => i8_3 { d0: 1, d1: 0, d2: 0 },
        VoxelDirection::Down => i8_3 { d0: 0, d1: 1, d2: 0 },
        VoxelDirection::Up => i8_3 { d0: 0, d1: -1i8, d2: 0 },
    }
}

/// The position next to `(x, y, z)` in the direction `dir`.
pub open spec fn neighbor(dir: VoxelDirection, x: int, y: int, z: int) -> (int, int, int) {
    match dir {
        VoxelDirection::Up => (x, y + 1, z),
        VoxelDirection::Down => (x, y - 1, z),
        VoxelDirection::Right => (x + 1, y, z),
        VoxelDirection::Left => (x - 1, y, z),
        VoxelDirection::Away => (x, y, z + 1),
        VoxelDirection::Towards => (x, y, z - 1),
    }
}

/// Whether the face of the cell `(x, y, z)` that looks in `dir` can be
/// seen: its neighbour holds air, or lies outside the chunk.
pub open spec fn face_exposed(chunk: ChunkView, dir: VoxelDirection, x: int, y: int, z: int) -> bool {
    let n = neighbor(dir, x, y, z);
    !Chunk::in_bounds(n.0, n.1, n.2) || chunk.air_at(n.0, n.1, n.2)
}

/// The vertex at corner `k` of the face looking in `dir` of the voxel at
/// `(x, y, z)`: the corner's position in the chunk, the face's normal, and
/// the corner of the tile `tex`.
pub open spec fn corner_vertex(
    dir: VoxelDirection,
    k: int,
    x: int,
    y: int,
    z: int,
    tex: TextureId,
) -> ChunkVertex {
    let c = face_corner(dir, k);
    ChunkVertex {
        pos: u8_3 { d0: (x + c.dx) as u8, d1: (y + c.dy) as u8, d2: (z + c.dz) as u8 },
        norm: face_normal(dir),
        tex: u16_3 {
            d0: if c.u {
                tex.size
            } else {
                0
            },
            d1: if c.v {
                tex.size
            } else {
                0
            },
            d2: tex.index,
        },
    }
}

/// A vertex sits at its corner of its voxel: for a voxel of a chunk, the
/// position of a vertex is the voxel's position plus the corner's offsets,
/// its first two texture coordinates are 0 or the tile's size as the corner
/// says, and the third is the tile's layer.
pub proof fn vertex_sits_at_its_corner(
    dir: VoxelDirection,
    k: int,
    x: int,
    y: int,
    z: int,
    tex: TextureId,
)
    requires
        0 <= k < 4,
        Chunk::in_bounds(x, y, z),
    ensures
        corner_vertex(dir, k, x, y, z, tex).pos.d0 == x + face_corner(dir, k).dx,
        corner_vertex(dir, k, x, y, z, tex).pos.d1 == y + face_corner(dir, k).dy,
        corner_vertex(dir, k, x, y, z, tex).pos.d2 == z + face_corner(dir, k).dz,
        corner_vertex(dir, k, x, y, z, tex).norm == face_normal(dir),
        corner_vertex(dir, k, x, y, z, tex).tex.d0 == (if face_corner(dir, k).u {
            tex.size
        } else {
            0
        }),
        corner_vertex(dir, k, x, y, z, tex).tex.d1 == (if face_corner(dir, k).v {
            tex.size
        } else {
            0
        }),
        corner_vertex(dir, k, x, y, z, tex).tex.d2 == tex.index,
{
    face_corners_are_wound_around_the_face(dir, k, k);
}

/// The two triangles of the face looking in `dir` of the voxel at
/// `(x, y, z)`.
pub open spec fn face_quad(dir: VoxelDirection, x: int, y: int, z: int, tex: TextureId) -> Seq<
    ChunkVertex,
> {
    quad(
        corner_vertex(dir, 0, x, y, z, tex),
        corner_vertex(dir, 1, x, y, z, tex),
        corner_vertex(dir, 2, x, y, z, tex),
        corner_vertex(dir, 3, x, y, z, tex),
    )
}

/// What the face looking in `dir` of the cell `(x, y, z)` adds to the mesh:
/// its quad where it can be seen, nothing where it cannot.
pub open spec fn face_vertices(
    chunk: ChunkView,
    dir: VoxelDirection,
    x: int,
    y: int,
    z: int,
    tex: TextureId,
) -> Seq<ChunkVertex> {
    if face_exposed(chunk, dir, x, y, z) {
        face_quad(dir, x, y, z, tex)
    } else {
        Seq::empty()
    }
}

/// The tile of a voxel whose texture mapping names a single one.
pub open spec fn single_tile(voxel: Voxel) -> Option<TextureId> {
    match voxel.texture {
        VoxelTexture::Single { faces } => Some(faces),
        _ => None,
    }
}

/// Whether the cell `(x, y, z)` holds a voxel that cannot be meshed: it is
/// not air, and its texture mapping names no single tile.
pub open spec fn unsupported_at(chunk: ChunkView, x: int, y: int, z: int) -> bool {
    Chunk::in_bounds(x, y, z) && !chunk.air_at(x, y, z) && single_tile(chunk.voxel_at(x, y, z))
        is None
}

/// What the cell `(x, y, z)` adds to the mesh: nothing where it holds air,
/// else its faces that can be seen, in the order back, front, left, right,
/// bottom, top.
pub open spec fn cell_vertices(chunk: ChunkView, x: int, y: int, z: int) -> Seq<ChunkVertex> {
    if chunk.air_at(x, y, z) {
        Seq::empty()
    } else {
        let tex = single_tile(chunk.voxel_at(x, y, z)).unwrap();
        face_vertices(chunk, VoxelDirection::Towards, x, y, z, tex) + face_vertices(
            chunk,
            VoxelDirection::Away,
            x,
            y,
            z,
            tex,
        ) + face_vertices(chunk, VoxelDirection::Left, x, y, z, tex) + face_vertices(
            chunk,
            VoxelDirection::Right,
            x,
            y,
            z,
            tex,
        ) + face_vertices(chunk, VoxelDirection::Down, x, y, z, tex) + face_vertices(
            chunk,
            VoxelDirection::Up,
            x,
            y,
            z,
            tex,
        )
    }
}

/// The mesh of the first `n` cells in storage order: layer by layer in `y`,
/// row by row in `z`, cell by cell in `x`.
pub open spec fn mesh_of_cells(chunk: ChunkView, n: nat) -> Seq<ChunkVertex>
    decreases n,
{
    if n == 0 {
        Seq::empty()
    } else {
        let c = Chunk::cell_at(n - 1);
        mesh_of_cells(chunk, (n - 1) as nat) + cell_vertices(chunk, c.0, c.1, c.2)
    }
}

/// How many faces of the cell `(x, y, z)` are in the mesh: none where it
/// holds air, else one for each direction in which it can be seen.
pub open spec fn exposed_faces(chunk: ChunkView, x: int, y: int, z: int) -> nat {
    if chunk.air_at(x, y, z) {
        0
    } else {
        (if face_exposed(chunk, VoxelDirection::Towards, x, y, z) {
            1nat
        } else {
            0
        }) + (if face_exposed(chunk, VoxelDirection::Away, x, y, z) {
            1nat
        } else {
            0
        }) + (if face_exposed(chunk, VoxelDirection::Left, x, y, z) {
            1nat
        } else {
            0
        }) + (if face_exposed(chunk, VoxelDirection::Right, x, y, z) {
            1nat
        } else {
            0
        }) + (if face_exposed(chunk, VoxelDirection::Down, x, y, z) {
            1nat
        } else {
            0
        }) + (if face_exposed(chunk, VoxelDirection::Up, x, y, z) {
            1nat
        } else {
            0
        })
    }
}

/// How many faces of the first `n` cells in storage order are in the mesh.
pub open spec fn exposed_faces_of_cells(chunk: ChunkView, n: nat) -> nat
    decreases n,
{
    if n == 0 {
        0
    } else {
        let c = Chunk::cell_at(n - 1);
        exposed_faces_of_cells(chunk, (n - 1) as nat) + exposed_faces(chunk, c.0, c.1, c.2)
    }
}

/// A face between two voxels is culled, and a face that can be seen is one
/// quad: the face of a cell adds no vertex where its neighbour is a cell of
/// the chunk that does not hold air, and six vertices, two triangles, where
/// the neighbour holds air or lies outside the chunk.
pub proof fn hidden_face_is_culled(
    chunk: ChunkView,
    dir: VoxelDirection,
    x: int,
    y: int,
    z: int,
    tex: TextureId,
)
    ensures
        face_exposed(chunk, dir, x, y, z) ==> face_vertices(chunk, dir, x, y, z, tex)
            == face_quad(dir, x, y, z, tex) && face_vertices(chunk, dir, x, y, z, tex).len() == 6,
        !face_exposed(chunk, dir, x, y, z) ==> face_vertices(chunk, dir, x, y, z, tex).len() == 0,
        !face_exposed(chunk, dir, x, y, z) <==> Chunk::in_bounds(
            neighbor(dir, x, y, z).0,
            neighbor(dir, x, y, z).1,
            neighbor(dir, x, y, z).2,
        ) && !chunk.air_at(
            neighbor(dir, x, y, z).0,
            neighbor(dir, x, y, z).1,
            neighbor(dir, x, y, z).2,
        ),
{
}

/// The mesh holds one quad for every face that can be seen, and nothing
/// else: its vertices are six times the faces of cells that do not hold air
/// whose neighbour holds air or lies outside the chunk.
pub proof fn mesh_has_a_quad_for_each_exposed_face(chunk: ChunkView, n: nat)
    ensures
        mesh_of_cells(chunk, n).len() == 6 * exposed_faces_of_cells(chunk, n),
    decreases n,
{
    if n > 0 {
        mesh_has_a_quad_for_each_exposed_face(chunk, (n - 1) as nat);
        let c = Chunk::cell_at(n - 1);
        if !chunk.air_at(c.0, c.1, c.2) {
            let tex = single_tile(chunk.voxel_at(c.0, c.1, c.2)).unwrap();
            hidden_face_is_culled(chunk, VoxelDirection::Towards, c.0, c.1, c.2, tex);
            hidden_face_is_culled(chunk, VoxelDirection::Away, c.0, c.1, c.2, tex);
            hidden_face_is_culled(chunk, VoxelDirection::Left, c.0, c.1, c.2, tex);
            hidden_face_is_culled(chunk, VoxelDirection::Right, c.0, c.1, c.2, tex);
            hidden_face_is_culled(chunk, VoxelDirection::Down, c.0, c.1, c.2, tex);
            hidden_face_is_culled(chunk, VoxelDirection::Up, c.0, c.1, c.2, tex);
        }
    }
}

/// Cells that hold air add nothing: where every cell stored from index `m`
/// up to index `n` holds air, the mesh of the first `n` cells is the mesh
/// of the first `m`, with as many faces.
pub proof fn air_adds_nothing(chunk: ChunkView, m: nat, n: nat)
    requires
        m <= n,
        forall|i: int|
            m <= i < n ==> chunk.air_at(
                Chunk::cell_at(i).0,
                Chunk::cell_at(i).1,
                #[trigger] Chunk::cell_at(i).2,
            ),
    ensures
        mesh_of_cells(chunk, n) == mesh_of_cells(chunk, m),
        exposed_faces_of_cells(chunk, n) == exposed_faces_of_cells(chunk, m),
    decreases n - m,
{
    if m < n {
        air_adds_nothing(chunk, m, (n - 1) as nat);
        let c = Chunk::cell_at(n - 1);
        assert(chunk.air_at(c.0, c.1, c.2));
        assert(mesh_of_cells(chunk, n) =~= mesh_of_cells(chunk, (n - 1) as nat));
    }
}

/// Whether `v` is a vertex that belongs in the mesh of `chunk`: a corner of
/// a face that can be seen of a cell that does not hold air, with the tile
/// of the voxel in that cell.
pub open spec fn is_exposed_corner(chunk: ChunkView, v: ChunkVertex) -> bool {
    exists|dir: VoxelDirection, k: int, x: int, y: int, z: int|
        {
            &&& Chunk::in_bounds(x, y, z)
            &&& !chunk.air_at(x, y, z)
            &&& face_exposed(chunk, dir, x, y, z)
            &&& 0 <= k < 4
            &&& v == #[trigger] corner_vertex(
                dir,
                k,
                x,
                y,
                z,
                single_tile(chunk.voxel_at(x, y, z)).unwrap(),
            )
        }
}

/// Every vertex that a face adds is one of its four corners.
proof fn face_vertex_is_a_corner(
    chunk: ChunkView,
    dir: VoxelDirection,
    x: int,
    y: int,
    z: int,
    j: int,
)
    requires
        Chunk::in_bounds(x, y, z),
        !chunk.air_at(x, y, z),
        0 <= j < face_vertices(
            chunk,
            dir,
            x,
            y,
            z,
            single_tile(chunk.voxel_at(x, y, z)).unwrap(),
        ).len(),
    ensures
        is_exposed_corner(
            chunk,
            face_vertices(chunk, dir, x, y, z, single_tile(chunk.voxel_at(x, y, z)).unwrap())[j],
        ),
{
    let tex = single_tile(chunk.voxel_at(x, y, z)).unwrap();
    let k: int = if j == 0 || j == 3 {
        0
    } else if j == 2 {
        1
    } else if j == 1 || j == 5 {
        2
    } else {
        3
    };
    assert(face_vertices(chunk, dir, x, y, z, tex)[j] == corner_vertex(dir, k, x, y, z, tex));
}

/// Every vertex that a cell adds is a corner of one of its faces that can
/// be seen.
proof fn cell_vertex_is_a_corner(chunk: ChunkView, x: int, y: int, z: int, j: int)
    requires
        Chunk::in_bounds(x, y, z),
        0 <= j < cell_vertices(chunk, x, y, z).len(),
    ensures
        is_exposed_corner(chunk, cell_vertices(chunk, x, y, z)[j]),
{
    let tex = single_tile(chunk.voxel_at(x, y, z)).unwrap();
    let back = face_vertices(chunk, VoxelDirection::Towards, x, y, z, tex);
    let front = face_vertices(chunk, VoxelDirection::Away, x, y, z, tex);
    let left = face_vertices(chunk, VoxelDirection::Left, x, y, z, tex);
    let right = face_vertices(chunk, VoxelDirection::Right, x, y, z, tex);
    let bottom = face_vertices(chunk, VoxelDirection::Down, x, y, z, tex);
    let top = face_vertices(chunk, VoxelDirection::Up, x, y, z, tex);
    let a = back.len() as int;
    let b = a + front.len();
    let c = b + left.len();
    let d = c + right.len();
    let e = d + bottom.len();
    if j < a {
        face_vertex_is_a_corner(chunk, VoxelDirection::Towards, x, y, z, j);
    } else if j < b {
        face_vertex_is_a_corner(chunk, VoxelDirection::Away, x, y, z, j - a);
    } else if j < c {
        face_vertex_is_a_corner(chunk, VoxelDirection::Left, x, y, z, j - b);
    } else if j < d {
        face_vertex_is_a_corner(chunk, VoxelDirection::Right, x, y, z, j - c);
    } else if j < e {
        face_vertex_is_a_corner(chunk, VoxelDirection::Down, x, y, z, j - d);
    } else {
        face_vertex_is_a_corner(chunk, VoxelDirection::Up, x, y, z, j - e);
    }
}

/// The mesh holds nothing but corners of faces that can be seen: every
/// vertex of the mesh of the first `n` cells is a corner of such a face of
/// a cell that does not hold air, and lies within the chunk.
pub proof fn mesh_holds_only_exposed_corners(chunk: ChunkView, n: nat, i: int)
    requires
        n <= Chunk::VOLUME,
        0 <= i < mesh_of_cells(chunk, n).len(),
    ensures
        is_exposed_corner(chunk, mesh_of_cells(chunk, n)[i]),
        mesh_of_cells(chunk, n)[i].pos.d0 <= Chunk::WIDTH,
        mesh_of_cells(chunk, n)[i].pos.d1 <= Chunk::HEIGHT,
        mesh_of_cells(chunk, n)[i].pos.d2 <= Chunk::DEPTH,
    decreases n,
{
    let before = mesh_of_cells(chunk, (n - 1) as nat);
    if i < before.len() {
        mesh_holds_only_exposed_corners(chunk, (n - 1) as nat, i);
    } else {
        Chunk::cell_at_is_in_bounds(n - 1);
        let c = Chunk::cell_at(n - 1);
        cell_vertex_is_a_corner(chunk, c.0, c.1, c.2, i - before.len());
    }
    let v = mesh_of_cells(chunk, n)[i];
    let (dir, k, x, y, z): (VoxelDirection, int, int, int, int) = choose|
        dir: VoxelDirection,
        k: int,
        x: int,
        y: int,
        z: int,
    |
        {
            &&& Chunk::in_bounds(x, y, z)
            &&& !chunk.air_at(x, y, z)
            &&& face_exposed(chunk, dir, x, y, z)
            &&& 0 <= k < 4
            &&& v == #[trigger] corner_vertex(
                dir,
                k,
                x,
                y,
                z,
                single_tile(chunk.voxel_at(x, y, z)).unwrap(),
            )
        };
    vertex_sits_at_its_corner(dir, k, x, y, z, single_tile(chunk.voxel_at(x, y, z)).unwrap());
    face_corners_are_wound_around_the_face(dir, k, k);
}

/// The mesh of a chunk: what each of its cells adds, in storage order.
pub open spec fn chunk_mesh(chunk: ChunkView) -> Seq<ChunkVertex> {
    mesh_of_cells(chunk, Chunk::VOLUME as nat)
}

/// Whether the face of the cell `(x, y, z)` that looks in `dir` can be seen.
fn is_face_exposed(chunk: &Chunk, dir: VoxelDirection, x: usize, y: usize, z: usize) -> (exposed:
    bool)
    requires
        Chunk::in_bounds(x as int, y as int, z as int),
    ensures
        exposed == face_exposed(chunk@, dir, x as int, y as int, z as int),
{
    match dir {
        VoxelDirection::Towards => z == 0 || chunk.is_air(x, y, z - 1),
        VoxelDirection::Away => z == Chunk::DEPTH - 1 || chunk.is_air(x, y, z + 1),
        VoxelDirection::Left => x == 0 || chunk.is_air(x - 1, y, z),
        VoxelDirection::Right => x == Chunk::WIDTH - 1 || chunk.is_air(x + 1, y, z),
        VoxelDirection::Down => y == 0 || chunk.is_air(x, y - 1, z),
        VoxelDirection::Up => y == Chunk::HEIGHT - 1 || chunk.is_air(x, y + 1, z),
    }
}

/// Appends the quad of the face looking in `dir` of the voxel at
/// `(x, y, z)`.
fn push_face(
    mesh: &mut MeshBuilder<ChunkVertex>,
    dir: VoxelDirection,
    x: u8,
    y: u8,
    z: u8,
    tex: TextureId,
)
    requires
        x < 255,
        y < 255,
        z < 255,
    ensures
        final(mesh)@ == old(mesh)@ + face_quad(dir, x as int, y as int, z as int, tex),
{
    let ts = tex.size;
    let ti = tex.index;
    match dir {
        VoxelDirection::Towards => {
            mesh.push_quad(
                &ChunkVertex::new(1 + x, 1 + y, z, 0, 0, 1, ts, ts, ti),
                &ChunkVertex::new(x, 1 + y, z, 0, 0, 1, 0, ts, ti),
                &ChunkVertex::new(x, y, z, 0, 0, 1, 0, 0, ti),
                &ChunkVertex::new(1 + x, y, z, 0, 0, 1, ts, 0, ti),
            );
        },
        VoxelDirection::Away => {
            mesh.push_quad(
                &ChunkVertex::new(1 + x, y, 1 + z, 0, 0, -1, ts, 0, ti),
                &ChunkVertex::new(x, y, 1 + z, 0, 0, -1, 0, 0, ti),
                &ChunkVertex::new(x, 1 + y, 1 + z, 0, 0, -1, 0, ts, ti),
                &ChunkVertex::new(1 + x, 1 + y, 1 + z, 0, 0, -1, ts, ts, ti),
            );
        },
        VoxelDirection::Left => {
            mesh.push_quad(
                &ChunkVertex::new(x, 1 + y, z, -1, 0, 0, ts, ts, ti),
                &ChunkVertex::new(x, 1 + y, 1 + z, -1, 0, 0, 0, ts, ti),
                &ChunkVertex::new(x, y, 1 + z, -1, 0, 0, 0, 0, ti),
                &ChunkVertex::new(x, y, z, -1, 0, 0, ts, 0, ti),
            );
        },
        VoxelDirection::Right => {
            mesh.push_quad(
                &ChunkVertex::new(1 + x, y, z, 1, 0, 0, ts, 0, ti),
                &ChunkVertex::new(1 + x, y, 1 + z, 1, 0, 0, 0, 0, ti),
                &ChunkVertex::new(1 + x, 1 + y, 1 + z, 1, 0, 0, 0, ts, ti),
                &ChunkVertex::new(1 + x, 1 + y, z, 1, 0, 0, ts, ts, ti),
            );
        },
        VoxelDirection::Down => {
            mesh.push_quad(
                &ChunkVertex::new(x, y, 1 + z, 0, 1, 0, ts, 0, ti),
                &ChunkVertex::new(1 + x, y, 1 + z, 0, 1, 0, 0, 0, ti),
                &ChunkVertex::new(1 + x, y, z, 0, 1, 0, 0, ts, ti),
                &ChunkVertex::new(x, y, z, 0, 1, 0, ts, ts, ti),
            );
        },
        VoxelDirection::Up => {
            mesh.push_quad(
                &ChunkVertex::new(x, 1 + y, z, 0, -1, 0, ts, ts, ti),
                &ChunkVertex::new(1 + x, 1 + y, z, 0, -1, 0, 0, ts, ti),
                &ChunkVertex::new(1 + x, 1 + y, 1 + z, 0, -1, 0, 0, 0, ti),
                &ChunkVertex::new(x, 1 + y, 1 + z, 0, -1, 0, ts, 0, ti),
            );
        },
    }
}

/// Appends the face looking in `dir` of the cell `(x, y, z)` where it can
/// be seen.
fn push_face_if_exposed(
    mesh: &mut MeshBuilder<ChunkVertex>,
    chunk: &Chunk,
    dir: VoxelDirection,
    x: usize,
    y: usize,
    z: usize,
    tex: TextureId,
)
    requires
        Chunk::in_bounds(x as int, y as int, z as int),
    ensures
        final(mesh)@ == old(mesh)@ + face_vertices(chunk@, dir, x as int, y as int, z as int, tex),
{
    if is_face_exposed(chunk, dir, x, y, z) {
        push_face(mesh, dir, x as u8, y as u8, z as u8, tex);
    } else {
        assert(mesh@ =~= old(mesh)@ + Seq::<ChunkVertex>::empty());
    }
}

/// Appends what the cell `(x, y, z)` adds to the mesh, or reports that its
/// voxel cannot be meshed and leaves the mesh as it was.
fn push_cell(mesh: &mut MeshBuilder<ChunkVertex>, chunk: &Chunk, x: usize, y: usize, z: usize) -> (pushed:
    Result<(), Error>)
    requires
        Chunk::in_bounds(x as int, y as int, z as int),
    ensures
        match pushed {
            Ok(()) => {
                &&& !unsupported_at(chunk@, x as int, y as int, z as int)
                &&& final(mesh)@ == old(mesh)@ + cell_vertices(
                    chunk@,
                    x as int,
                    y as int,
                    z as int,
                )
            },
            Err(e) => {
                &&& e == Error::UnsupportedTextureMapping
                &&& unsupported_at(chunk@, x as int, y as int, z as int)
                &&& final(mesh)@ == old(mesh)@
            },
        },
{
    if chunk.is_air(x, y, z) {
        assert(mesh@ =~= old(mesh)@ + Seq::<ChunkVertex>::empty());
        return Ok(());
    }
    let tex = match chunk.get_voxel(x, y, z).texture {
        VoxelTexture::Single { faces } => faces,
        _ => {
            return Err(Error::UnsupportedTextureMapping);
        },
    };
    let ghost before = mesh@;
    let ghost (xi, yi, zi) = (x as int, y as int, z as int);
    let ghost back = face_vertices(chunk@, VoxelDirection::Towards, xi, yi, zi, tex);
    let ghost front = face_vertices(chunk@, VoxelDirection::Away, xi, yi, zi, tex);
    let ghost left = face_vertices(chunk@, VoxelDirection::Left, xi, yi, zi, tex);
    let ghost right = face_vertices(chunk@, VoxelDirection::Right, xi, yi, zi, tex);
    let ghost bottom = face_vertices(chunk@, VoxelDirection::Down, xi, yi, zi, tex);
    let ghost top = face_vertices(chunk@, VoxelDirection::Up, xi, yi, zi, tex);
    push_face_if_exposed(mesh, chunk, VoxelDirection::Towards, x, y, z, tex);
    push_face_if_exposed(mesh, chunk, VoxelDirection::Away, x, y, z, tex);
    push_face_if_exposed(mesh, chunk, VoxelDirection::Left, x, y, z, tex);
    push_face_if_exposed(mesh, chunk, VoxelDirection::Right, x, y, z, tex);
    push_face_if_exposed(mesh, chunk, VoxelDirection::Down, x, y, z, tex);
    push_face_if_exposed(mesh, chunk, VoxelDirection::Up, x, y, z, tex);
    proof {
        append_is_associative(before, back, front);
        append_is_associative(before, back + front, left);
        append_is_associative(before, back + front + left, right);
        append_is_associative(before, back + front + left + right, bottom);
        append_is_associative(before, back + front + left + right + bottom, top);
    }
    Ok(())
}

/// Builds the mesh of `chunk`: for every cell that does not hold air, a
/// quad for each face whose neighbour holds air or lies outside the chunk.
/// Positions are local to the chunk. Where a voxel to be meshed has a
/// texture mapping other than a single tile, no mesh is built.
pub fn mesh_builder(chunk: &Chunk) -> (built: Result<MeshBuilder<ChunkVertex>, Error>)
    ensures
        match built {
            Ok(mesh) => {
                &&& forall|x: int, y: int, z: int| !unsupported_at(chunk@, x, y, z)
                &&& mesh@ == chunk_mesh(chunk@)
            },
            Err(e) => {
                &&& e == Error::UnsupportedTextureMapping
                &&& exists|x: int, y: int, z: int| unsupported_at(chunk@, x, y, z)
            },
        },
{
    let mut mesh = MeshBuilder::new();
    proof {
        Chunk::rows_and_layers_follow(0, 0);
    }
    for y in 0..Chunk::HEIGHT
        invariant
            mesh@ == mesh_of_cells(chunk@, Chunk::cell_index(0, y as int, 0) as nat),
            forall|i: int|
                0 <= i < Chunk::cell_index(0, y as int, 0) ==> !unsupported_at(
                    chunk@,
                    Chunk::cell_at(i).0,
                    Chunk::cell_at(i).1,
                    Chunk::cell_at(i).2,
                ),
    {
        for z in 0..Chunk::DEPTH
            invariant
                y < Chunk::HEIGHT,
                mesh@ == mesh_of_cells(chunk@, Chunk::cell_index(0, y as int, z as int) as nat),
                forall|i: int|
                    0 <= i < Chunk::cell_index(0, y as int, z as int) ==> !unsupported_at(
                        chunk@,
                        Chunk::cell_at(i).0,
                        Chunk::cell_at(i).1,
                        Chunk::cell_at(i).2,
                    ),
        {
            for x in 0..Chunk::WIDTH
                invariant
                    y < Chunk::HEIGHT,
                    z < Chunk::DEPTH,
                    mesh@ == mesh_of_cells(
                        chunk@,
                        Chunk::cell_index(x as int, y as int, z as int) as nat,
                    ),
                    forall|i: int|
                        0 <= i < Chunk::cell_index(x as int, y as int, z as int)
                            ==> !unsupported_at(chunk@, Chunk::cell_at(i).0, Chunk::cell_at(i).1, Chunk::cell_at(i).2),
            {
                proof {
                    Chunk::cell_index_is_bijective(x as int, y as int, z as int);
                }
                match push_cell(&mut mesh, chunk, x, y, z) {
                    Ok(()) => {},
                    Err(e) => {
                        return Err(e);
                    },
                }
            }
            proof {
                Chunk::rows_and_layers_follow(y as int, z as int);
            }
        }
        proof {
            Chunk::rows_and_layers_follow(y as int, 0);
        }
    }
    proof {
        assert forall|x: int, y: int, z: int| !unsupported_at(chunk@, x, y, z) by {
            if Chunk::in_bounds(x, y, z) {
                Chunk::cell_index_is_bijective(x, y, z);
                let i = Chunk::cell_index(x, y, z);
                assert(Chunk::cell_at(i) == (x, y, z));
                assert(!unsupported_at(chunk@, Chunk::cell_at(i).0, Chunk::cell_at(i).1, Chunk::cell_at(i).2));
            }
        }
    }
    Ok(mesh)
}

} // verus!
