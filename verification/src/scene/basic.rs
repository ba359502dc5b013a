//! A chunk that stores its voxels directly, without a palette, for scenes
//! that are built by placing voxels one by one, and its mesh. The mesh
//! holds the four corners of every quad.

use vstd::prelude::*;
use crate::render::mesh::data::{component_byte, u16_3, u8_3, AttribKind, VertexAttrib};
use crate::render::mesh::{append_is_associative, quad_corners, MeshBuilder, Vertex};
use crate::scene::world::{face_corner, face_corners_are_wound_around_the_face, neighbor};
use crate::world::grid::{
    cell_gives_the_index_back, cell_of_index, in_grid, index_gives_the_cell_back, index_of_cell,
    rows_and_layers_follow,
};
use crate::world::voxel::VoxelDirection;

verus! {

/// The edge length of an atlas tile, in texture coordinates.
pub const TILE_SIZE: u16 = 32;

/// A voxel that is solid or empty, with the atlas tile it is drawn with.
#[derive(Clone, Copy, Debug, PartialEq, Eq, Hash, Structural)]
pub struct Voxel {
    pub atlas_idx: u16,
    pub is_solid: bool,
}

/// The empty voxel as a mathematical value.
pub open spec fn empty_voxel() -> Voxel {
    Voxel { atlas_idx: 0, is_solid: false }
}

impl Voxel {
    /// A solid voxel drawn with the tile `atlas_idx`.
    pub fn new(atlas_idx: u16) -> (v: Voxel)
        ensures
            v == (Voxel { atlas_idx, is_solid: true }),
    {
        Voxel { atlas_idx, is_solid: true }
    }
}

impl Default for Voxel {
    /// The empty voxel.
    fn default() -> (v: Voxel)
        ensures
            v == empty_voxel(),
    {
        Voxel { atlas_idx: 0, is_solid: false }
    }
}

/// A vertex of a chunk mesh: a position in the chunk, and texture
/// coordinates with the tile's layer.
#[derive(Clone, Copy, Debug, PartialEq, Eq, Structural)]
pub struct ChunkVertex {
    pub pos: u8_3,
    pub tex: u16_3,
}

impl ChunkVertex {
    pub fn new(d0: u8, d1: u8, d2: u8, d3: u16, d4: u16, d5: u16) -> (v: Self)
        ensures
            v.pos == (u8_3 { d0, d1, d2 }),
            v.tex == (u16_3 { d0: d3, d1: d4, d2: d5 }),
    {
        Self { pos: u8_3::new(d0, d1, d2), tex: u16_3::new(d3, d4, d5) }
    }
}

impl Vertex for ChunkVertex {
    open spec fn stride() -> nat {
        9
    }

    open spec fn attribs() -> Seq<VertexAttrib> {
        seq![
            VertexAttrib {
                location: 0,
                components: 3,
                kind: AttribKind::UnsignedByte,
                stride: 9,
                offset: 0,
            },
            VertexAttrib {
                location: 1,
                components: 3,
                kind: AttribKind::UnsignedShort,
                stride: 9,
                offset: 3,
            },
        ]
    }

    open spec fn component(&self, attrib: int, index: int) -> int {
        if attrib == 0 {
            if index == 0 {
                self.pos.d0 as int
            } else if index == 1 {
                self.pos.d1 as int
            } else {
                self.pos.d2 as int
            }
        } else {
            if index == 0 {
                self.tex.d0 as int
            } else if index == 1 {
                self.tex.d1 as int
            } else {
                self.tex.d2 as int
            }
        }
    }

    open spec fn packed(&self) -> Seq<u8> {
        self.pos.packed() + self.tex.packed()
    }

    proof fn packed_follows_the_layout(&self) {
        assert forall|a: int, c: int, b: int|
            #![trigger component_byte(Self::attribs()[a].kind, self.component(a, c), b)]
            0 <= a < Self::attribs().len() && 0 <= c < Self::attribs()[a].components && 0 <= b
                < Self::attribs()[a].kind.spec_size() implies self.packed()[Self::attribs()[a].offset
            + c * Self::attribs()[a].kind.spec_size() + b] == component_byte(
            Self::attribs()[a].kind,
            self.component(a, c),
            b,
        ) by {
            assert(Self::attribs()[0].kind == AttribKind::UnsignedByte);
            assert(Self::attribs()[1].kind == AttribKind::UnsignedShort);
        }
    }

    fn vertex_attribs() -> (attribs: Vec<VertexAttrib>) {
        let stride = u8_3::SIZE + u16_3::SIZE;
        let mut attribs: Vec<VertexAttrib> = Vec::with_capacity(2);
        let location: usize = 0;
        let offset: usize = 0;
        attribs.push(u8_3::vertex_attrib(stride, location, offset));
        let location: usize = 1;
        let offset = offset + u8_3::SIZE;
        attribs.push(u16_3::vertex_attrib(stride, location, offset));
        assert(attribs@ =~= Self::attribs());
        attribs
    }

    fn pack(&self, bytes: &mut Vec<u8>) {
        self.pos.pack(bytes);
        self.tex.pack(bytes);
        assert(bytes@ =~= old(bytes)@ + self.packed());
    }
}

/// A fixed-size block of voxels, addressed by `(x, y, z)`.
#[derive(Debug)]
pub struct Chunk {
    index: (u32, u32, u32),
    voxels: Vec<Voxel>,
}

/// A chunk as a mathematical value.
pub struct ChunkView {
    /// The chunk's position, counted in chunks along each axis.
    pub index: (u32, u32, u32),
    /// The voxels of all cells, in storage order.
    pub cells: Seq<Voxel>,
}

impl ChunkView {
    /// What holds of the view of every chunk.
    pub open spec fn wf(self) -> bool {
        self.cells.len() == Chunk::VOLUME
    }

    /// The voxel at `(x, y, z)`; outside the chunk, the empty voxel.
    pub open spec fn voxel_at(self, x: int, y: int, z: int) -> Voxel {
        if Chunk::in_bounds(x, y, z) {
            self.cells[Chunk::cell_index(x, y, z)]
        } else {
            empty_voxel()
        }
    }

    /// Whether `(x, y, z)` is a cell of the chunk that holds a solid voxel.
    pub open spec fn solid_at(self, x: int, y: int, z: int) -> bool {
        Chunk::in_bounds(x, y, z) && self.cells[Chunk::cell_index(x, y, z)].is_solid
    }

    /// The chunk after `voxel` was written to `(x, y, z)`: a position
    /// outside the chunk changes nothing.
    pub open spec fn with_cell(self, x: int, y: int, z: int, voxel: Voxel) -> ChunkView {
        if Chunk::in_bounds(x, y, z) {
            ChunkView { cells: self.cells.update(Chunk::cell_index(x, y, z), voxel), ..self }
        } else {
            self
        }
    }

    /// A voxel that was written is read back, and a write touches one cell
    /// at most: after a write to a cell of the chunk, that cell holds the
    /// written voxel and every other position holds what it held; a write
    /// outside the chunk leaves the chunk as it was.
    pub proof fn written_voxel_is_read(
        self,
        x: int,
        y: int,
        z: int,
        voxel: Voxel,
        ox: int,
        oy: int,
        oz: int,
    )
        requires
            self.wf(),
        ensures
            self.with_cell(x, y, z, voxel).wf(),
            Chunk::in_bounds(x, y, z) ==> self.with_cell(x, y, z, voxel).voxel_at(x, y, z) == voxel,
            !Chunk::in_bounds(x, y, z) ==> self.with_cell(x, y, z, voxel) == self,
            (ox != x || oy != y || oz != z) ==> self.with_cell(x, y, z, voxel).voxel_at(ox, oy, oz)
                == self.voxel_at(ox, oy, oz),
    {
        if Chunk::in_bounds(x, y, z) {
            Chunk::cell_index_is_bijective(x, y, z);
            if Chunk::in_bounds(ox, oy, oz) {
                Chunk::cell_index_is_bijective(ox, oy, oz);
            }
        }
    }
}

impl View for Chunk {
    type V = ChunkView;

    closed spec fn view(&self) -> ChunkView {
        ChunkView { index: self.index, cells: self.voxels@ }
    }
}

/// The vertex at corner `k` of the face looking in `dir` of `voxel` at
/// `(x, y, z)`: the corner's position in the chunk, and the corner of the
/// voxel's tile.
pub open spec fn corner_vertex(dir: VoxelDirection, k: int, x: int, y: int, z: int, voxel: Voxel) -> ChunkVertex {
    let c = face_corner(dir, k);
    ChunkVertex {
        pos: u8_3 { d0: (x + c.dx) as u8, d1: (y + c.dy) as u8, d2: (z + c.dz) as u8 },
        tex: u16_3 {
            d0: if c.u {
                TILE_SIZE
            } else {
                0
            },
            d1: if c.v {
                TILE_SIZE
            } else {
                0
            },
            d2: voxel.atlas_idx,
        },
    }
}

/// The four corners of the face looking in `dir` of `voxel` at
/// `(x, y, z)`, in the order in which the face is wound.
pub open spec fn face_quad(dir: VoxelDirection, x: int, y: int, z: int, voxel: Voxel) -> Seq<
    ChunkVertex,
> {
    quad_corners(
        corner_vertex(dir, 0, x, y, z, voxel),
        corner_vertex(dir, 1, x, y, z, voxel),
        corner_vertex(dir, 2, x, y, z, voxel),
        corner_vertex(dir, 3, x, y, z, voxel),
    )
}

/// Whether the face of the cell `(x, y, z)` that looks in `dir` can be
/// seen: its neighbour is not a solid cell of the chunk.
pub open spec fn face_exposed(chunk: ChunkView, dir: VoxelDirection, x: int, y: int, z: int) -> bool {
    let n = neighbor(dir, x, y, z);
    !chunk.solid_at(n.0, n.1, n.2)
}

/// What the face looking in `dir` of the cell `(x, y, z)` adds to the mesh:
/// its quad where it can be seen, nothing where it cannot.
pub open spec fn face_vertices(chunk: ChunkView, dir: VoxelDirection, x: int, y: int, z: int) -> Seq<
    ChunkVertex,
> {
    if face_exposed(chunk, dir, x, y, z) {
        face_quad(dir, x, y, z, chunk.voxel_at(x, y, z))
    } else {
        Seq::empty()
    }
}

/// What the cell `(x, y, z)` adds to the mesh: nothing where it is not
/// solid, else its faces that can be seen, in the order back, front, left,
/// right, top, bottom.
pub open spec fn cell_vertices(chunk: ChunkView, x: int, y: int, z: int) -> Seq<ChunkVertex> {
    if !chunk.solid_at(x, y, z) {
        Seq::empty()
    } else {
        face_vertices(chunk, VoxelDirection::Towards, x, y, z) + face_vertices(
            chunk,
            VoxelDirection::Away,
            x,
            y,
            z,
        ) + face_vertices(chunk, VoxelDirection::Left, x, y, z) + face_vertices(
            chunk,
            VoxelDirection::Right,
            x,
            y,
            z,
        ) + face_vertices(chunk, VoxelDirection::Up, x, y, z) + face_vertices(
            chunk,
            VoxelDirection::Down,
            x,
            y,
            z,
        )
    }
}

/// The mesh of the first `n` cells in storage order: layer by layer in `y`,
/// row by row in `z`, cell by cell in `x`.
pub open spec fn mesh_of_cells(chunk: ChunkView, n: nat) -> Seq<ChunkVertex>
    decreases n,
{
    if n == 0 {
        Seq::empty()
    } else {
        let c = Chunk::cell_at(n - 1);
        mesh_of_cells(chunk, (n - 1) as nat) + cell_vertices(chunk, c.0, c.1, c.2)
    }
}

/// How many faces of the cell `(x, y, z)` are in the mesh: none where it
/// is not solid, else one for each direction in which it can be seen.
pub open spec fn exposed_faces(chunk: ChunkView, x: int, y: int, z: int) -> nat {
    if !chunk.solid_at(x, y, z) {
        0
    } else {
        (if face_exposed(chunk, VoxelDirection::Towards, x, y, z) {
            1nat
        } else {
            0
        }) + (if face_exposed(chunk, VoxelDirection::Away, x, y, z) {
            1nat
        } else {
            0
        }) + (if face_exposed(chunk, VoxelDirection::Left, x, y, z) {
            1nat
        } else {
            0
        }) + (if face_exposed(chunk, VoxelDirection::Right, x, y, z) {
            1nat
        } else {
            0
        }) + (if face_exposed(chunk, VoxelDirection::Up, x, y, z) {
            1nat
        } else {
            0
        }) + (if face_exposed(chunk, VoxelDirection::Down, x, y, z) {
            1nat
        } else {
            0
        })
    }
}

/// How many faces of the first `n` cells in storage order are in the mesh.
pub open spec fn exposed_faces_of_cells(chunk: ChunkView, n: nat) -> nat
    decreases n,
{
    if n == 0 {
        0
    } else {
        let c = Chunk::cell_at(n - 1);
        exposed_faces_of_cells(chunk, (n - 1) as nat) + exposed_faces(chunk, c.0, c.1, c.2)
    }
}

/// A face between two solid voxels is culled, and a face that can be seen
/// is one quad: the face of a cell adds no vertex where its neighbour is a
/// solid cell of the chunk, and four vertices, its corners, where it is
/// not. At the edge of the chunk every face can be seen.
pub proof fn hidden_face_is_culled(chunk: ChunkView, dir: VoxelDirection, x: int, y: int, z: int)
    ensures
        face_vertices(chunk, dir, x, y, z).len() == (if face_exposed(chunk, dir, x, y, z) {
            4nat
        } else {
            0
        }),
        !Chunk::in_bounds(neighbor(dir, x, y, z).0, neighbor(dir, x, y, z).1, neighbor(dir, x, y, z).2)
            ==> face_exposed(chunk, dir, x, y, z),
{
}

/// The mesh holds one quad for every face that can be seen, and nothing
/// else: its vertices are four times the faces of solid cells whose
/// neighbour is not a solid cell of the chunk.
pub proof fn mesh_has_a_quad_for_each_exposed_face(chunk: ChunkView, n: nat)
    ensures
        mesh_of_cells(chunk, n).len() == 4 * exposed_faces_of_cells(chunk, n),
    decreases n,
{
    if n > 0 {
        mesh_has_a_quad_for_each_exposed_face(chunk, (n - 1) as nat);
        let c = Chunk::cell_at(n - 1);
        hidden_face_is_culled(chunk, VoxelDirection::Towards, c.0, c.1, c.2);
        hidden_face_is_culled(chunk, VoxelDirection::Away, c.0, c.1, c.2);
        hidden_face_is_culled(chunk, VoxelDirection::Left, c.0, c.1, c.2);
        hidden_face_is_culled(chunk, VoxelDirection::Right, c.0, c.1, c.2);
        hidden_face_is_culled(chunk, VoxelDirection::Up, c.0, c.1, c.2);
        hidden_face_is_culled(chunk, VoxelDirection::Down, c.0, c.1, c.2);
    }
}

/// Cells that are not solid add nothing: where no cell stored from index
/// `m` up to index `n` is solid, the mesh of the first `n` cells is the
/// mesh of the first `m`, with as many faces.
pub proof fn empty_cells_add_nothing(chunk: ChunkView, m: nat, n: nat)
    requires
        m <= n,
        forall|i: int|
            m <= i < n ==> !chunk.solid_at(
                Chunk::cell_at(i).0,
                Chunk::cell_at(i).1,
                #[trigger] Chunk::cell_at(i).2,
            ),
    ensures
        mesh_of_cells(chunk, n) == mesh_of_cells(chunk, m),
        exposed_faces_of_cells(chunk, n) == exposed_faces_of_cells(chunk, m),
    decreases n - m,
{
    if m < n {
        empty_cells_add_nothing(chunk, m, (n - 1) as nat);
        let c = Chunk::cell_at(n - 1);
        assert(!chunk.solid_at(c.0, c.1, c.2));
        assert(mesh_of_cells(chunk, n) =~= mesh_of_cells(chunk, (n - 1) as nat));
    }
}

/// Whether `v` is a vertex that belongs in the mesh of `chunk`: a corner of
/// a face that can be seen of a solid cell, with the tile of the voxel in
/// that cell.
pub open spec fn is_exposed_corner(chunk: ChunkView, v: ChunkVertex) -> bool {
    exists|dir: VoxelDirection, k: int, x: int, y: int, z: int|
        {
            &&& chunk.solid_at(x, y, z)
            &&& face_exposed(chunk, dir, x, y, z)
            &&& 0 <= k < 4
            &&& v == #[trigger] corner_vertex(dir, k, x, y, z, chunk.voxel_at(x, y, z))
        }
}

/// Every vertex that a face adds is one of its four corners.
proof fn face_vertex_is_a_corner(chunk: ChunkView, dir: VoxelDirection, x: int, y: int, z: int, j: int)
    requires
        chunk.solid_at(x, y, z),
        0 <= j < face_vertices(chunk, dir, x, y, z).len(),
    ensures
        is_exposed_corner(chunk, face_vertices(chunk, dir, x, y, z)[j]),
{
    assert(face_vertices(chunk, dir, x, y, z)[j] == corner_vertex(
        dir,
        j,
        x,
        y,
        z,
        chunk.voxel_at(x, y, z),
    ));
}

/// Every vertex that a cell adds is a corner of one of its faces that can
/// be seen.
proof fn cell_vertex_is_a_corner(chunk: ChunkView, x: int, y: int, z: int, j: int)
    requires
        0 <= j < cell_vertices(chunk, x, y, z).len(),
    ensures
        is_exposed_corner(chunk, cell_vertices(chunk, x, y, z)[j]),
{
    let back = face_vertices(chunk, VoxelDirection::Towards, x, y, z);
    let front = face_vertices(chunk, VoxelDirection::Away, x, y, z);
    let left = face_vertices(chunk, VoxelDirection::Left, x, y, z);
    let right = face_vertices(chunk, VoxelDirection::Right, x, y, z);
    let top = face_vertices(chunk, VoxelDirection::Up, x, y, z);
    let bottom = face_vertices(chunk, VoxelDirection::Down, x, y, z);
    let a = back.len() as int;
    let b = a + front.len();
    let c = b + left.len();
    let d = c + right.len();
    let e = d + top.len();
    if j < a {
        face_vertex_is_a_corner(chunk, VoxelDirection::Towards, x, y, z, j);
    } else if j < b {
        face_vertex_is_a_corner(chunk, VoxelDirection::Away, x, y, z, j - a);
    } else if j < c {
        face_vertex_is_a_corner(chunk, VoxelDirection::Left, x, y, z, j - b);
    } else if j < d {
        face_vertex_is_a_corner(chunk, VoxelDirection::Right, x, y, z, j - c);
    } else if j < e {
        face_vertex_is_a_corner(chunk, VoxelDirection::Up, x, y, z, j - d);
    } else {
        face_vertex_is_a_corner(chunk, VoxelDirection::Down, x, y, z, j - e);
    }
}

/// The mesh holds nothing but corners of faces that can be seen: every
/// vertex of the mesh of the first `n` cells is a corner of such a face of
/// a solid cell, and lies within the chunk.
pub proof fn mesh_holds_only_exposed_corners(chunk: ChunkView, n: nat, i: int)
    requires
        0 <= i < mesh_of_cells(chunk, n).len(),
    ensures
        is_exposed_corner(chunk, mesh_of_cells(chunk, n)[i]),
        mesh_of_cells(chunk, n)[i].pos.d0 <= Chunk::WIDTH,
        mesh_of_cells(chunk, n)[i].pos.d1 <= Chunk::HEIGHT,
        mesh_of_cells(chunk, n)[i].pos.d2 <= Chunk::DEPTH,
    decreases n,
{
    let before = mesh_of_cells(chunk, (n - 1) as nat);
    if i < before.len() {
        mesh_holds_only_exposed_corners(chunk, (n - 1) as nat, i);
    } else {
        let c = Chunk::cell_at(n - 1);
        cell_vertex_is_a_corner(chunk, c.0, c.1, c.2, i - before.len());
    }
    let v = mesh_of_cells(chunk, n)[i];
    let (dir, k, x, y, z): (VoxelDirection, int, int, int, int) = choose|
        dir: VoxelDirection,
        k: int,
        x: int,
        y: int,
        z: int,
    |
        {
            &&& chunk.solid_at(x, y, z)
            &&& face_exposed(chunk, dir, x, y, z)
            &&& 0 <= k < 4
            &&& v == #[trigger] corner_vertex(dir, k, x, y, z, chunk.voxel_at(x, y, z))
        };
    face_corners_are_wound_around_the_face(dir, k, k);
}

/// The mesh of a chunk: what each of its cells adds, in storage order.
pub open spec fn chunk_mesh(chunk: ChunkView) -> Seq<ChunkVertex> {
    mesh_of_cells(chunk, Chunk::VOLUME as nat)
}

impl Chunk {
    /// The cells along `x`.
    pub const WIDTH: usize = 32;
    /// The cells along `y`.
    pub const HEIGHT: usize = 32;
    /// The cells along `z`.
    pub const DEPTH: usize = 64;
    /// The number of cells.
    pub const VOLUME: usize = Self::WIDTH * Self::HEIGHT * Self::DEPTH;

    /// Whether `(x, y, z)` names a cell of a chunk.
    pub open spec fn in_bounds(x: int, y: int, z: int) -> bool {
        in_grid(Self::WIDTH as int, Self::HEIGHT as int, Self::DEPTH as int, x, y, z)
    }

    /// Where the cell `(x, y, z)` is stored: layers of `y`, rows of `z`.
    pub open spec fn cell_index(x: int, y: int, z: int) -> int {
        index_of_cell(Self::WIDTH as int, Self::DEPTH as int, x, y, z)
    }

    /// The coordinates of the cell stored at index `i`.
    pub open spec fn cell_at(i: int) -> (int, int, int) {
        cell_of_index(Self::WIDTH as int, Self::DEPTH as int, i)
    }

    /// The chunk's invariant: it holds of every chunk that exists.
    #[verifier::type_invariant]
    pub closed spec fn wf(&self) -> bool {
        self.voxels@.len() == Self::VOLUME
    }

    /// What `wf` says in terms of the view.
    pub proof fn wf_facts(&self)
        requires
            self.wf(),
        ensures
            self@.wf(),
    {
    }

    /// The cells of a chunk are stored without gaps or overlaps: the index
    /// of a cell is below the volume and gives its coordinates back.
    pub proof fn cell_index_is_bijective(x: int, y: int, z: int)
        requires
            Self::in_bounds(x, y, z),
        ensures
            0 <= Self::cell_index(x, y, z) < Self::VOLUME,
            Self::cell_at(Self::cell_index(x, y, z)) == (x, y, z),
    {
        index_gives_the_cell_back(
            Self::WIDTH as int,
            Self::HEIGHT as int,
            Self::DEPTH as int,
            x,
            y,
            z,
        );
    }

    /// Every index below the volume is the index of a cell of the chunk.
    pub proof fn cell_at_is_in_bounds(i: int)
        requires
            0 <= i < Self::VOLUME,
        ensures
            Self::in_bounds(Self::cell_at(i).0, Self::cell_at(i).1, Self::cell_at(i).2),
            Self::cell_index(Self::cell_at(i).0, Self::cell_at(i).1, Self::cell_at(i).2) == i,
    {
        cell_gives_the_index_back(Self::WIDTH as int, Self::HEIGHT as int, Self::DEPTH as int, i);
    }

    /// Rows and layers follow each other in storage: the first cell has
    /// index 0, the end of a row is the start of the next, the end of a
    /// layer is the start of the next, and the end of the last layer is the
    /// volume.
    pub proof fn rows_and_layers_follow(y: int, z: int)
        ensures
            Self::cell_index(0, 0, 0) == 0,
            Self::cell_index(Self::WIDTH as int, y, z) == Self::cell_index(0, y, z + 1),
            Self::cell_index(0, y, Self::DEPTH as int) == Self::cell_index(0, y + 1, 0),
            Self::cell_index(0, Self::HEIGHT as int, 0) == Self::VOLUME,
    {
        rows_and_layers_follow(Self::WIDTH as int, Self::HEIGHT as int, Self::DEPTH as int, y, z);
    }

    /// The place of the cell `(x, y, z)` in storage.
    fn index_of(x: usize, y: usize, z: usize) -> (idx: usize)
        requires
            Self::in_bounds(x as int, y as int, z as int),
        ensures
            idx == Self::cell_index(x as int, y as int, z as int),
            idx < Self::VOLUME,
    {
        proof {
            Self::cell_index_is_bijective(x as int, y as int, z as int);
            assert(y * Self::WIDTH * Self::DEPTH == y * (Self::WIDTH * Self::DEPTH) && 0 <= y
                * Self::WIDTH <= y * Self::WIDTH * Self::DEPTH && 0 <= z * Self::WIDTH)
                by (nonlinear_arith)
                requires
                    0 < Self::WIDTH,
                    0 < Self::DEPTH,
            ;
        }
        (y * Self::WIDTH * Self::DEPTH) + (z * Self::WIDTH) + x
    }

    /// A chunk at `index` whose cells are all empty.
    pub fn new(index: (u32, u32, u32)) -> (c: Chunk)
        ensures
            c@.wf(),
            c@.index == index,
            c@.cells =~= Seq::new(Self::VOLUME as nat, |i: int| empty_voxel()),
            forall|x: int, y: int, z: int| !#[trigger] c@.solid_at(x, y, z),
    {
        let mut voxels: Vec<Voxel> = Vec::with_capacity(Self::VOLUME);
        let mut i: usize = 0;
        while i < Self::VOLUME
            invariant
                i <= Self::VOLUME,
                voxels@.len() == i,
                forall|j: int| 0 <= j < i ==> voxels@[j] == empty_voxel(),
            decreases Self::VOLUME - i,
        {
            voxels.push(Voxel::default());
            i += 1;
        }
        let c = Chunk { index, voxels };
        assert forall|x: int, y: int, z: int| !#[trigger] c@.solid_at(x, y, z) by {
            if Self::in_bounds(x, y, z) {
                Self::cell_index_is_bijective(x, y, z);
            }
        }
        c
    }

    /// The chunk's position, counted in chunks along each axis.
    pub fn index(&self) -> (index: (u32, u32, u32))
        ensures
            index == self@.index,
    {
        self.index
    }

    /// Writes `voxel` to the cell at `pos`, given as `(x, y, z)`. A
    /// position outside the chunk is ignored.
    #[inline(always)]
    pub fn set_voxel(&mut self, pos: (usize, usize, usize), voxel: Voxel)
        ensures
            final(self)@ == old(self)@.with_cell(pos.0 as int, pos.1 as int, pos.2 as int, voxel),
            final(self)@.wf(),
    {
        proof {
            use_type_invariant(&*self);
        }
        if pos.0 >= Self::WIDTH || pos.1 >= Self::HEIGHT || pos.2 >= Self::DEPTH {
            return ;
        }
        let idx = Self::index_of(pos.0, pos.1, pos.2);
        self.voxels[idx] = voxel;
    }

    /// Whether the cell at `pos`, given as `(x, y, z)`, holds a solid
    /// voxel. A position outside the chunk is not solid.
    #[inline(always)]
    pub fn is_solid(&self, pos: (usize, usize, usize)) -> (solid: bool)
        ensures
            solid == self@.solid_at(pos.0 as int, pos.1 as int, pos.2 as int),
    {
        proof {
            use_type_invariant(self);
        }
        if pos.0 >= Self::WIDTH || pos.1 >= Self::HEIGHT || pos.2 >= Self::DEPTH {
            return false;
        }
        let idx = Self::index_of(pos.0, pos.1, pos.2);
        self.voxels[idx].is_solid
    }

    /// The voxel of the cell `(x, y, z)` of the chunk.
    fn voxel(&self, x: usize, y: usize, z: usize) -> (v: Voxel)
        requires
            Self::in_bounds(x as int, y as int, z as int),
        ensures
            v == self@.voxel_at(x as int, y as int, z as int),
    {
        proof {
            use_type_invariant(self);
        }
        let idx = Self::index_of(x, y, z);
        self.voxels[idx]
    }

    /// Whether the face of the cell `(x, y, z)` that looks in `dir` can be
    /// seen.
    fn is_face_exposed(&self, dir: VoxelDirection, x: usize, y: usize, z: usize) -> (exposed: bool)
        requires
            Self::in_bounds(x as int, y as int, z as int),
        ensures
            exposed == face_exposed(self@, dir, x as int, y as int, z as int),
    {
        match dir {
            VoxelDirection::Towards => z == 0 || !self.is_solid((x, y, z - 1)),
            VoxelDirection::Away => !self.is_solid((x, y, z + 1)),
            VoxelDirection::Left => x == 0 || !self.is_solid((x - 1, y, z)),
            VoxelDirection::Right => !self.is_solid((x + 1, y, z)),
            VoxelDirection::Down => y == 0 || !self.is_solid((x, y - 1, z)),
            VoxelDirection::Up => !self.is_solid((x, y + 1, z)),
        }
    }

    /// Appends the face looking in `dir` of the cell `(x, y, z)` where it
    /// can be seen.
    fn push_face(
        &self,
        mesh: MeshBuilder<ChunkVertex>,
        dir: VoxelDirection,
        x: usize,
        y: usize,
        z: usize,
    ) -> (pushed: MeshBuilder<ChunkVertex>)
        requires
            Self::in_bounds(x as int, y as int, z as int),
        ensures
            pushed@ == mesh@ + face_vertices(self@, dir, x as int, y as int, z as int),
    {
        if !self.is_face_exposed(dir, x, y, z) {
            assert(mesh@ =~= mesh@ + Seq::<ChunkVertex>::empty());
            return mesh;
        }
        let ti = self.voxel(x, y, z).atlas_idx;
        let ts = TILE_SIZE;
        let x = x as u8;
        let y = y as u8;
        let z = z as u8;
        match dir {
            VoxelDirection::Towards => mesh.push_quad_corners(
                &ChunkVertex::new(1 + x, 1 + y, z, ts, ts, ti),
                &ChunkVertex::new(x, 1 + y, z, 0, ts, ti),
                &ChunkVertex::new(x, y, z, 0, 0, ti),
                &ChunkVertex::new(1 + x, y, z, ts, 0, ti),
            ),
            VoxelDirection::Away => mesh.push_quad_corners(
                &ChunkVertex::new(1 + x, y, 1 + z, ts, 0, ti),
                &ChunkVertex::new(x, y, 1 + z, 0, 0, ti),
                &ChunkVertex::new(x, 1 + y, 1 + z, 0, ts, ti),
                &ChunkVertex::new(1 + x, 1 + y, 1 + z, ts, ts, ti),
            ),
            VoxelDirection::Left => mesh.push_quad_corners(
                &ChunkVertex::new(x, 1 + y, z, ts, ts, ti),
                &ChunkVertex::new(x, 1 + y, 1 + z, 0, ts, ti),
                &ChunkVertex::new(x, y, 1 + z, 0, 0, ti),
                &ChunkVertex::new(x, y, z, ts, 0, ti),
            ),
            VoxelDirection::Right => mesh.push_quad_corners(
                &ChunkVertex::new(1 + x, y, z, ts, 0, ti),
                &ChunkVertex::new(1 + x, y, 1 + z, 0, 0, ti),
                &ChunkVertex::new(1 + x, 1 + y, 1 + z, 0, ts, ti),
                &ChunkVertex::new(1 + x, 1 + y, z, ts, ts, ti),
            ),
            VoxelDirection::Up => mesh.push_quad_corners(
                &ChunkVertex::new(x, 1 + y, z, ts, ts, ti),
                &ChunkVertex::new(1 + x, 1 + y, z, 0, ts, ti),
                &ChunkVertex::new(1 + x, 1 + y, 1 + z, 0, 0, ti),
                &ChunkVertex::new(x, 1 + y, 1 + z, ts, 0, ti),
            ),
            VoxelDirection::Down => mesh.push_quad_corners(
                &ChunkVertex::new(x, y, 1 + z, ts, 0, ti),
                &ChunkVertex::new(1 + x, y, 1 + z, 0, 0, ti),
                &ChunkVertex::new(1 + x, y, z, 0, ts, ti),
                &ChunkVertex::new(x, y, z, ts, ts, ti),
            ),
        }
    }

    /// Appends what the cell `(x, y, z)` adds to the mesh.
    fn push_cell(&self, mesh: MeshBuilder<ChunkVertex>, x: usize, y: usize, z: usize) -> (pushed:
        MeshBuilder<ChunkVertex>)
        requires
            Self::in_bounds(x as int, y as int, z as int),
        ensures
            pushed@ == mesh@ + cell_vertices(self@, x as int, y as int, z as int),
    {
        if !self.is_solid((x, y, z)) {
            assert(mesh@ =~= mesh@ + Seq::<ChunkVertex>::empty());
            return mesh;
        }
        let ghost before = mesh@;
        let ghost (xi, yi, zi) = (x as int, y as int, z as int);
        let ghost back = face_vertices(self@, VoxelDirection::Towards, xi, yi, zi);
        let ghost front = face_vertices(self@, VoxelDirection::Away, xi, yi, zi);
        let ghost left = face_vertices(self@, VoxelDirection::Left, xi, yi, zi);
        let ghost right = face_vertices(self@, VoxelDirection::Right, xi, yi, zi);
        let ghost top = face_vertices(self@, VoxelDirection::Up, xi, yi, zi);
        let ghost bottom = face_vertices(self@, VoxelDirection::Down, xi, yi, zi);
        let mesh = self.push_face(mesh, VoxelDirection::Towards, x, y, z);
        let mesh = self.push_face(mesh, VoxelDirection::Away, x, y, z);
        let mesh = self.push_face(mesh, VoxelDirection::Left, x, y, z);
        let mesh = self.push_face(mesh, VoxelDirection::Right, x, y, z);
        let mesh = self.push_face(mesh, VoxelDirection::Up, x, y, z);
        let mesh = self.push_face(mesh, VoxelDirection::Down, x, y, z);
        proof {
            append_is_associative(before, back, front);
            append_is_associative(before, back + front, left);
            append_is_associative(before, back + front + left, right);
            append_is_associative(before, back + front + left + right, top);
            append_is_associative(before, back + front + left + right + top, bottom);
        }
        mesh
    }

    /// Builds the mesh of the chunk: for every solid cell, the four corners
    /// of each face whose neighbour is not a solid cell of the chunk, faces
    /// at the edge of the chunk included. Positions are local to the chunk.
    pub fn mesh_builder(&self) -> (mesh: MeshBuilder<ChunkVertex>)
        ensures
            mesh@ == chunk_mesh(self@),
    {
        let mut mesh = MeshBuilder::new();
        proof {
            Self::rows_and_layers_follow(0, 0);
        }
        for y in 0..Self::HEIGHT
            invariant
                mesh@ == mesh_of_cells(self@, Self::cell_index(0, y as int, 0) as nat),
        {
            for z in 0..Self::DEPTH
                invariant
                    y < Self::HEIGHT,
                    mesh@ == mesh_of_cells(self@, Self::cell_index(0, y as int, z as int) as nat),
            {
                for x in 0..Self::WIDTH
                    invariant
                        y < Self::HEIGHT,
                        z < Self::DEPTH,
                        mesh@ == mesh_of_cells(
                            self@,
                            Self::cell_index(x as int, y as int, z as int) as nat,
                        ),
                {
                    proof {
                        Self::cell_index_is_bijective(x as int, y as int, z as int);
                    }
                    mesh = self.push_cell(mesh, x, y, z);
                }
                proof {
                    Self::rows_and_layers_follow(y as int, z as int);
                }
            }
            proof {
                Self::rows_and_layers_follow(y as int, 0);
            }
        }
        mesh
    }
}

} // verus!
