//! Terrain: filling a chunk from samples of a coherent-noise field.
//!
//! The noise itself is floating-point work and is done by the caller. This
//! module says where to sample, how the samples are scaled, and which cells
//! are solid for given samples.

use vstd::prelude::*;
use super::chunk::{Chunk, ChunkView, Palette, PaletteId, PaletteView};

verus! {

/// The density policy samples the field at a cell's world position divided
/// by this period.
pub const DENSITY_PERIOD: i64 = 16;

/// A cell is solid where the density exceeds this many thousandths.
pub const DENSITY_THRESHOLD_PERMILLE: i64 = 200;

/// The period of the broad octave of the heightmap policy.
pub const HEIGHT_BROAD_PERIOD: i64 = 512;

/// The amplitude of the broad octave.
pub const HEIGHT_BROAD_SCALE: i64 = 24;

/// The period of the fine octave of the heightmap policy.
pub const HEIGHT_FINE_PERIOD: i64 = 64;

/// The amplitude of the fine octave.
pub const HEIGHT_FINE_SCALE: i64 = 30;

/// What is added to the sum of the octaves to get a column's height.
pub const HEIGHT_OFFSET: i64 = 24;

/// The id that terrain places in solid cells: the first voxel that the
/// caller registered.
pub const SOLID_ID: u8 = 1;

/// The samples that decide the terrain of one chunk, by policy.
#[derive(Debug)]
pub enum Terrain {
    /// A density field: for every cell, in storage order, whether the
    /// density there exceeds the threshold.
    Density(Vec<bool>),
    /// A heightmap: for every column, row by row in `z`, the height of the
    /// terrain there, counted in cells from the chunk's floor.
    Heightmap(Vec<i64>),
}

impl Terrain {
    /// Whether the samples make the cell `(x, y, z)` solid. With a density
    /// field, it is where the sample says so; with a heightmap, below the
    /// height of its column. A cell without a sample is not solid.
    pub open spec fn solid_at(&self, x: int, y: int, z: int) -> bool {
        match self {
            Terrain::Density(exceeds) => {
                let i = Chunk::cell_index(x, y, z);
                0 <= i < exceeds@.len() && exceeds@[i]
            },
            Terrain::Heightmap(heights) => {
                let column = z * Chunk::WIDTH + x;
                0 <= column < heights@.len() && y < heights@[column]
            },
        }
    }

    /// The id that the terrain places at `(x, y, z)`.
    pub open spec fn id_at(&self, x: int, y: int, z: int) -> PaletteId {
        if self.solid_at(x, y, z) {
            PaletteId(SOLID_ID)
        } else {
            PaletteId(0)
        }
    }

    /// Whether `chunk` is the terrain of these samples at `coord` with the
    /// palette `palette`.
    pub open spec fn is_terrain(
        &self,
        chunk: ChunkView,
        coord: (i32, i32, i32),
        palette: PaletteView,
    ) -> bool {
        &&& chunk.coord == coord
        &&& chunk.palette == palette
        &&& chunk.cells.len() == Chunk::VOLUME
        &&& forall|x: int, y: int, z: int|
            Chunk::in_bounds(x, y, z) ==> #[trigger] chunk.id_at(x, y, z) == self.id_at(x, y, z)
    }

    /// Terrain is determined by its inputs: two chunks that are the terrain
    /// of the same samples, at the same place and with the same palette,
    /// hold the same id in every cell and are equal.
    pub proof fn terrain_is_determined(
        &self,
        first: ChunkView,
        second: ChunkView,
        coord: (i32, i32, i32),
        palette: PaletteView,
    )
        requires
            self.is_terrain(first, coord, palette),
            self.is_terrain(second, coord, palette),
        ensures
            first == second,
    {
        assert forall|i: int| 0 <= i < Chunk::VOLUME implies first.cells[i] == second.cells[i] by {
            Chunk::cell_at_is_in_bounds(i);
            let c = Chunk::cell_at(i);
            assert(first.id_at(c.0, c.1, c.2) == self.id_at(c.0, c.1, c.2));
            assert(second.id_at(c.0, c.1, c.2) == self.id_at(c.0, c.1, c.2));
        }
        assert(first.cells =~= second.cells);
    }

    /// Whether the samples make the cell `(x, y, z)` solid.
    fn is_solid(&self, x: usize, y: usize, z: usize) -> (solid: bool)
        requires
            Chunk::in_bounds(x as int, y as int, z as int),
        ensures
            solid == self.solid_at(x as int, y as int, z as int),
    {
        match self {
            Terrain::Density(exceeds) => {
                let i = Chunk::index_of(x, y, z);
                i < exceeds.len() && exceeds[i]
            },
            Terrain::Heightmap(heights) => {
                let column = z * Chunk::WIDTH + x;
                column < heights.len() && (y as i64) < heights[column]
            },
        }
    }
}

/// The position in the world of the cell `(x, y, z)` of the chunk at
/// `coord`, counted in cells. Each unit of a chunk coordinate is one
/// chunk's extent on its axis.
pub open spec fn world_position_of(coord: (i32, i32, i32), x: int, y: int, z: int) -> (
    int,
    int,
    int,
) {
    (coord.0 * Chunk::WIDTH + x, coord.1 * Chunk::HEIGHT + y, coord.2 * Chunk::DEPTH + z)
}

/// The position in the world of the cell `(x, y, z)` of the chunk at
/// `coord`: where the noise field is sampled for that cell, before the
/// division by a period. The cell `(0, 0, 0)` gives the offset at which
/// the chunk's mesh is drawn.
pub fn world_position(coord: (i32, i32, i32), x: usize, y: usize, z: usize) -> (p: (i64, i64, i64))
    requires
        Chunk::in_bounds(x as int, y as int, z as int),
    ensures
        (p.0 as int, p.1 as int, p.2 as int) == world_position_of(
            coord,
            x as int,
            y as int,
            z as int,
        ),
{
    (
        axis_position(coord.0, Chunk::WIDTH, x),
        axis_position(coord.1, Chunk::HEIGHT, y),
        axis_position(coord.2, Chunk::DEPTH, z),
    )
}

/// The position along one axis of the cell `local` of the chunk `chunk`,
/// for chunks of `extent` cells.
fn axis_position(chunk: i32, extent: usize, local: usize) -> (p: i64)
    requires
        local < extent <= 0x1_0000_0000,
    ensures
        p == chunk * extent + local,
{
    assert(-0x8000_0000_0000_0000 <= (chunk as int) * (extent as int) <= 0x7fff_ffff_0000_0000)
        by (nonlinear_arith)
        requires
            -0x8000_0000 <= chunk <= 0x7fff_ffff,
            0 <= extent <= 0x1_0000_0000,
    ;
    chunk as i64 * extent as i64 + local as i64
}

/// The chunk at `(cx, cy, cz)` with the terrain that `samples` decide: the
/// solid id in every cell that the samples make solid, air in every other.
/// The palette is expected to hold the solid voxel at the solid id.
pub fn generate_chunk(cx: i32, cy: i32, cz: i32, palette: Palette, samples: &Terrain) -> (chunk:
    Chunk)
    ensures
        chunk@.wf(),
        samples.is_terrain(chunk@, (cx, cy, cz), palette@),
{
    let mut chunk = Chunk::new((cx, cy, cz), palette);
    proof {
        Chunk::rows_and_layers_follow(0, 0);
    }
    for y in 0..Chunk::HEIGHT
        invariant
            chunk@.wf(),
            chunk@.coord == (cx, cy, cz),
            chunk@.palette == palette@,
            forall|i: int|
                0 <= i < Chunk::cell_index(0, y as int, 0) ==> chunk@.cells[i] == samples.id_at(
                    Chunk::cell_at(i).0,
                    Chunk::cell_at(i).1,
                    Chunk::cell_at(i).2,
                ),
    {
        for z in 0..Chunk::DEPTH
            invariant
                y < Chunk::HEIGHT,
                chunk@.wf(),
                chunk@.coord == (cx, cy, cz),
                chunk@.palette == palette@,
                forall|i: int|
                    0 <= i < Chunk::cell_index(0, y as int, z as int) ==> chunk@.cells[i]
                        == samples.id_at(
                        Chunk::cell_at(i).0,
                        Chunk::cell_at(i).1,
                        Chunk::cell_at(i).2,
                    ),
        {
            for x in 0..Chunk::WIDTH
                invariant
                    y < Chunk::HEIGHT,
                    z < Chunk::DEPTH,
                    chunk@.wf(),
                    chunk@.coord == (cx, cy, cz),
                    chunk@.palette == palette@,
                    forall|i: int|
                        0 <= i < Chunk::cell_index(x as int, y as int, z as int) ==> chunk@.cells[i]
                            == samples.id_at(
                            Chunk::cell_at(i).0,
                            Chunk::cell_at(i).1,
                            Chunk::cell_at(i).2,
                        ),
            {
                proof {
                    Chunk::cell_index_is_bijective(x as int, y as int, z as int);
                }
                let voxel = if samples.is_solid(x, y, z) {
                    PaletteId::new(SOLID_ID)
                } else {
                    PaletteId::new(0)
                };
                chunk.set_voxel(x, y, z, voxel);
            }
            proof {
                Chunk::rows_and_layers_follow(y as int, z as int);
            }
        }
        proof {
            Chunk::rows_and_layers_follow(y as int, 0);
        }
    }
    proof {
        assert forall|x: int, y: int, z: int| Chunk::in_bounds(x, y, z) implies #[trigger] chunk@.id_at(
            x,
            y,
            z,
        ) == samples.id_at(x, y, z) by {
            Chunk::cell_index_is_bijective(x, y, z);
            let i = Chunk::cell_index(x, y, z);
            assert(chunk@.cells[i] == samples.id_at(
                Chunk::cell_at(i).0,
                Chunk::cell_at(i).1,
                Chunk::cell_at(i).2,
            ));
        }
    }
    chunk
}

} // verus!
