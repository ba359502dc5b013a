//! Palette-compressed chunk storage: a chunk keeps one small id per cell and
//! a palette that maps each id to its voxel.

use vstd::prelude::*;
use super::grid::{
    cell_gives_the_index_back, cell_of_index, in_grid, index_gives_the_cell_back, index_of_cell,
    rows_and_layers_follow,
};
use super::voxel::{air_voxel, Voxel};
use crate::error::Error;

verus! {

/// The index of a voxel in a `Palette`. Id 0 always denotes air.
#[derive(Clone, Copy, Debug, PartialEq, Eq, PartialOrd, Ord, Structural)]
pub struct PaletteId(pub u8);

impl PaletteId {
    #[inline(always)]
    pub fn new(id: u8) -> (p: PaletteId)
        ensures
            p == PaletteId(id),
    {
        PaletteId(id)
    }

    #[inline(always)]
    pub fn value(&self) -> (v: u8)
        ensures
            v == self.0,
    {
        self.0
    }
}

/// A fixed-capacity, append-only table of voxels. Slot 0 is air; slots are
/// handed out in order, and every slot that was not handed out yet holds air.
#[derive(Debug)]
pub struct Palette {
    last_free: usize,
    types: Vec<Voxel>,
}

/// A palette as a mathematical value.
pub struct PaletteView {
    /// What each slot holds.
    pub slots: Seq<Voxel>,
    /// The slot that the next registration takes; the number of slots when
    /// the palette is full.
    pub next_free: int,
}

impl PaletteView {
    /// What holds of the view of every palette: it has all its slots, slot
    /// 0 is reserved and holds air, and so does every slot that was not
    /// handed out yet.
    pub open spec fn wf(self) -> bool {
        &&& self.slots.len() == Palette::MAX_SIZE
        &&& 1 <= self.next_free <= Palette::MAX_SIZE
        &&& self.slots[0] == air_voxel()
        &&& forall|i: int| self.next_free <= i < Palette::MAX_SIZE ==> self.slots[i] == air_voxel()
    }

    /// The palette without voxels.
    pub open spec fn empty() -> PaletteView {
        PaletteView {
            slots: Seq::new(Palette::MAX_SIZE as nat, |i: int| air_voxel()),
            next_free: 1,
        }
    }

    /// Whether every slot was handed out.
    pub open spec fn is_full(self) -> bool {
        self.next_free >= Palette::MAX_SIZE
    }

    /// The palette after `voxel` was registered: it takes the next free
    /// slot.
    pub open spec fn with_voxel(self, voxel: Voxel) -> PaletteView {
        PaletteView { slots: self.slots.update(self.next_free, voxel), next_free: self.next_free + 1 }
    }

    /// Whether `i` is the first slot that holds `voxel`.
    pub open spec fn is_first_match(self, voxel: Voxel, i: int) -> bool {
        &&& 0 <= i < self.slots.len()
        &&& self.slots[i] == voxel
        &&& forall|j: int| 0 <= j < i ==> self.slots[j] != voxel
    }

    /// Whether `found` is what a lookup of `voxel` owes: the first slot
    /// that holds it, or nothing where no slot does.
    pub open spec fn is_lookup(self, voxel: Voxel, found: Option<PaletteId>) -> bool {
        match found {
            Some(id) => self.is_first_match(voxel, id.0 as int),
            None => forall|j: int| 0 <= j < self.slots.len() ==> self.slots[j] != voxel,
        }
    }

    /// The voxels that were registered, in the order of their slots.
    pub open spec fn registered(self) -> Seq<Voxel> {
        self.slots.subrange(1, self.next_free)
    }

    /// The palette in which the voxels of `registered` were registered in
    /// order: they follow slot 0, and air fills the rest.
    pub open spec fn of_registered(registered: Seq<Voxel>) -> PaletteView {
        PaletteView {
            slots: Seq::new(
                Palette::MAX_SIZE as nat,
                |i: int|
                    if 1 <= i <= registered.len() {
                        registered[i - 1]
                    } else {
                        air_voxel()
                    },
            ),
            next_free: registered.len() as int + 1,
        }
    }

    /// A voxel that was just registered is found again: after a
    /// registration in a palette that was not full, a lookup of the same
    /// voxel names a slot, and that slot holds the voxel.
    pub proof fn added_voxel_is_found(self, voxel: Voxel, found: Option<PaletteId>)
        requires
            self.wf(),
            !self.is_full(),
            self.with_voxel(voxel).is_lookup(voxel, found),
        ensures
            self.with_voxel(voxel).wf(),
            found is Some,
            self.with_voxel(voxel).slots[found.unwrap().0 as int] == voxel,
    {
        assert(self.with_voxel(voxel).slots[self.next_free] == voxel);
    }

    /// Id 0 stands for air and for nothing else: slot 0 of every palette
    /// holds air, a lookup of air gives id 0, and a lookup that gives id 0
    /// was one of air.
    pub proof fn id_zero_is_air(self, voxel: Voxel)
        requires
            self.wf(),
        ensures
            self.slots[0] == air_voxel(),
            self.is_lookup(air_voxel(), Some(PaletteId(0))),
            self.is_lookup(voxel, Some(PaletteId(0))) ==> voxel == air_voxel(),
    {
    }

    /// A palette survives being stored: the palette made from the
    /// registered voxels of a palette is that palette.
    pub proof fn stored_palette_is_restored(self)
        requires
            self.wf(),
        ensures
            self.registered().len() < Palette::MAX_SIZE,
            Self::of_registered(self.registered()) == self,
    {
        assert(Self::of_registered(self.registered()).slots =~= self.slots);
    }
}

impl View for Palette {
    type V = PaletteView;

    closed spec fn view(&self) -> PaletteView {
        PaletteView { slots: self.types@, next_free: self.last_free as int }
    }
}

impl Palette {
    /// The number of slots: every value of a `PaletteId` names one.
    pub const MAX_SIZE: usize = 256;

    /// The palette's invariant: it holds of every palette that exists.
    #[verifier::type_invariant]
    pub closed spec fn wf(&self) -> bool {
        &&& self.types@.len() == Self::MAX_SIZE
        &&& 1 <= self.last_free <= Self::MAX_SIZE
        &&& self.types@[0] == air_voxel()
        &&& forall|i: int| self.last_free <= i < Self::MAX_SIZE ==> self.types@[i] == air_voxel()
    }

    /// What `wf` says in terms of the view.
    pub proof fn wf_facts(&self)
        requires
            self.wf(),
        ensures
            self@.wf(),
    {
    }

    /// A palette whose slots all hold air, with slot 0 reserved.
    pub fn new() -> (p: Palette)
        ensures
            p@ == PaletteView::empty(),
    {
        let mut types: Vec<Voxel> = Vec::with_capacity(Self::MAX_SIZE);
        let mut i: usize = 0;
        while i < Self::MAX_SIZE
            invariant
                i <= Self::MAX_SIZE,
                types@.len() == i,
                forall|j: int| 0 <= j < i ==> types@[j] == air_voxel(),
            decreases Self::MAX_SIZE - i,
        {
            types.push(Voxel::air());
            i += 1;
        }
        assert(types@ =~= PaletteView::empty().slots);
        Palette { last_free: 1, types }
    }

    /// The first slot that holds a voxel equal to `voxel`, if any does.
    pub fn palette_id(&self, voxel: &Voxel) -> (found: Option<PaletteId>)
        ensures
            self@.is_lookup(*voxel, found),
    {
        proof {
            use_type_invariant(self);
        }
        let mut i: usize = 0;
        while i < Self::MAX_SIZE
            invariant
                self.wf(),
                i <= Self::MAX_SIZE,
                forall|j: int| 0 <= j < i ==> self.types@[j] != *voxel,
            decreases Self::MAX_SIZE - i,
        {
            if self.types[i] == *voxel {
                return Some(PaletteId::new(i as u8));
            }
            i += 1;
        }
        None
    }

    /// Registers `voxel` in the first air slot at or after the next free
    /// one, which is the next free one itself. A full palette is left as it
    /// was and reported.
    pub fn add_voxel(&mut self, voxel: Voxel) -> (added: Result<(), Error>)
        ensures
            match added {
                Ok(()) => !old(self)@.is_full() && final(self)@ == old(self)@.with_voxel(voxel),
                Err(e) => e == Error::PaletteFull && old(self)@.is_full() && final(self)@ == old(
                    self,
                )@,
            },
        no_unwind
    {
        proof {
            use_type_invariant(&*self);
        }
        let mut i: usize = self.last_free;
        while i < Self::MAX_SIZE
            invariant
                self.wf(),
                *self == *old(self),
                i == self.last_free,
            decreases Self::MAX_SIZE - i,
        {
            if self.types[i] == Voxel::air() {
                self.last_free += 1;
                self.types[i] = voxel;
                return Ok(());
            }
            i += 1;
        }
        Err(Error::PaletteFull)
    }

    /// The voxels that were registered, in the order of their slots. This
    /// is what a store of palettes has to keep.
    pub fn registered(&self) -> (voxels: Vec<Voxel>)
        ensures
            voxels@ == self@.registered(),
    {
        proof {
            use_type_invariant(self);
        }
        let mut voxels: Vec<Voxel> = Vec::with_capacity(self.last_free - 1);
        let mut i: usize = 1;
        while i < self.last_free
            invariant
                self.wf(),
                1 <= i <= self.last_free,
                voxels@ =~= self.types@.subrange(1, i as int),
            decreases self.last_free - i,
        {
            voxels.push(self.types[i]);
            i += 1;
        }
        voxels
    }

    /// The palette in which the voxels of `registered` were registered in
    /// order. More voxels than a palette has free slots are refused.
    pub fn from_registered(registered: &Vec<Voxel>) -> (restored: Result<Palette, Error>)
        ensures
            match restored {
                Ok(palette) => {
                    &&& registered@.len() < Self::MAX_SIZE
                    &&& palette@ == PaletteView::of_registered(registered@)
                },
                Err(e) => e == Error::PaletteFull && registered@.len() >= Self::MAX_SIZE,
            },
    {
        if registered.len() >= Self::MAX_SIZE {
            return Err(Error::PaletteFull);
        }
        let ghost slots = PaletteView::of_registered(registered@).slots;
        let mut types: Vec<Voxel> = Vec::with_capacity(Self::MAX_SIZE);
        types.push(Voxel::air());
        let mut i: usize = 1;
        while i < Self::MAX_SIZE
            invariant
                1 <= i <= Self::MAX_SIZE,
                registered@.len() < Self::MAX_SIZE,
                slots == PaletteView::of_registered(registered@).slots,
                types@.len() == i,
                forall|j: int| 0 <= j < i ==> types@[j] == slots[j],
            decreases Self::MAX_SIZE - i,
        {
            if i <= registered.len() {
                types.push(registered[i - 1]);
            } else {
                types.push(Voxel::air());
            }
            i += 1;
        }
        assert(types@ =~= slots);
        Ok(Palette { last_free: registered.len() + 1, types })
    }
}

impl std::ops::Index<PaletteId> for Palette {
    type Output = Voxel;

    /// The voxel that `i` stands for.
    fn index(&self, i: PaletteId) -> (v: &Voxel)
        ensures
            *v == self@.slots[i.0 as int],
    {
        proof {
            use_type_invariant(self);
        }
        &self.types[i.value() as usize]
    }
}

impl vstd::std_specs::core::IndexSpecImpl<PaletteId> for Palette {
    /// Every id names a slot.
    open spec fn index_req(&self, index: &PaletteId) -> bool {
        true
    }
}

impl Clone for Palette {
    fn clone(&self) -> (copy: Palette)
        ensures
            copy@ == self@,
    {
        proof {
            use_type_invariant(self);
        }
        let mut types: Vec<Voxel> = Vec::with_capacity(self.types.len());
        let mut i: usize = 0;
        while i < self.types.len()
            invariant
                i <= self.types@.len(),
                types@ =~= self.types@.take(i as int),
            decreases self.types@.len() - i,
        {
            types.push(self.types[i]);
            i += 1;
        }
        assert(types@ =~= self.types@);
        Palette { last_free: self.last_free, types }
    }
}

/// A fixed-size block of cells. Each cell holds the id of its voxel in the
/// chunk's own palette; ids mean nothing relative to another palette.
#[derive(Debug)]
pub struct Chunk {
    coord: (i32, i32, i32),
    palette: Palette,
    voxels: Vec<PaletteId>,
}

/// A chunk as a mathematical value.
pub struct ChunkView {
    /// The chunk's position, counted in chunks along each axis.
    pub coord: (i32, i32, i32),
    /// The chunk's palette.
    pub palette: PaletteView,
    /// The ids of all cells, in storage order.
    pub cells: Seq<PaletteId>,
}

impl ChunkView {
    /// What holds of the view of every chunk.
    pub open spec fn wf(self) -> bool {
        &&& self.cells.len() == Chunk::VOLUME
        &&& self.palette.wf()
    }

    /// The id at `(x, y, z)`; outside the chunk, the id of air.
    pub open spec fn id_at(self, x: int, y: int, z: int) -> PaletteId {
        if Chunk::in_bounds(x, y, z) {
            self.cells[Chunk::cell_index(x, y, z)]
        } else {
            PaletteId(0)
        }
    }

    /// The voxel at `(x, y, z)`; outside the chunk, what slot 0 holds.
    pub open spec fn voxel_at(self, x: int, y: int, z: int) -> Voxel {
        self.palette.slots[self.id_at(x, y, z).0 as int]
    }

    /// Whether `(x, y, z)` is a cell of the chunk that holds air. What lies
    /// outside the chunk is unknown and counts as opaque.
    pub open spec fn air_at(self, x: int, y: int, z: int) -> bool {
        Chunk::in_bounds(x, y, z) && self.cells[Chunk::cell_index(x, y, z)] == PaletteId(0)
    }

    /// The chunk after `id` was written to `(x, y, z)`: a position outside
    /// the chunk changes nothing.
    pub open spec fn with_cell(self, x: int, y: int, z: int, id: PaletteId) -> ChunkView {
        if Chunk::in_bounds(x, y, z) {
            ChunkView { cells: self.cells.update(Chunk::cell_index(x, y, z), id), ..self }
        } else {
            self
        }
    }

    /// A voxel that was written is read back: after a write to a cell of
    /// the chunk, that cell holds the written id and reads as the voxel the
    /// id stands for.
    pub proof fn written_voxel_is_read(self, x: int, y: int, z: int, id: PaletteId)
        requires
            self.wf(),
            Chunk::in_bounds(x, y, z),
        ensures
            self.with_cell(x, y, z, id).wf(),
            self.with_cell(x, y, z, id).id_at(x, y, z) == id,
            self.with_cell(x, y, z, id).voxel_at(x, y, z) == self.palette.slots[id.0 as int],
            self.with_cell(x, y, z, id).air_at(x, y, z) == (id == PaletteId(0)),
    {
        Chunk::cell_index_is_bijective(x, y, z);
    }

    /// A chunk survives being stored: the chunk made from the position, the
    /// registered voxels and the cell ids of a chunk is that chunk.
    pub proof fn stored_chunk_is_restored(self)
        requires
            self.wf(),
        ensures
            self.palette.registered().len() < Palette::MAX_SIZE,
            (ChunkView {
                coord: self.coord,
                palette: PaletteView::of_registered(self.palette.registered()),
                cells: self.cells,
            }) == self,
    {
        self.palette.stored_palette_is_restored();
    }

    /// A restored chunk reads as the stored one: a chunk with the palette
    /// and the cell ids of this one reads as the same voxel at every
    /// position, inside the chunk or not.
    pub proof fn restored_chunk_reads_the_same(self, restored: ChunkView, x: int, y: int, z: int)
        requires
            restored.palette == self.palette,
            restored.cells == self.cells,
        ensures
            restored.voxel_at(x, y, z) == self.voxel_at(x, y, z),
            restored.id_at(x, y, z) == self.id_at(x, y, z),
            restored.air_at(x, y, z) == self.air_at(x, y, z),
    {
    }

    /// A write touches one cell at most: a write outside the chunk leaves
    /// the chunk as it was, and a write inside it leaves every other
    /// position as it was.
    pub proof fn write_leaves_the_rest(
        self,
        x: int,
        y: int,
        z: int,
        id: PaletteId,
        ox: int,
        oy: int,
        oz: int,
    )
        requires
            self.wf(),
            !Chunk::in_bounds(x, y, z) || ox != x || oy != y || oz != z,
        ensures
            !Chunk::in_bounds(x, y, z) ==> self.with_cell(x, y, z, id) == self,
            self.with_cell(x, y, z, id).id_at(ox, oy, oz) == self.id_at(ox, oy, oz),
            self.with_cell(x, y, z, id).voxel_at(ox, oy, oz) == self.voxel_at(ox, oy, oz),
            self.with_cell(x, y, z, id).air_at(ox, oy, oz) == self.air_at(ox, oy, oz),
    {
        if Chunk::in_bounds(x, y, z) && Chunk::in_bounds(ox, oy, oz) {
            Chunk::cell_index_is_bijective(x, y, z);
            Chunk::cell_index_is_bijective(ox, oy, oz);
        }
    }
}

impl View for Chunk {
    type V = ChunkView;

    closed spec fn view(&self) -> ChunkView {
        ChunkView { coord: self.coord, palette: self.palette@, cells: self.voxels@ }
    }
}

impl Chunk {
    /// The cells along `z`.
    pub const DEPTH: usize = 32;
    /// The cells along `y`.
    pub const HEIGHT: usize = 64;
    /// The cells along `x`.
    pub const WIDTH: usize = 32;
    /// The number of cells.
    pub const VOLUME: usize = Self::WIDTH * Self::HEIGHT * Self::DEPTH;

    /// Whether `(x, y, z)` names a cell of a chunk.
    pub open spec fn in_bounds(x: int, y: int, z: int) -> bool {
        in_grid(Self::WIDTH as int, Self::HEIGHT as int, Self::DEPTH as int, x, y, z)
    }

    /// Where the cell `(x, y, z)` is stored: layers of `y`, rows of `z`.
    pub open spec fn cell_index(x: int, y: int, z: int) -> int {
        index_of_cell(Self::WIDTH as int, Self::DEPTH as int, x, y, z)
    }

    /// The coordinates of the cell stored at index `i`.
    pub open spec fn cell_at(i: int) -> (int, int, int) {
        cell_of_index(Self::WIDTH as int, Self::DEPTH as int, i)
    }

    /// The chunk's invariant: it holds of every chunk that exists.
    #[verifier::type_invariant]
    pub closed spec fn wf(&self) -> bool {
        self.voxels@.len() == Self::VOLUME && self.palette.wf()
    }

    /// What `wf` says in terms of the view.
    pub proof fn wf_facts(&self)
        requires
            self.wf(),
        ensures
            self@.wf(),
    {
        self.palette.wf_facts();
    }

    /// The cells of a chunk are stored without gaps or overlaps: the index
    /// of a cell is below the volume and gives its coordinates back.
    pub proof fn cell_index_is_bijective(x: int, y: int, z: int)
        requires
            Self::in_bounds(x, y, z),
        ensures
            0 <= Self::cell_index(x, y, z) < Self::VOLUME,
            Self::cell_at(Self::cell_index(x, y, z)) == (x, y, z),
    {
        index_gives_the_cell_back(
            Self::WIDTH as int,
            Self::HEIGHT as int,
            Self::DEPTH as int,
            x,
            y,
            z,
        );
    }

    /// Every index below the volume is the index of a cell of the chunk.
    pub proof fn cell_at_is_in_bounds(i: int)
        requires
            0 <= i < Self::VOLUME,
        ensures
            Self::in_bounds(Self::cell_at(i).0, Self::cell_at(i).1, Self::cell_at(i).2),
            Self::cell_index(Self::cell_at(i).0, Self::cell_at(i).1, Self::cell_at(i).2) == i,
    {
        cell_gives_the_index_back(Self::WIDTH as int, Self::HEIGHT as int, Self::DEPTH as int, i);
    }

    /// Rows and layers follow each other in storage: the first cell has
    /// index 0, the end of a row is the start of the next, the end of a
    /// layer is the start of the next, and the end of the last layer is the
    /// volume.
    pub proof fn rows_and_layers_follow(y: int, z: int)
        ensures
            Self::cell_index(0, 0, 0) == 0,
            Self::cell_index(Self::WIDTH as int, y, z) == Self::cell_index(0, y, z + 1),
            Self::cell_index(0, y, Self::DEPTH as int) == Self::cell_index(0, y + 1, 0),
            Self::cell_index(0, Self::HEIGHT as int, 0) == Self::VOLUME,
    {
        rows_and_layers_follow(Self::WIDTH as int, Self::HEIGHT as int, Self::DEPTH as int, y, z);
    }

    /// The place of the cell `(x, y, z)` in storage.
    pub(crate) fn index_of(x: usize, y: usize, z: usize) -> (idx: usize)
        requires
            Self::in_bounds(x as int, y as int, z as int),
        ensures
            idx == Self::cell_index(x as int, y as int, z as int),
            idx < Self::VOLUME,
    {
        proof {
            Self::cell_index_is_bijective(x as int, y as int, z as int);
            assert(y * Self::WIDTH * Self::DEPTH == y * (Self::WIDTH * Self::DEPTH) && 0 <= y
                * Self::WIDTH <= y * Self::WIDTH * Self::DEPTH && 0 <= z * Self::WIDTH)
                by (nonlinear_arith)
                requires
                    0 < Self::WIDTH,
                    0 < Self::DEPTH,
            ;
        }
        (y * Self::WIDTH * Self::DEPTH) + (z * Self::WIDTH) + x
    }

    /// A chunk at `coord` whose cells all hold air.
    pub fn new(coord: (i32, i32, i32), palette: Palette) -> (c: Chunk)
        ensures
            c@.wf(),
            c@.coord == coord,
            c@.palette == palette@,
            c@.cells =~= Seq::new(Self::VOLUME as nat, |i: int| PaletteId(0)),
            forall|x: int, y: int, z: int|
                Self::in_bounds(x, y, z) ==> #[trigger] c@.air_at(x, y, z),
    {
        proof {
            use_type_invariant(&palette);
            palette.wf_facts();
        }
        let mut voxels: Vec<PaletteId> = Vec::with_capacity(Self::VOLUME);
        let mut i: usize = 0;
        while i < Self::VOLUME
            invariant
                i <= Self::VOLUME,
                voxels@.len() == i,
                forall|j: int| 0 <= j < i ==> voxels@[j] == PaletteId(0),
            decreases Self::VOLUME - i,
        {
            voxels.push(PaletteId::new(0));
            i += 1;
        }
        let c = Chunk { coord, palette, voxels };
        assert forall|x: int, y: int, z: int| Self::in_bounds(x, y, z) implies #[trigger] c@.air_at(
            x,
            y,
            z,
        ) by {
            Self::cell_index_is_bijective(x, y, z);
        }
        c
    }

    /// The chunk with the given ids in its cells, in storage order: what a
    /// stored chunk is restored with. Cells of another number than a chunk
    /// has are refused.
    pub fn from_cells(coord: (i32, i32, i32), palette: Palette, cells: Vec<PaletteId>) -> (restored:
        Option<Chunk>)
        ensures
            match restored {
                Some(chunk) => {
                    &&& cells@.len() == Self::VOLUME
                    &&& chunk@ == (ChunkView { coord, palette: palette@, cells: cells@ })
                    &&& chunk@.wf()
                },
                None => cells@.len() != Self::VOLUME,
            },
    {
        proof {
            use_type_invariant(&palette);
            palette.wf_facts();
        }
        if cells.len() != Self::VOLUME {
            return None;
        }
        Some(Chunk { coord, palette, voxels: cells })
    }

    /// The ids of all cells, in storage order: what a store of chunks has
    /// to keep, beside the position and the palette.
    pub fn cells(&self) -> (cells: &[PaletteId])
        ensures
            cells@ == self@.cells,
    {
        self.voxels.as_slice()
    }

    /// The chunk's position, counted in chunks along each axis.
    pub fn coord(&self) -> (c: (i32, i32, i32))
        ensures
            c == self@.coord,
    {
        self.coord
    }

    /// The chunk's palette.
    pub fn palette(&self) -> (p: &Palette)
        ensures
            p@ == self@.palette,
    {
        &self.palette
    }

    /// The id of `voxel` in this chunk's palette.
    pub fn palette_id(&self, voxel: &Voxel) -> (found: Option<PaletteId>)
        ensures
            self@.palette.is_lookup(*voxel, found),
    {
        self.palette.palette_id(voxel)
    }

    /// Registers `voxel` in this chunk's palette, which no other chunk
    /// shares. The cells stay as they are. A full palette is left as it was
    /// and reported.
    pub fn add_voxel(&mut self, voxel: Voxel) -> (added: Result<(), Error>)
        ensures
            final(self)@.wf(),
            final(self)@.coord == old(self)@.coord,
            final(self)@.cells == old(self)@.cells,
            match added {
                Ok(()) => {
                    &&& !old(self)@.palette.is_full()
                    &&& final(self)@.palette == old(self)@.palette.with_voxel(voxel)
                },
                Err(e) => {
                    &&& e == Error::PaletteFull
                    &&& old(self)@.palette.is_full()
                    &&& final(self)@.palette == old(self)@.palette
                },
            },
    {
        proof {
            use_type_invariant(&*self);
        }
        let added = self.palette.add_voxel(voxel);
        proof {
            use_type_invariant(&self.palette);
            self.palette.wf_facts();
        }
        added
    }

    /// Writes `id` to the cell `(x, y, z)`. A position outside the chunk is
    /// ignored.
    #[inline(always)]
    pub fn set_voxel(&mut self, x: usize, y: usize, z: usize, id: PaletteId)
        ensures
            final(self)@ == old(self)@.with_cell(x as int, y as int, z as int, id),
            final(self)@.wf(),
    {
        proof {
            use_type_invariant(&*self);
            self.wf_facts();
        }
        if x >= Self::WIDTH || y >= Self::HEIGHT || z >= Self::DEPTH {
            return ;
        }
        let idx = Self::index_of(x, y, z);
        self.voxels[idx] = id;
    }

    /// The voxel at `(x, y, z)`. Outside the chunk it is what slot 0 of the
    /// palette holds, which is air.
    #[inline(always)]
    pub fn get_voxel(&self, x: usize, y: usize, z: usize) -> (v: &Voxel)
        ensures
            *v == self@.voxel_at(x as int, y as int, z as int),
            !Self::in_bounds(x as int, y as int, z as int) ==> *v == air_voxel(),
    {
        proof {
            use_type_invariant(self);
            self.wf_facts();
        }
        if x >= Self::WIDTH || y >= Self::HEIGHT || z >= Self::DEPTH {
            return &self.palette[PaletteId::new(0)];
        }
        let idx = Self::index_of(x, y, z);
        let id = self.voxels[idx];
        &self.palette[id]
    }

    /// Whether the cell `(x, y, z)` holds air. A position outside the chunk
    /// is not air.
    #[inline(always)]
    pub fn is_air(&self, x: usize, y: usize, z: usize) -> (air: bool)
        ensures
            air == self@.air_at(x as int, y as int, z as int),
    {
        proof {
            use_type_invariant(self);
        }
        if x >= Self::WIDTH || y >= Self::HEIGHT || z >= Self::DEPTH {
            return false;
        }
        let idx = Self::index_of(x, y, z);
        self.voxels[idx] == PaletteId::new(0)
    }
}

} // verus!
