use voxel::error::Error;
use voxel::world::chunk::{Chunk, Palette, PaletteId};
use voxel::world::voxel::{TextureId, Voxel, VoxelTexture};

fn stone(index: u16) -> Voxel {
    Voxel::new_full(VoxelTexture::Single { faces: TextureId::new(16, index) })
}

fn palette_with(voxels: &[Voxel]) -> Palette {
    let mut p = Palette::new();
    for v in voxels {
        assert_eq!(p.add_voxel(*v), Ok(()));
    }
    p
}

#[test]
fn chunk_dimensions_multiply_to_volume() {
    assert_eq!(Chunk::WIDTH, 32);
    assert_eq!(Chunk::HEIGHT, 64);
    assert_eq!(Chunk::DEPTH, 32);
    assert_eq!(Chunk::WIDTH * Chunk::HEIGHT * Chunk::DEPTH, Chunk::VOLUME);
    assert_eq!(Palette::MAX_SIZE, 256);
}

#[test]
fn fresh_chunk_is_air_everywhere() {
    let c = Chunk::new((1, -2, 3), palette_with(&[stone(0)]));
    assert_eq!(c.coord(), (1, -2, 3));
    for y in 0..Chunk::HEIGHT {
        for z in 0..Chunk::DEPTH {
            for x in 0..Chunk::WIDTH {
                assert!(c.is_air(x, y, z));
                assert_eq!(*c.get_voxel(x, y, z), Voxel::air());
            }
        }
    }
    assert_eq!(c.cells().len(), Chunk::VOLUME);
}

#[test]
fn set_then_get_returns_the_written_voxel() {
    let mut c = Chunk::new((0, 0, 0), palette_with(&[stone(0), stone(1)]));
    c.set_voxel(3, 4, 5, PaletteId::new(2));
    assert_eq!(*c.get_voxel(3, 4, 5), stone(1));
    assert!(!c.is_air(3, 4, 5));
    c.set_voxel(3, 4, 5, PaletteId::new(1));
    assert_eq!(*c.get_voxel(3, 4, 5), stone(0));
    c.set_voxel(3, 4, 5, PaletteId::new(0));
    assert_eq!(*c.get_voxel(3, 4, 5), Voxel::air());
    assert!(c.is_air(3, 4, 5));
}

#[test]
fn write_touches_only_its_cell() {
    let mut c = Chunk::new((0, 0, 0), palette_with(&[stone(0)]));
    c.set_voxel(31, 63, 31, PaletteId::new(1));
    c.set_voxel(0, 0, 0, PaletteId::new(1));
    let mut solid = 0;
    for y in 0..Chunk::HEIGHT {
        for z in 0..Chunk::DEPTH {
            for x in 0..Chunk::WIDTH {
                if !c.is_air(x, y, z) {
                    solid += 1;
                }
            }
        }
    }
    assert_eq!(solid, 2);
    assert!(!c.is_air(31, 63, 31));
    assert!(!c.is_air(0, 0, 0));
}

#[test]
fn cells_are_stored_by_layer_then_row() {
    let mut c = Chunk::new((0, 0, 0), palette_with(&[stone(0)]));
    c.set_voxel(3, 2, 1, PaletteId::new(1));
    let idx = 2 * Chunk::WIDTH * Chunk::DEPTH + 1 * Chunk::WIDTH + 3;
    assert_eq!(idx, 2083);
    for (i, id) in c.cells().iter().enumerate() {
        assert_eq!(*id, PaletteId::new(if i == idx { 1 } else { 0 }));
    }
}

#[test]
fn out_of_range_writes_are_ignored() {
    let mut c = Chunk::new((0, 0, 0), palette_with(&[stone(0)]));
    c.set_voxel(32, 0, 0, PaletteId::new(1));
    c.set_voxel(0, 64, 0, PaletteId::new(1));
    c.set_voxel(0, 0, 32, PaletteId::new(1));
    c.set_voxel(usize::MAX, usize::MAX, usize::MAX, PaletteId::new(1));
    for id in c.cells() {
        assert_eq!(*id, PaletteId::new(0));
    }
}

#[test]
fn out_of_range_reads_are_air_but_not_is_air() {
    let mut c = Chunk::new((0, 0, 0), palette_with(&[stone(0)]));
    c.set_voxel(0, 0, 31, PaletteId::new(1));
    assert_eq!(*c.get_voxel(32, 0, 0), Voxel::air());
    assert_eq!(*c.get_voxel(0, 64, 0), Voxel::air());
    assert_eq!(*c.get_voxel(0, 0, 32), Voxel::air());
    assert!(!c.is_air(32, 0, 0));
    assert!(!c.is_air(0, 64, 0));
    assert!(!c.is_air(0, 0, 32));
    assert!(!c.is_air(usize::MAX, 0, 0));
}

#[test]
fn chunk_looks_voxels_up_in_its_palette() {
    let c = Chunk::new((0, 0, 0), palette_with(&[stone(4), stone(5)]));
    assert_eq!(c.palette_id(&stone(5)), Some(PaletteId::new(2)));
    assert_eq!(c.palette_id(&stone(6)), None);
    assert_eq!(c.palette_id(&Voxel::air()), Some(PaletteId::new(0)));
    assert_eq!(c.palette()[PaletteId::new(1)], stone(4));
}

#[test]
fn stored_chunk_is_restored_identically() {
    let x = stone(9);
    let mut c = Chunk::new((7, 8, -9), palette_with(&[x]));
    c.set_voxel(1, 2, 3, PaletteId::new(1));
    c.set_voxel(31, 63, 31, PaletteId::new(1));

    let coord = c.coord();
    let registered = c.palette().registered();
    let cells: Vec<u8> = c.cells().iter().map(|id| id.value()).collect();
    assert_eq!(registered, vec![x]);

    let palette = Palette::from_registered(&registered).unwrap();
    assert_eq!(palette.palette_id(&x), Some(PaletteId::new(1)));
    let ids: Vec<PaletteId> = cells.iter().map(|v| PaletteId::new(*v)).collect();
    let r = Chunk::from_cells(coord, palette, ids).unwrap();

    assert_eq!(r.coord(), (7, 8, -9));
    for y in 0..Chunk::HEIGHT + 1 {
        for z in 0..Chunk::DEPTH + 1 {
            for x in 0..Chunk::WIDTH + 1 {
                assert_eq!(r.get_voxel(x, y, z), c.get_voxel(x, y, z));
                assert_eq!(r.is_air(x, y, z), c.is_air(x, y, z));
            }
        }
    }
    assert_eq!(*r.get_voxel(1, 2, 3), stone(9));
}

#[test]
fn restoring_refuses_wrong_sizes() {
    assert!(Chunk::from_cells((0, 0, 0), Palette::new(), vec![PaletteId::new(0); 10]).is_none());
    assert!(Chunk::from_cells((0, 0, 0), Palette::new(), vec![PaletteId::new(0); Chunk::VOLUME + 1])
        .is_none());
    assert!(Chunk::from_cells((0, 0, 0), Palette::new(), vec![PaletteId::new(0); Chunk::VOLUME])
        .is_some());
    let many = vec![stone(1); 256];
    assert!(Palette::from_registered(&many).is_err());
    let most = vec![stone(1); 255];
    let p = Palette::from_registered(&most).unwrap();
    assert_eq!(p[PaletteId::new(255)], stone(1));
    assert_eq!(p[PaletteId::new(0)], Voxel::air());
}

#[test]
fn restored_palette_goes_on_where_it_was() {
    let p = palette_with(&[stone(1), stone(2)]);
    let mut q = Palette::from_registered(&p.registered()).unwrap();
    assert_eq!(q.add_voxel(stone(3)), Ok(()));
    assert_eq!(q.palette_id(&stone(3)), Some(PaletteId::new(3)));
    assert_eq!(q.registered(), vec![stone(1), stone(2), stone(3)]);
}

#[test]
fn chunk_palette_grows_on_its_own() {
    let shared = palette_with(&[stone(0)]);
    let mut a = Chunk::new((0, 0, 0), shared.clone());
    let b = Chunk::new((1, 0, 0), shared);
    a.set_voxel(1, 1, 1, PaletteId::new(1));
    assert_eq!(a.add_voxel(stone(5)), Ok(()));
    assert_eq!(a.palette_id(&stone(5)), Some(PaletteId::new(2)));
    assert_eq!(b.palette_id(&stone(5)), None);
    a.set_voxel(2, 2, 2, PaletteId::new(2));
    assert_eq!(*a.get_voxel(2, 2, 2), stone(5));
    assert_eq!(*a.get_voxel(1, 1, 1), stone(0));
    assert_eq!(a.coord(), (0, 0, 0));
    assert_eq!(a.cells().iter().filter(|id| **id != PaletteId::new(0)).count(), 2);
}

#[test]
fn chunk_palette_reports_when_full() {
    let mut c = Chunk::new((0, 0, 0), Palette::new());
    for i in 0..255u16 {
        assert_eq!(c.add_voxel(stone(i)), Ok(()));
    }
    c.set_voxel(0, 0, 0, PaletteId::new(255));
    assert_eq!(c.add_voxel(stone(999)), Err(Error::PaletteFull));
    assert_eq!(c.palette_id(&stone(999)), None);
    assert_eq!(c.palette().registered().len(), 255);
    assert_eq!(*c.get_voxel(0, 0, 0), stone(254));
}
