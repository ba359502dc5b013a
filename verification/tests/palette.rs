use voxel::error::Error;
use voxel::world::chunk::{Palette, PaletteId};
use voxel::world::voxel::{TextureId, Voxel, VoxelMesh, VoxelTexture};

fn stone(index: u16) -> Voxel {
    Voxel::new_full(VoxelTexture::Single { faces: TextureId::new(16, index) })
}

#[test]
fn air_voxel_has_no_shape_and_no_texture() {
    let air = Voxel::air();
    assert!(air.is_air);
    assert!(!air.collide);
    assert_eq!(air.mesh, VoxelMesh::Nil);
    assert_eq!(air.texture, VoxelTexture::Blank);
}

#[test]
fn full_voxel_is_solid_and_collides() {
    let v = stone(3);
    assert!(!v.is_air);
    assert!(v.collide);
    assert_eq!(v.mesh, VoxelMesh::Full);
    assert_eq!(v.texture, VoxelTexture::Single { faces: TextureId { size: 16, index: 3 } });
}

#[test]
fn new_palette_is_all_air() {
    let p = Palette::new();
    for i in 0..=255u8 {
        assert_eq!(p[PaletteId::new(i)], Voxel::air());
    }
    assert_eq!(p.palette_id(&Voxel::air()), Some(PaletteId::new(0)));
    assert_eq!(p.palette_id(&stone(0)), None);
}

#[test]
fn added_voxel_is_found_at_next_slot() {
    let mut p = Palette::new();
    assert_eq!(p.add_voxel(stone(0)), Ok(()));
    assert_eq!(p.add_voxel(stone(1)), Ok(()));
    assert_eq!(p.palette_id(&stone(0)), Some(PaletteId::new(1)));
    assert_eq!(p.palette_id(&stone(1)), Some(PaletteId::new(2)));
    assert_eq!(p[PaletteId::new(1)], stone(0));
    assert_eq!(p[PaletteId::new(2)], stone(1));
    assert_eq!(p[PaletteId::new(0)], Voxel::air());
}

#[test]
fn duplicate_voxel_is_found_at_its_first_slot() {
    let mut p = Palette::new();
    assert_eq!(p.add_voxel(stone(7)), Ok(()));
    assert_eq!(p.add_voxel(stone(8)), Ok(()));
    assert_eq!(p.add_voxel(stone(7)), Ok(()));
    assert_eq!(p.palette_id(&stone(7)), Some(PaletteId::new(1)));
    assert_eq!(p[PaletteId::new(3)], stone(7));
}

#[test]
fn palette_holds_255_voxels_and_then_is_full() {
    let mut p = Palette::new();
    for i in 0..255u16 {
        assert_eq!(p.add_voxel(stone(i)), Ok(()));
    }
    assert_eq!(p.palette_id(&stone(254)), Some(PaletteId::new(255)));
    assert_eq!(p.add_voxel(stone(1000)), Err(Error::PaletteFull));
    assert_eq!(p.palette_id(&stone(1000)), None);
    assert_eq!(p.palette_id(&stone(254)), Some(PaletteId::new(255)));
    assert_eq!(p[PaletteId::new(0)], Voxel::air());
}

#[test]
fn cloned_palette_is_independent() {
    let mut p = Palette::new();
    assert_eq!(p.add_voxel(stone(1)), Ok(()));
    let mut q = p.clone();
    assert_eq!(q.palette_id(&stone(1)), Some(PaletteId::new(1)));
    assert_eq!(q.add_voxel(stone(2)), Ok(()));
    assert_eq!(q.palette_id(&stone(2)), Some(PaletteId::new(2)));
    assert_eq!(p.palette_id(&stone(2)), None);
}

#[test]
fn palette_id_round_trips_its_value() {
    assert_eq!(PaletteId::new(42).value(), 42);
    assert_eq!(PaletteId::new(0), PaletteId::new(0));
    assert!(PaletteId::new(1) < PaletteId::new(2));
}

#[test]
fn error_messages_name_the_failure() {
    assert_eq!(Error::PaletteFull.message(), "palette is full");
    assert_eq!(Error::UnsupportedTextureMapping.message(), "unsupported texture mapping");
}
