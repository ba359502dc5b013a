use noise::{NoiseFn, OpenSimplex};
use voxel::scene::world::mesh_builder;
use voxel::world::chunk::{Chunk, Palette, PaletteId};
use voxel::world::voxel::{TextureId, Voxel, VoxelTexture};
use voxel::world::world::{
    generate_chunk, world_position, Terrain, DENSITY_PERIOD, DENSITY_THRESHOLD_PERMILLE,
    HEIGHT_BROAD_PERIOD, HEIGHT_BROAD_SCALE, HEIGHT_FINE_PERIOD, HEIGHT_FINE_SCALE, HEIGHT_OFFSET,
    SOLID_ID,
};

fn stone() -> Voxel {
    Voxel::new_full(VoxelTexture::Single { faces: TextureId::new(16, 0) })
}

fn palette() -> Palette {
    let mut p = Palette::new();
    assert_eq!(p.add_voxel(stone()), Ok(()));
    p
}

#[test]
fn terrain_parameters() {
    assert_eq!(DENSITY_PERIOD, 16);
    assert_eq!(DENSITY_THRESHOLD_PERMILLE as f64 / 1000.0, 0.2);
    assert_eq!(HEIGHT_BROAD_PERIOD, 512);
    assert_eq!(HEIGHT_BROAD_SCALE, 24);
    assert_eq!(HEIGHT_FINE_PERIOD, 64);
    assert_eq!(HEIGHT_FINE_SCALE, 30);
    assert_eq!(HEIGHT_OFFSET, 24);
    assert_eq!(SOLID_ID, 1);
}

#[test]
fn density_field_places_solid_where_it_exceeds() {
    let mut exceeds = vec![false; Chunk::VOLUME];
    let at = |x: usize, y: usize, z: usize| y * 1024 + z * 32 + x;
    exceeds[at(0, 0, 0)] = true;
    exceeds[at(31, 63, 31)] = true;
    exceeds[at(5, 6, 7)] = true;
    let c = generate_chunk(2, -3, 4, palette(), &Terrain::Density(exceeds.clone()));
    assert_eq!(c.coord(), (2, -3, 4));
    for y in 0..Chunk::HEIGHT {
        for z in 0..Chunk::DEPTH {
            for x in 0..Chunk::WIDTH {
                let solid = exceeds[at(x, y, z)];
                assert_eq!(c.is_air(x, y, z), !solid);
                assert_eq!(*c.get_voxel(x, y, z), if solid { stone() } else { Voxel::air() });
            }
        }
    }
    assert_eq!(c.cells()[at(5, 6, 7)], PaletteId::new(1));
}

#[test]
fn heightmap_fills_columns_from_the_floor() {
    let mut heights = vec![0i64; Chunk::WIDTH * Chunk::DEPTH];
    heights[0] = 3;
    heights[1] = -5;
    heights[2 * 32 + 4] = 64;
    heights[2 * 32 + 5] = 1000;
    heights[31 * 32 + 31] = 1;
    let c = generate_chunk(0, 0, 0, palette(), &Terrain::Heightmap(heights.clone()));
    for y in 0..Chunk::HEIGHT {
        for z in 0..Chunk::DEPTH {
            for x in 0..Chunk::WIDTH {
                let solid = (y as i64) < heights[z * 32 + x];
                assert_eq!(c.is_air(x, y, z), !solid);
            }
        }
    }
    assert!(!c.is_air(0, 2, 0));
    assert!(c.is_air(0, 3, 0));
    assert!(c.is_air(1, 0, 0));
    assert!(!c.is_air(4, 63, 2));
    assert!(!c.is_air(5, 63, 2));
    assert!(!c.is_air(31, 0, 31));
    assert!(c.is_air(31, 1, 31));
}

#[test]
fn missing_samples_leave_air() {
    let c = generate_chunk(0, 0, 0, palette(), &Terrain::Density(vec![true; 40]));
    assert!(!c.is_air(0, 0, 0));
    assert!(!c.is_air(7, 0, 1));
    assert!(c.is_air(8, 0, 1));
    assert!(c.is_air(0, 1, 0));
    let c = generate_chunk(0, 0, 0, palette(), &Terrain::Heightmap(vec![2; 33]));
    assert!(!c.is_air(0, 1, 1));
    assert!(c.is_air(1, 0, 1));
    let c = generate_chunk(0, 0, 0, palette(), &Terrain::Heightmap(Vec::new()));
    assert!(c.cells().iter().all(|id| *id == PaletteId::new(0)));
}

#[test]
fn generation_is_repeatable() {
    let mut exceeds = vec![false; Chunk::VOLUME];
    for (i, e) in exceeds.iter_mut().enumerate() {
        *e = (i * 7919) % 5 < 2;
    }
    let samples = Terrain::Density(exceeds);
    let a = generate_chunk(1, 2, 3, palette(), &samples);
    let b = generate_chunk(1, 2, 3, palette(), &samples);
    assert_eq!(a.cells(), b.cells());
    assert_eq!(a.coord(), b.coord());
    assert_eq!(a.palette().registered(), b.palette().registered());
}

#[test]
fn world_position_scales_by_chunk_extent() {
    assert_eq!(world_position((0, 0, 0), 0, 0, 0), (0, 0, 0));
    assert_eq!(world_position((-1, 2, 3), 5, 6, 7), (-27, 134, 103));
    assert_eq!(
        world_position((i32::MAX, i32::MIN, -1), 31, 63, 31),
        (2147483647i64 * 32 + 31, -2147483648i64 * 64 + 63, -1)
    );
}

fn sampled_density(cx: i32, cy: i32, cz: i32) -> Terrain {
    let simplex = OpenSimplex::new();
    let threshold = DENSITY_THRESHOLD_PERMILLE as f64 / 1000.0;
    let period = DENSITY_PERIOD as f64;
    let mut exceeds = Vec::with_capacity(Chunk::VOLUME);
    for y in 0..Chunk::HEIGHT {
        for z in 0..Chunk::DEPTH {
            for x in 0..Chunk::WIDTH {
                let (wx, wy, wz) = world_position((cx, cy, cz), x, y, z);
                let value =
                    simplex.get([wx as f64 / period, wy as f64 / period, wz as f64 / period]);
                exceeds.push(value > threshold);
            }
        }
    }
    Terrain::Density(exceeds)
}

#[test]
fn sampled_terrain_is_repeatable() {
    let a = generate_chunk(-1, 0, 1, palette(), &sampled_density(-1, 0, 1));
    let b = generate_chunk(-1, 0, 1, palette(), &sampled_density(-1, 0, 1));
    assert_eq!(a.cells(), b.cells());
    let solid = a.cells().iter().filter(|id| **id == PaletteId::new(1)).count();
    assert!(solid > 0);
    assert!(solid < Chunk::VOLUME);
    let ma = mesh_builder(&a).unwrap().build();
    let mb = mesh_builder(&b).unwrap().build();
    assert!(!ma.is_empty());
    assert_eq!(ma.len() % 6, 0);
    assert_eq!(ma, mb);
}
