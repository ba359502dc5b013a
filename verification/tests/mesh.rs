use voxel::error::Error;
use voxel::render::mesh::data::{i8_3, u16_3, u8_3, AttribKind, VertexAttrib};
use voxel::render::mesh::{pack_vertices, MeshBuilder, Vertex};
use voxel::scene::world::{mesh_builder, ChunkVertex};
use voxel::world::chunk::{Chunk, Palette, PaletteId};
use voxel::world::voxel::{TextureId, Voxel, VoxelTexture};

fn chunk_with(cells: &[(usize, usize, usize)]) -> Chunk {
    let mut p = Palette::new();
    let v = Voxel::new_full(VoxelTexture::Single { faces: TextureId::new(16, 7) });
    assert_eq!(p.add_voxel(v), Ok(()));
    let mut c = Chunk::new((0, 0, 0), p);
    for (x, y, z) in cells {
        c.set_voxel(*x, *y, *z, PaletteId::new(1));
    }
    c
}

fn positions(vs: &[ChunkVertex]) -> Vec<(u8, u8, u8)> {
    vs.iter().map(|v| (v.pos.d0, v.pos.d1, v.pos.d2)).collect()
}

fn build(c: &Chunk) -> Vec<ChunkVertex> {
    match mesh_builder(c) {
        Ok(m) => m.build(),
        Err(e) => panic!("{}", e.message()),
    }
}

#[test]
fn empty_chunk_has_empty_mesh() {
    assert_eq!(build(&chunk_with(&[])).len(), 0);
}

#[test]
fn isolated_voxel_yields_six_quads() {
    let vs = build(&chunk_with(&[(0, 0, 0)]));
    assert_eq!(vs.len(), 36);
    let vs = build(&chunk_with(&[(5, 6, 7)]));
    assert_eq!(vs.len(), 36);
    let vs = build(&chunk_with(&[(31, 63, 31)]));
    assert_eq!(vs.len(), 36);
}

#[test]
fn adjacent_voxels_yield_ten_quads() {
    assert_eq!(build(&chunk_with(&[(0, 0, 0), (1, 0, 0)])).len(), 60);
    assert_eq!(build(&chunk_with(&[(4, 4, 4), (4, 5, 4)])).len(), 60);
    assert_eq!(build(&chunk_with(&[(4, 4, 4), (4, 4, 5)])).len(), 60);
    assert_eq!(build(&chunk_with(&[(4, 4, 4), (6, 4, 4)])).len(), 72);
}

#[test]
fn isolated_voxel_faces_are_wound_as_specified() {
    let vs = build(&chunk_with(&[(2, 3, 4)]));
    let t = |x: u8, y: u8, z: u8, n: (i8, i8, i8), u: u16, v: u16| ChunkVertex {
        pos: u8_3 { d0: x, d1: y, d2: z },
        norm: i8_3 { d0: n.0, d1: n.1, d2: n.2 },
        tex: u16_3 { d0: u, d1: v, d2: 7 },
    };
    let quad = |c: [ChunkVertex; 4]| vec![c[0], c[2], c[1], c[0], c[3], c[2]];
    let mut want = Vec::new();
    // back
    want.extend(quad([
        t(3, 4, 4, (0, 0, 1), 16, 16),
        t(2, 4, 4, (0, 0, 1), 0, 16),
        t(2, 3, 4, (0, 0, 1), 0, 0),
        t(3, 3, 4, (0, 0, 1), 16, 0),
    ]));
    // front
    want.extend(quad([
        t(3, 3, 5, (0, 0, -1), 16, 0),
        t(2, 3, 5, (0, 0, -1), 0, 0),
        t(2, 4, 5, (0, 0, -1), 0, 16),
        t(3, 4, 5, (0, 0, -1), 16, 16),
    ]));
    // left
    want.extend(quad([
        t(2, 4, 4, (-1, 0, 0), 16, 16),
        t(2, 4, 5, (-1, 0, 0), 0, 16),
        t(2, 3, 5, (-1, 0, 0), 0, 0),
        t(2, 3, 4, (-1, 0, 0), 16, 0),
    ]));
    // right
    want.extend(quad([
        t(3, 3, 4, (1, 0, 0), 16, 0),
        t(3, 3, 5, (1, 0, 0), 0, 0),
        t(3, 4, 5, (1, 0, 0), 0, 16),
        t(3, 4, 4, (1, 0, 0), 16, 16),
    ]));
    // bottom
    want.extend(quad([
        t(2, 3, 5, (0, 1, 0), 16, 0),
        t(3, 3, 5, (0, 1, 0), 0, 0),
        t(3, 3, 4, (0, 1, 0), 0, 16),
        t(2, 3, 4, (0, 1, 0), 16, 16),
    ]));
    // top
    want.extend(quad([
        t(2, 4, 4, (0, -1, 0), 16, 16),
        t(3, 4, 4, (0, -1, 0), 0, 16),
        t(3, 4, 5, (0, -1, 0), 0, 0),
        t(2, 4, 5, (0, -1, 0), 16, 0),
    ]));
    assert_eq!(vs, want);
}

#[test]
fn bar_has_no_shared_face_and_exact_corners() {
    let vs = build(&chunk_with(&[(0, 0, 0), (1, 0, 0)]));
    assert_eq!(vs.len(), 60);
    let quads: Vec<Vec<(u8, u8, u8)>> = vs.chunks(6).map(positions).collect();
    // No quad lies in the plane x == 1 between the two voxels.
    for q in &quads {
        assert!(!q.iter().all(|p| p.0 == 1));
    }
    // First voxel: back, front, left, bottom, top. Second: back, front, right, bottom, top.
    let corners = |q: &Vec<(u8, u8, u8)>| {
        let mut c = vec![q[0], q[2], q[1], q[4]];
        c.sort();
        c
    };
    let face = |fixed: usize, at: u8, x0: u8| {
        let mut c = Vec::new();
        for a in 0..2u8 {
            for b in 0..2u8 {
                c.push(match fixed {
                    0 => (at, a, b),
                    1 => (x0 + a, at, b),
                    _ => (x0 + a, b, at),
                });
            }
        }
        c.sort();
        c
    };
    assert_eq!(corners(&quads[0]), face(2, 0, 0));
    assert_eq!(corners(&quads[1]), face(2, 1, 0));
    assert_eq!(corners(&quads[2]), face(0, 0, 0));
    assert_eq!(corners(&quads[3]), face(1, 0, 0));
    assert_eq!(corners(&quads[4]), face(1, 1, 0));
    assert_eq!(corners(&quads[5]), face(2, 0, 1));
    assert_eq!(corners(&quads[6]), face(2, 1, 1));
    assert_eq!(corners(&quads[7]), face(0, 2, 0));
    assert_eq!(corners(&quads[8]), face(1, 0, 1));
    assert_eq!(corners(&quads[9]), face(1, 1, 1));
    // Each quad is two triangles that share the diagonal from corner 0 to corner 2.
    for q in &quads {
        assert_eq!(q[0], q[3]);
        assert_eq!(q[1], q[5]);
    }
}

#[test]
fn solid_layer_shows_only_its_surface() {
    let mut cells = Vec::new();
    for z in 0..Chunk::DEPTH {
        for x in 0..Chunk::WIDTH {
            cells.push((x, 0, z));
        }
    }
    let vs = build(&chunk_with(&cells));
    // top and bottom of 32 * 32 cells, and four rims of 32 cells each
    assert_eq!(vs.len(), 6 * (2 * 32 * 32 + 4 * 32));
}

#[test]
fn full_chunk_shows_only_its_hull() {
    let mut p = Palette::new();
    let v = Voxel::new_full(VoxelTexture::Single { faces: TextureId::new(16, 0) });
    assert_eq!(p.add_voxel(v), Ok(()));
    let ids = vec![PaletteId::new(1); Chunk::VOLUME];
    let c = Chunk::from_cells((0, 0, 0), p, ids).unwrap();
    let vs = build(&c);
    assert_eq!(vs.len(), 6 * (2 * 32 * 32 + 2 * 32 * 64 + 2 * 32 * 64));
    assert!(vs.iter().all(|v| v.pos.d0 <= 32 && v.pos.d1 <= 64 && v.pos.d2 <= 32));
}

#[test]
fn cells_are_meshed_in_storage_order() {
    let vs = build(&chunk_with(&[(0, 1, 0), (3, 0, 0), (1, 0, 2)]));
    assert_eq!(vs.len(), 108);
    assert_eq!((vs[0].pos.d0, vs[0].pos.d1, vs[0].pos.d2), (4, 1, 0));
    assert_eq!((vs[36].pos.d0, vs[36].pos.d1, vs[36].pos.d2), (2, 1, 2));
    assert_eq!((vs[72].pos.d0, vs[72].pos.d1, vs[72].pos.d2), (1, 2, 0));
}

#[test]
fn unsupported_texture_mapping_fails_the_mesh() {
    let mut p = Palette::new();
    let single = Voxel::new_full(VoxelTexture::Single { faces: TextureId::new(16, 0) });
    let top = Voxel::new_full(VoxelTexture::Top {
        sides: TextureId::new(16, 0),
        top: TextureId::new(16, 1),
    });
    let blank = Voxel::new_full(VoxelTexture::Blank);
    assert_eq!(p.add_voxel(single), Ok(()));
    assert_eq!(p.add_voxel(top), Ok(()));
    assert_eq!(p.add_voxel(blank), Ok(()));
    let mut c = Chunk::new((0, 0, 0), p);
    c.set_voxel(0, 0, 0, PaletteId::new(1));
    assert!(mesh_builder(&c).is_ok());
    c.set_voxel(9, 9, 9, PaletteId::new(2));
    assert_eq!(mesh_builder(&c).err(), Some(Error::UnsupportedTextureMapping));
    c.set_voxel(9, 9, 9, PaletteId::new(3));
    assert_eq!(mesh_builder(&c).err(), Some(Error::UnsupportedTextureMapping));
    // an id without a registered voxel stands for air in the palette, but the cell is not empty
    c.set_voxel(9, 9, 9, PaletteId::new(200));
    assert_eq!(mesh_builder(&c).err(), Some(Error::UnsupportedTextureMapping));
    c.set_voxel(9, 9, 9, PaletteId::new(0));
    assert_eq!(build(&c).len(), 36);
}

#[test]
fn push_quad_makes_two_triangles() {
    let v = |i: u8| ChunkVertex::new(i, 0, 0, 0, 0, 0, 0, 0, 0);
    let mut m: MeshBuilder<ChunkVertex> = MeshBuilder::new();
    m.push_quad(&v(0), &v(1), &v(2), &v(3));
    let m = m.push_verts(&[v(9), v(8)]);
    let xs: Vec<u8> = m.build().iter().map(|v| v.pos.d0).collect();
    assert_eq!(xs, vec![0, 2, 1, 0, 3, 2, 9, 8]);
}

#[test]
fn chunk_vertex_is_packed_in_twelve_bytes() {
    let a = ChunkVertex::vertex_attribs();
    assert_eq!(
        a,
        vec![
            VertexAttrib {
                location: 0,
                components: 3,
                kind: AttribKind::UnsignedByte,
                stride: 12,
                offset: 0
            },
            VertexAttrib { location: 1, components: 3, kind: AttribKind::Byte, stride: 12, offset: 3 },
            VertexAttrib {
                location: 2,
                components: 3,
                kind: AttribKind::UnsignedShort,
                stride: 12,
                offset: 6
            },
        ]
    );
    assert_eq!(AttribKind::UnsignedShort.size(), 2);
    assert_eq!(AttribKind::Byte.size(), 1);
    assert_eq!(AttribKind::UnsignedByte.size(), 1);
}

#[test]
fn chunk_vertex_new_orders_its_fields() {
    let v = ChunkVertex::new(1, 2, 3, -1, 0, 1, 10, 20, 30);
    assert_eq!(v.pos, u8_3::new(1, 2, 3));
    assert_eq!(v.norm, i8_3::new(-1, 0, 1));
    assert_eq!(v.tex, u16_3::new(10, 20, 30));
}

#[test]
fn push_quad_corners_keeps_the_four_corners() {
    let v = |i: u8| ChunkVertex::new(i, 0, 0, 0, 0, 0, 0, 0, 0);
    let m: MeshBuilder<ChunkVertex> = MeshBuilder::new();
    let m = m.push_quad_corners(&v(0), &v(1), &v(2), &v(3));
    let m = m.push_quad_corners(&v(4), &v(5), &v(6), &v(7));
    let xs: Vec<u8> = m.build().iter().map(|v| v.pos.d0).collect();
    assert_eq!(xs, vec![0, 1, 2, 3, 4, 5, 6, 7]);
}

#[test]
fn chunk_vertex_packs_by_its_layout() {
    let v = ChunkVertex::new(1, 2, 3, -1, 0, 1, 0x1234, 16, 0xff00);
    let mut bytes = Vec::new();
    v.pack(&mut bytes);
    assert_eq!(bytes, vec![1, 2, 3, 0xff, 0, 1, 0x34, 0x12, 16, 0, 0x00, 0xff]);
    let w = ChunkVertex::new(255, 0, 9, -128, 127, -2, 0, 0xffff, 1);
    let all = pack_vertices(&[v, w, v]);
    assert_eq!(all.len(), 36);
    assert_eq!(&all[0..12], &bytes[..]);
    assert_eq!(&all[12..24], &[255, 0, 9, 0x80, 0x7f, 0xfe, 0, 0, 0xff, 0xff, 1, 0][..]);
    assert_eq!(&all[24..36], &bytes[..]);
    assert_eq!(pack_vertices::<ChunkVertex>(&[]).len(), 0);
    // each attribute stands at its offset
    for a in ChunkVertex::vertex_attribs() {
        assert_eq!(a.stride, 12);
        assert!(a.offset + a.components * a.kind.size() <= 12);
    }
}

#[test]
fn mesh_packs_to_twelve_bytes_a_vertex() {
    let vs = build(&chunk_with(&[(1, 2, 3)]));
    let bytes = pack_vertices(&vs);
    assert_eq!(bytes.len(), 36 * 12);
    // first vertex: back face, corner 0
    assert_eq!(&bytes[0..12], &[2, 3, 3, 0, 0, 1, 16, 0, 16, 0, 7, 0][..]);
}
