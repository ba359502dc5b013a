use voxel::net::{Face, PlayerMiningStatus, Rotation, VPosition};
use voxel::render::framebuffer::{screen_quad, PostprocessVertex};
use voxel::render::mesh::data::{i8_2, u8_2, AttribKind, VertexAttrib};
use voxel::render::mesh::Vertex;
use voxel::render::shader::ShaderKind;
use voxel::window::GameInput;
use voxel::world::voxel::VoxelDirection;
use voxel::Gamemode;

#[test]
fn game_input_iter_lists_every_input_once() {
    let all: Vec<GameInput> = GameInput::iter().into_iter().collect();
    assert_eq!(
        all,
        vec![
            GameInput::MoveForward,
            GameInput::MoveBackwards,
            GameInput::MoveLeft,
            GameInput::MoveRight,
            GameInput::FlyUp,
            GameInput::FlyDown,
            GameInput::Sprint,
            GameInput::Escape,
        ]
    );
}

#[test]
fn face_values_round_trip() {
    let faces = [Face::Top, Face::Bottom, Face::North, Face::South, Face::East, Face::West];
    for (i, f) in faces.iter().enumerate() {
        assert_eq!(f.value() as usize, i);
        assert_eq!(Face::from_value(i as u8), Some(*f));
    }
    assert_eq!(Face::from_value(6), None);
    assert_eq!(Face::from_value(255), None);
}

#[test]
fn plain_shapes_compare_by_value() {
    assert_eq!(VPosition { x: 1, y: 2, z: 3 }, VPosition { x: 1, y: 2, z: 3 });
    assert_ne!(Rotation { yaw: 1, pitch: 2 }, Rotation { yaw: 2, pitch: 1 });
    assert_ne!(PlayerMiningStatus::Started, PlayerMiningStatus::Completed);
    assert_ne!(Gamemode::Client, Gamemode::Server);
    assert_ne!(ShaderKind::Vertex, ShaderKind::Fragement);
    assert_ne!(VoxelDirection::Up, VoxelDirection::Down);
}

#[test]
fn screen_quad_covers_the_screen() {
    let q = screen_quad();
    let want = [
        PostprocessVertex::new(-1, 1, 0, 1),
        PostprocessVertex::new(-1, -1, 0, 0),
        PostprocessVertex::new(1, -1, 1, 0),
        PostprocessVertex::new(-1, 1, 0, 1),
        PostprocessVertex::new(1, -1, 1, 0),
        PostprocessVertex::new(1, 1, 1, 1),
    ];
    assert_eq!(q, want);
    assert_eq!(q[2].pos, i8_2::new(1, -1));
    assert_eq!(q[2].tex, u8_2::new(1, 0));
}

#[test]
fn postprocess_vertex_is_packed_in_four_bytes() {
    assert_eq!(
        PostprocessVertex::vertex_attribs(),
        vec![
            VertexAttrib { location: 0, components: 2, kind: AttribKind::Byte, stride: 4, offset: 0 },
            VertexAttrib {
                location: 1,
                components: 2,
                kind: AttribKind::UnsignedByte,
                stride: 4,
                offset: 2
            },
        ]
    );
}

#[test]
fn postprocess_vertex_packs_signed_bytes_in_twos_complement() {
    let mut bytes = Vec::new();
    for v in screen_quad() {
        v.pack(&mut bytes);
    }
    assert_eq!(
        bytes,
        vec![
            0xff, 1, 0, 1, 0xff, 0xff, 0, 0, 1, 0xff, 1, 0, 0xff, 1, 0, 1, 1, 0xff, 1, 0, 1, 1, 1, 1
        ]
    );
}
