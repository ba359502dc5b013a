//! The quad that a finished frame is drawn with.

use vstd::prelude::*;
use super::mesh::data::{component_byte, i8_2, u8_2, AttribKind, VertexAttrib};
use super::mesh::Vertex;

verus! {

/// A vertex of the screen quad: a position in clip space and a texture
/// coordinate.
#[derive(Clone, Copy, Debug, PartialEq, Eq, Structural)]
pub struct PostprocessVertex {
    pub pos: i8_2,
    pub tex: u8_2,
}

impl PostprocessVertex {
    pub fn new(d0: i8, d1: i8, d2: u8, d3: u8) -> (v: Self)
        ensures
            v.pos == (i8_2 { d0, d1 }),
            v.tex == (u8_2 { d0: d2, d1: d3 }),
    {
        Self { pos: i8_2::new(d0, d1), tex: u8_2::new(d2, d3) }
    }
}

impl Vertex for PostprocessVertex {
    open spec fn stride() -> nat {
        4
    }

    open spec fn attribs() -> Seq<VertexAttrib> {
        seq![
            VertexAttrib { location: 0, components: 2, kind: AttribKind::Byte, stride: 4, offset: 0 },
            VertexAttrib {
                location: 1,
                components: 2,
                kind: AttribKind::UnsignedByte,
                stride: 4,
                offset: 2,
            },
        ]
    }

    open spec fn component(&self, attrib: int, index: int) -> int {
        if attrib == 0 {
            if index == 0 {
                self.pos.d0 as int
            } else if index == 1 {
                self.pos.d1 as int
            } else {
                0
            }
        } else {
            if index == 0 {
                self.tex.d0 as int
            } else if index == 1 {
                self.tex.d1 as int
            } else {
                0
            }
        }
    }

    open spec fn packed(&self) -> Seq<u8> {
        self.pos.packed() + self.tex.packed()
    }

    proof fn packed_follows_the_layout(&self) {
        assert forall|a: int, c: int, b: int|
            #![trigger component_byte(Self::attribs()[a].kind, self.component(a, c), b)]
            0 <= a < Self::attribs().len() && 0 <= c < Self::attribs()[a].components && 0 <= b
                < Self::attribs()[a].kind.spec_size() implies self.packed()[Self::attribs()[a].offset
            + c * Self::attribs()[a].kind.spec_size() + b] == component_byte(
            Self::attribs()[a].kind,
            self.component(a, c),
            b,
        ) by {
            assert(Self::attribs()[0].kind == AttribKind::Byte);
            assert(Self::attribs()[1].kind == AttribKind::UnsignedByte);
        }
    }

    fn vertex_attribs() -> (attribs: Vec<VertexAttrib>) {
        let stride = i8_2::SIZE + u8_2::SIZE;
        let mut attribs: Vec<VertexAttrib> = Vec::with_capacity(2);
        let location: usize = 0;
        let offset: usize = 0;
        attribs.push(i8_2::vertex_attrib(stride, location, offset));
        let location: usize = 1;
        let offset = offset + i8_2::SIZE;
        attribs.push(u8_2::vertex_attrib(stride, location, offset));
        assert(attribs@ =~= Self::attribs());
        attribs
    }

    fn pack(&self, bytes: &mut Vec<u8>) {
        self.pos.pack(bytes);
        self.tex.pack(bytes);
        assert(bytes@ =~= old(bytes)@ + self.packed());
    }
}

/// The vertex of the screen at the clip-space position `(x, y)`: its
/// texture coordinate is 0 where the position is -1, and 1 where it is 1.
pub open spec fn screen_vertex(x: i8, y: i8) -> PostprocessVertex {
    PostprocessVertex {
        pos: i8_2 { d0: x, d1: y },
        tex: u8_2 { d0: if x > 0 {
            1
        } else {
            0
        }, d1: if y > 0 {
            1
        } else {
            0
        } },
    }
}

/// The two triangles that cover the screen, the texture of the frame
/// stretched over them.
pub fn screen_quad() -> (quad: [PostprocessVertex; 6])
    ensures
        quad@ == seq![
            screen_vertex(-1i8, 1i8),
            screen_vertex(-1i8, -1i8),
            screen_vertex(1i8, -1i8),
            screen_vertex(-1i8, 1i8),
            screen_vertex(1i8, -1i8),
            screen_vertex(1i8, 1i8),
        ],
{
    let quad = [
        PostprocessVertex::new(-1, 1, 0, 1),
        PostprocessVertex::new(-1, -1, 0, 0),
        PostprocessVertex::new(1, -1, 1, 0),
        PostprocessVertex::new(-1, 1, 0, 1),
        PostprocessVertex::new(1, -1, 1, 0),
        PostprocessVertex::new(1, 1, 1, 1),
    ];
    assert(quad@ =~= seq![
        screen_vertex(-1i8, 1i8),
        screen_vertex(-1i8, -1i8),
        screen_vertex(1i8, -1i8),
        screen_vertex(-1i8, 1i8),
        screen_vertex(1i8, -1i8),
        screen_vertex(1i8, 1i8),
    ]);
    quad
}

} // verus!
