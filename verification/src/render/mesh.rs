//! Building a mesh vertex by vertex.

use vstd::prelude::*;
use self::data::{component_byte, VertexAttrib};

pub mod data;

verus! {

/// Whether `attribs` lays a vertex of `stride` bytes out without gaps: the
/// attributes follow each other from offset 0, take consecutive locations
/// from 0, all name the stride, and fill it.
pub open spec fn is_packed_layout(attribs: Seq<VertexAttrib>, stride: nat) -> bool {
    &&& forall|i: int|
        0 <= i < attribs.len() ==> (#[trigger] attribs[i]).location == i && attribs[i].stride
            == stride
    &&& attribs.len() > 0 ==> attribs[0].offset == 0
    &&& forall|i: int|
        0 < i < attribs.len() ==> (#[trigger] attribs[i]).offset == attribs[i - 1].offset
            + attribs[i - 1].spec_size()
    &&& attribs.len() > 0 ==> attribs.last().offset + attribs.last().spec_size() == stride
    &&& attribs.len() == 0 ==> stride == 0
}

/// A vertex that knows its packed layout and packs itself by it.
pub trait Vertex: Sized {
    /// The bytes of one packed vertex.
    spec fn stride() -> nat;

    /// The attributes of a packed vertex, in the order of their locations.
    spec fn attribs() -> Seq<VertexAttrib>;

    /// The value of component `index` of the attribute at `attrib`.
    spec fn component(&self, attrib: int, index: int) -> int;

    /// The bytes of the packed vertex.
    spec fn packed(&self) -> Seq<u8>;

    /// The packed vertex follows the layout: it has the stride's length,
    /// and each byte of each component of each attribute stands at the
    /// attribute's offset, components in order and without gaps, a signed
    /// byte in two's complement and a 16-bit component low byte first.
    proof fn packed_follows_the_layout(&self)
        ensures
            self.packed().len() == Self::stride(),
            forall|a: int, c: int, b: int|
                #![trigger component_byte(Self::attribs()[a].kind, self.component(a, c), b)]
                0 <= a < Self::attribs().len() && 0 <= c < Self::attribs()[a].components && 0
                    <= b < Self::attribs()[a].kind.spec_size() ==> self.packed()[Self::attribs()[a].offset
                    + c * Self::attribs()[a].kind.spec_size() + b] == component_byte(
                    Self::attribs()[a].kind,
                    self.component(a, c),
                    b,
                ),
    ;

    /// The attributes of a packed vertex, for the pipeline to bind.
    fn vertex_attribs() -> (attribs: Vec<VertexAttrib>)
        ensures
            attribs@ == Self::attribs(),
            is_packed_layout(attribs@, Self::stride()),
    ;

    /// Appends the bytes of the packed vertex.
    fn pack(&self, bytes: &mut Vec<u8>)
        ensures
            final(bytes)@ == old(bytes)@ + self.packed(),
    ;
}

/// The bytes of the packed vertices of `vertices`, one after the other.
pub open spec fn packed_vertices<V: Vertex>(vertices: Seq<V>) -> Seq<u8>
    decreases vertices.len(),
{
    if vertices.len() == 0 {
        Seq::empty()
    } else {
        packed_vertices(vertices.drop_last()) + vertices.last().packed()
    }
}

/// Packed vertices lie a stride apart: the bytes of a list of vertices are
/// as many strides as it has vertices, and byte `j` of vertex `i` stands at
/// `i` strides and `j`.
pub proof fn packed_vertices_lie_a_stride_apart<V: Vertex>(vertices: Seq<V>, i: int, j: int)
    requires
        0 <= i < vertices.len(),
        0 <= j < V::stride(),
    ensures
        packed_vertices(vertices).len() == vertices.len() * V::stride(),
        0 <= i * V::stride() + j < packed_vertices(vertices).len(),
        packed_vertices(vertices)[i * V::stride() + j] == vertices[i].packed()[j],
    decreases vertices.len(),
{
    let n = vertices.len() as int;
    let stride = V::stride() as int;
    let before = vertices.drop_last();
    packed_vertices_have_whole_strides(before);
    vertices.last().packed_follows_the_layout();
    assert(n * stride == (n - 1) * stride + stride && i * stride + j < (i + 1) * stride && (i
        + 1) * stride <= n * stride && 0 <= i * stride) by (nonlinear_arith)
        requires
            0 <= i < n,
            0 <= j < stride,
    ;
    if i < n - 1 {
        packed_vertices_lie_a_stride_apart(before, i, j);
    } else {
        assert(i * stride == (n - 1) * stride);
    }
}

/// The bytes of a list of vertices are as many strides as it has vertices.
pub proof fn packed_vertices_have_whole_strides<V: Vertex>(vertices: Seq<V>)
    ensures
        packed_vertices(vertices).len() == vertices.len() * V::stride(),
    decreases vertices.len(),
{
    if vertices.len() > 0 {
        packed_vertices_have_whole_strides(vertices.drop_last());
        vertices.last().packed_follows_the_layout();
        assert(vertices.len() * V::stride() == (vertices.len() - 1) * V::stride() + V::stride())
            by (nonlinear_arith);
    }
}

/// The vertices of `vertices` packed one after the other, as a vertex
/// buffer holds them.
pub fn pack_vertices<V: Vertex>(vertices: &[V]) -> (bytes: Vec<u8>)
    ensures
        bytes@ == packed_vertices(vertices@),
        bytes@.len() == vertices@.len() * V::stride(),
{
    let mut bytes: Vec<u8> = Vec::new();
    let mut i: usize = 0;
    while i < vertices.len()
        invariant
            i <= vertices@.len(),
            bytes@ == packed_vertices(vertices@.take(i as int)),
        decreases vertices@.len() - i,
    {
        proof {
            assert(vertices@.take(i + 1).drop_last() =~= vertices@.take(i as int));
        }
        vertices[i].pack(&mut bytes);
        i += 1;
    }
    proof {
        assert(vertices@.take(vertices@.len() as int) =~= vertices@);
        packed_vertices_have_whole_strides(vertices@);
    }
    bytes
}

/// The two triangles of the quad with corners `v0`, `v1`, `v2`, `v3`: they
/// share the diagonal from `v0` to `v2`.
pub open spec fn quad<V>(v0: V, v1: V, v2: V, v3: V) -> Seq<V> {
    seq![v0, v2, v1, v0, v3, v2]
}

/// Appending is associative: what was appended in two steps is what their
/// concatenation appends in one.
pub proof fn append_is_associative<V>(a: Seq<V>, b: Seq<V>, c: Seq<V>)
    ensures
        (a + b) + c == a + (b + c),
{
    assert((a + b) + c =~= a + (b + c));
}

/// The four corners of a quad, in the order given: one vertex for each
/// corner, for a renderer that draws quads from their corners.
pub open spec fn quad_corners<V>(v0: V, v1: V, v2: V, v3: V) -> Seq<V> {
    seq![v0, v1, v2, v3]
}

/// A list of vertices that grows at its end. Quads are pushed either as two
/// triangles of three vertices each, or as their four corners; a mesh keeps
/// to one of the two.
pub struct MeshBuilder<V: Vertex> {
    vertices: Vec<V>,
}

impl<V: Vertex> View for MeshBuilder<V> {
    type V = Seq<V>;

    /// The vertices pushed so far, in order.
    closed spec fn view(&self) -> Seq<V> {
        self.vertices@
    }
}

impl<V: Vertex + Copy> MeshBuilder<V> {
    /// A builder without vertices.
    pub fn new() -> (mesh: MeshBuilder<V>)
        ensures
            mesh@ == Seq::<V>::empty(),
    {
        MeshBuilder { vertices: Vec::new() }
    }

    /// Appends the vertices of `data`.
    pub fn push_verts(self, data: &[V]) -> (mesh: Self)
        ensures
            mesh@ == self@ + data@,
    {
        let mut mesh = self;
        let mut i: usize = 0;
        while i < data.len()
            invariant
                i <= data@.len(),
                mesh.vertices@ =~= self.vertices@ + data@.take(i as int),
            decreases data@.len() - i,
        {
            mesh.vertices.push(data[i]);
            i += 1;
        }
        assert(data@.take(data@.len() as int) =~= data@);
        mesh
    }

    /// Appends the quad with the corners `v0`, `v1`, `v2`, `v3`, given in
    /// order around it, as two triangles.
    pub fn push_quad(&mut self, v0: &V, v1: &V, v2: &V, v3: &V)
        ensures
            final(self)@ == old(self)@ + quad(*v0, *v1, *v2, *v3),
    {
        self.vertices.reserve(6);
        // tri 1
        self.vertices.push(*v0);
        self.vertices.push(*v2);
        self.vertices.push(*v1);
        // tri 2
        self.vertices.push(*v0);
        self.vertices.push(*v3);
        self.vertices.push(*v2);
        assert(self.vertices@ =~= old(self).vertices@ + quad(*v0, *v1, *v2, *v3));
    }

    /// Appends the quad with the corners `v0`, `v1`, `v2`, `v3` as its
    /// four corners, in the order given.
    pub fn push_quad_corners(self, v0: &V, v1: &V, v2: &V, v3: &V) -> (mesh: Self)
        ensures
            mesh@ == self@ + quad_corners(*v0, *v1, *v2, *v3),
    {
        let mut mesh = self;
        mesh.vertices.reserve(4);
        mesh.vertices.push(*v0);
        mesh.vertices.push(*v1);
        mesh.vertices.push(*v2);
        mesh.vertices.push(*v3);
        assert(mesh.vertices@ =~= self.vertices@ + quad_corners(*v0, *v1, *v2, *v3));
        mesh
    }

    /// The vertices, for the renderer to upload.
    pub fn build(self) -> (vertices: Vec<V>)
        ensures
            vertices@ == self@,
    {
        self.vertices
    }
}

} // verus!
