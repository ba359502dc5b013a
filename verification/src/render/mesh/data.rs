//! Packed vertex components: small tuples of integers, each with the
//! description of its attribute for the graphics pipeline.

use vstd::prelude::*;

verus! {

/// The integer type of a vertex attribute's components.
#[derive(Clone, Copy, Debug, PartialEq, Eq, Structural)]
pub enum AttribKind {
    /// Signed 8-bit components.
    Byte,
    /// Unsigned 8-bit components.
    UnsignedByte,
    /// Unsigned 16-bit components.
    UnsignedShort,
}

impl AttribKind {
    /// The bytes one component takes.
    pub open spec fn spec_size(self) -> nat {
        match self {
            AttribKind::Byte => 1,
            AttribKind::UnsignedByte => 1,
            AttribKind::UnsignedShort => 2,
        }
    }

    /// The bytes one component takes.
    pub fn size(&self) -> (bytes: usize)
        ensures
            bytes == self.spec_size(),
    {
        match self {
            AttribKind::Byte => 1,
            AttribKind::UnsignedByte => 1,
            AttribKind::UnsignedShort => 2,
        }
    }
}

/// Byte `b` of a packed component of kind `kind` with the value `value`. A
/// signed byte is packed in two's complement, a 16-bit component with its
/// low byte first.
pub open spec fn component_byte(kind: AttribKind, value: int, b: int) -> u8 {
    match kind {
        AttribKind::Byte => (if value < 0 {
            value + 256
        } else {
            value
        }) as u8,
        AttribKind::UnsignedByte => value as u8,
        AttribKind::UnsignedShort => (if b == 0 {
            value % 256
        } else {
            value / 256
        }) as u8,
    }
}

/// The byte of a packed signed component.
pub fn byte_of_i8(value: i8) -> (byte: u8)
    ensures
        byte == component_byte(AttribKind::Byte, value as int, 0),
{
    if value < 0 {
        (value as i16 + 256) as u8
    } else {
        value as u8
    }
}

/// The two bytes of a packed 16-bit component, low byte first.
pub fn bytes_of_u16(value: u16) -> (bytes: (u8, u8))
    ensures
        bytes.0 == component_byte(AttribKind::UnsignedShort, value as int, 0),
        bytes.1 == component_byte(AttribKind::UnsignedShort, value as int, 1),
{
    ((value % 256) as u8, (value / 256) as u8)
}

/// One attribute of a packed vertex: where the pipeline finds it.
#[derive(Clone, Copy, Debug, PartialEq, Eq, Structural)]
pub struct VertexAttrib {
    /// The attribute's location in the shader.
    pub location: usize,
    /// How many components it has.
    pub components: usize,
    /// The type of each component. Components are never normalised.
    pub kind: AttribKind,
    /// The bytes from one vertex to the next.
    pub stride: usize,
    /// The bytes from the start of the vertex to this attribute.
    pub offset: usize,
}

impl VertexAttrib {
    /// The bytes the attribute takes.
    pub open spec fn spec_size(self) -> nat {
        self.components as nat * self.kind.spec_size()
    }
}

/// Two unsigned bytes.
#[allow(non_camel_case_types)]
#[derive(Clone, Copy, Debug, PartialEq, Eq, Structural)]
pub struct u8_2 {
    pub d0: u8,
    pub d1: u8,
}

impl u8_2 {
    /// The bytes of the packed value.
    pub const SIZE: usize = 2;

    /// The bytes of the packed value: its components in order.
    pub open spec fn packed(self) -> Seq<u8> {
        seq![
            component_byte(AttribKind::UnsignedByte, self.d0 as int, 0),
            component_byte(AttribKind::UnsignedByte, self.d1 as int, 0),
        ]
    }

    /// Appends the bytes of the packed value.
    pub fn pack(&self, bytes: &mut Vec<u8>)
        ensures
            final(bytes)@ == old(bytes)@ + self.packed(),
            self.packed().len() == Self::SIZE,
    {
        bytes.push(self.d0);
        bytes.push(self.d1);
        assert(bytes@ =~= old(bytes)@ + self.packed());
    }


    pub fn new(d0: u8, d1: u8) -> (v: Self)
        ensures
            v == (u8_2 { d0, d1 }),
    {
        Self { d0, d1 }
    }

    /// The attribute of a value of this type at `offset` in a vertex.
    pub fn vertex_attrib(stride: usize, location: usize, offset: usize) -> (a: VertexAttrib)
        ensures
            a == (VertexAttrib {
                location,
                components: 2,
                kind: AttribKind::UnsignedByte,
                stride,
                offset,
            }),
            a.spec_size() == Self::SIZE,
    {
        VertexAttrib { location, components: 2, kind: AttribKind::UnsignedByte, stride, offset }
    }
}

/// Two signed bytes.
#[allow(non_camel_case_types)]
#[derive(Clone, Copy, Debug, PartialEq, Eq, Structural)]
pub struct i8_2 {
    pub d0: i8,
    pub d1: i8,
}

impl i8_2 {
    /// The bytes of the packed value.
    pub const SIZE: usize = 2;

    /// The bytes of the packed value: its components in order.
    pub open spec fn packed(self) -> Seq<u8> {
        seq![
            component_byte(AttribKind::Byte, self.d0 as int, 0),
            component_byte(AttribKind::Byte, self.d1 as int, 0),
        ]
    }

    /// Appends the bytes of the packed value.
    pub fn pack(&self, bytes: &mut Vec<u8>)
        ensures
            final(bytes)@ == old(bytes)@ + self.packed(),
            self.packed().len() == Self::SIZE,
    {
        bytes.push(byte_of_i8(self.d0));
        bytes.push(byte_of_i8(self.d1));
        assert(bytes@ =~= old(bytes)@ + self.packed());
    }


    pub fn new(d0: i8, d1: i8) -> (v: Self)
        ensures
            v == (i8_2 { d0, d1 }),
    {
        Self { d0, d1 }
    }

    /// The attribute of a value of this type at `offset` in a vertex.
    pub fn vertex_attrib(stride: usize, location: usize, offset: usize) -> (a: VertexAttrib)
        ensures
            a == (VertexAttrib { location, components: 2, kind: AttribKind::Byte, stride, offset }),
            a.spec_size() == Self::SIZE,
    {
        VertexAttrib { location, components: 2, kind: AttribKind::Byte, stride, offset }
    }
}

/// Three unsigned bytes.
#[allow(non_camel_case_types)]
#[derive(Clone, Copy, Debug, PartialEq, Eq, Structural)]
pub struct u8_3 {
    pub d0: u8,
    pub d1: u8,
    pub d2: u8,
}

impl u8_3 {
    /// The bytes of the packed value.
    pub const SIZE: usize = 3;

    /// The bytes of the packed value: its components in order.
    pub open spec fn packed(self) -> Seq<u8> {
        seq![
            component_byte(AttribKind::UnsignedByte, self.d0 as int, 0),
            component_byte(AttribKind::UnsignedByte, self.d1 as int, 0),
            component_byte(AttribKind::UnsignedByte, self.d2 as int, 0),
        ]
    }

    /// Appends the bytes of the packed value.
    pub fn pack(&self, bytes: &mut Vec<u8>)
        ensures
            final(bytes)@ == old(bytes)@ + self.packed(),
            self.packed().len() == Self::SIZE,
    {
        bytes.push(self.d0);
        bytes.push(self.d1);
        bytes.push(self.d2);
        assert(bytes@ =~= old(bytes)@ + self.packed());
    }


    pub fn new(d0: u8, d1: u8, d2: u8) -> (v: Self)
        ensures
            v == (u8_3 { d0, d1, d2 }),
    {
        Self { d0, d1, d2 }
    }

    /// The attribute of a value of this type at `offset` in a vertex.
    pub fn vertex_attrib(stride: usize, location: usize, offset: usize) -> (a: VertexAttrib)
        ensures
            a == (VertexAttrib {
                location,
                components: 3,
                kind: AttribKind::UnsignedByte,
                stride,
                offset,
            }),
            a.spec_size() == Self::SIZE,
    {
        VertexAttrib { location, components: 3, kind: AttribKind::UnsignedByte, stride, offset }
    }
}

/// Three signed bytes.
#[allow(non_camel_case_types)]
#[derive(Clone, Copy, Debug, PartialEq, Eq, Structural)]
pub struct i8_3 {
    pub d0: i8,
    pub d1: i8,
    pub d2: i8,
}

impl i8_3 {
    /// The bytes of the packed value.
    pub const SIZE: usize = 3;

    /// The bytes of the packed value: its components in order.
    pub open spec fn packed(self) -> Seq<u8> {
        seq![
            component_byte(AttribKind::Byte, self.d0 as int, 0),
            component_byte(AttribKind::Byte, self.d1 as int, 0),
            component_byte(AttribKind::Byte, self.d2 as int, 0),
        ]
    }

    /// Appends the bytes of the packed value.
    pub fn pack(&self, bytes: &mut Vec<u8>)
        ensures
            final(bytes)@ == old(bytes)@ + self.packed(),
            self.packed().len() == Self::SIZE,
    {
        bytes.push(byte_of_i8(self.d0));
        bytes.push(byte_of_i8(self.d1));
        bytes.push(byte_of_i8(self.d2));
        assert(bytes@ =~= old(bytes)@ + self.packed());
    }


    pub fn new(d0: i8, d1: i8, d2: i8) -> (v: Self)
        ensures
            v == (i8_3 { d0, d1, d2 }),
    {
        Self { d0, d1, d2 }
    }

    /// The attribute of a value of this type at `offset` in a vertex.
    pub fn vertex_attrib(stride: usize, location: usize, offset: usize) -> (a: VertexAttrib)
        ensures
            a == (VertexAttrib { location, components: 3, kind: AttribKind::Byte, stride, offset }),
            a.spec_size() == Self::SIZE,
    {
        VertexAttrib { location, components: 3, kind: AttribKind::Byte, stride, offset }
    }
}

/// Three unsigned 16-bit integers.
#[allow(non_camel_case_types)]
#[derive(Clone, Copy, Debug, PartialEq, Eq, Structural)]
pub struct u16_3 {
    pub d0: u16,
    pub d1: u16,
    pub d2: u16,
}

impl u16_3 {
    /// The bytes of the packed value.
    pub const SIZE: usize = 6;

    /// The bytes of the packed value: its components in order.
    pub open spec fn packed(self) -> Seq<u8> {
        seq![
            component_byte(AttribKind::UnsignedShort, self.d0 as int, 0),
            component_byte(AttribKind::UnsignedShort, self.d0 as int, 1),
            component_byte(AttribKind::UnsignedShort, self.d1 as int, 0),
            component_byte(AttribKind::UnsignedShort, self.d1 as int, 1),
            component_byte(AttribKind::UnsignedShort, self.d2 as int, 0),
            component_byte(AttribKind::UnsignedShort, self.d2 as int, 1),
        ]
    }

    /// Appends the bytes of the packed value.
    pub fn pack(&self, bytes: &mut Vec<u8>)
        ensures
            final(bytes)@ == old(bytes)@ + self.packed(),
            self.packed().len() == Self::SIZE,
    {
        let d0 = bytes_of_u16(self.d0);
        bytes.push(d0.0);
        bytes.push(d0.1);
        let d1 = bytes_of_u16(self.d1);
        bytes.push(d1.0);
        bytes.push(d1.1);
        let d2 = bytes_of_u16(self.d2);
        bytes.push(d2.0);
        bytes.push(d2.1);
        assert(bytes@ =~= old(bytes)@ + self.packed());
    }


    pub fn new(d0: u16, d1: u16, d2: u16) -> (v: Self)
        ensures
            v == (u16_3 { d0, d1, d2 }),
    {
        Self { d0, d1, d2 }
    }

    /// The attribute of a value of this type at `offset` in a vertex.
    pub fn vertex_attrib(stride: usize, location: usize, offset: usize) -> (a: VertexAttrib)
        ensures
            a == (VertexAttrib {
                location,
                components: 3,
                kind: AttribKind::UnsignedShort,
                stride,
                offset,
            }),
            a.spec_size() == Self::SIZE,
    {
        VertexAttrib { location, components: 3, kind: AttribKind::UnsignedShort, stride, offset }
    }
}

} // verus!
