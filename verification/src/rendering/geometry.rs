//! The full-screen quad: its indices, the bytes of its index buffer and the
//! layout of its vertices.
//!
//! The vertices' coordinates are floating-point data and are supplied by the
//! caller; the library fixes how many there are, how they are laid out in
//! memory and in which order they are drawn.

use vstd::prelude::*;
use crate::rendering::flags::BufferUsages;
use crate::rendering::flags::{BUFFER_INDEX, BUFFER_VERTEX};

verus! {

/// Number of vertices of the quad.
pub const QUAD_VERTEX_COUNT: u32 = 4;

/// Number of indices of the quad: two triangles.
pub const QUAD_INDEX_COUNT: u32 = 6;

/// Bytes of one vertex: a position of three floats and a texture coordinate
/// of two.
pub const QUAD_VERTEX_STRIDE: u64 = 20;

/// Shader location of the position.
pub const POSITION_LOCATION: u32 = 0;

/// Shader location of the texture coordinate.
pub const UV_LOCATION: u32 = 1;

/// The width of the indices in an index buffer.
#[derive(Clone, Copy, Debug, PartialEq, Eq, Structural)]
pub enum IndexFormat {
    Uint16,
    Uint32,
}

/// The type of a vertex attribute.
#[derive(Clone, Copy, Debug, PartialEq, Eq, Structural)]
pub enum VertexFormat {
    Float32,
    Float32x2,
    Float32x3,
    Float32x4,
}

/// Whether a vertex buffer advances per vertex or per instance.
#[derive(Clone, Copy, Debug, PartialEq, Eq, Structural)]
pub enum VertexStepMode {
    Vertex,
    Instance,
}

/// One attribute of a vertex: where it lies in the vertex and where the
/// shader finds it.
#[derive(Clone, Copy, Debug, PartialEq, Eq, Structural)]
pub struct VertexAttribute {
    pub format: VertexFormat,
    pub offset: u64,
    pub shader_location: u32,
}

/// How the vertices lie in a vertex buffer.
#[derive(Debug, PartialEq, Eq)]
pub struct VertexBufferLayout {
    pub array_stride: u64,
    pub step_mode: VertexStepMode,
    pub attributes: Vec<VertexAttribute>,
}

/// A buffer together with the bytes that it is created with.
#[derive(Debug, PartialEq, Eq)]
pub struct BufferInitDescriptor {
    pub contents: Vec<u8>,
    pub usage: BufferUsages,
}

impl VertexFormat {
    /// The number of bytes that an attribute of this type takes.
    pub open spec fn spec_size(self) -> nat {
        match self {
            VertexFormat::Float32 => 4,
            VertexFormat::Float32x2 => 8,
            VertexFormat::Float32x3 => 12,
            VertexFormat::Float32x4 => 16,
        }
    }

    /// The number of bytes that an attribute of this type takes.
    pub fn size(self) -> (bytes: u64)
        ensures
            bytes == self.spec_size(),
    {
        match self {
            VertexFormat::Float32 => 4,
            VertexFormat::Float32x2 => 8,
            VertexFormat::Float32x3 => 12,
            VertexFormat::Float32x4 => 16,
        }
    }
}

impl VertexAttribute {
    /// The first byte after the attribute.
    pub open spec fn end(self) -> nat {
        self.offset as nat + self.format.spec_size()
    }
}

/// The position of the quad's vertices: three floats at the start of the
/// vertex.
pub open spec fn position_attribute() -> VertexAttribute {
    VertexAttribute { format: VertexFormat::Float32x3, offset: 0, shader_location: POSITION_LOCATION }
}

/// The texture coordinate of the quad's vertices: two floats after the
/// position.
pub open spec fn uv_attribute() -> VertexAttribute {
    VertexAttribute { format: VertexFormat::Float32x2, offset: 12, shader_location: UV_LOCATION }
}

impl VertexBufferLayout {
    /// The layout of the quad's vertices.
    pub open spec fn is_quad(self) -> bool {
        &&& self.array_stride == QUAD_VERTEX_STRIDE
        &&& self.step_mode == VertexStepMode::Vertex
        &&& self.attributes@ == seq![position_attribute(), uv_attribute()]
    }

    /// Every attribute lies within one vertex, no two attributes share a
    /// byte, and no two share a shader location.
    pub open spec fn wf(self) -> bool {
        &&& forall|i: int|
            0 <= i < self.attributes@.len() ==> (#[trigger] self.attributes@[i]).end()
                <= self.array_stride
        &&& forall|i: int, j: int|
            0 <= i < j < self.attributes@.len() ==> {
                let a = #[trigger] self.attributes@[i];
                let b = #[trigger] self.attributes@[j];
                &&& (a.end() <= b.offset || b.end() <= a.offset)
                &&& a.shader_location != b.shader_location
            }
    }

    /// The layout of the quad's vertices: 20 bytes each, stepped per vertex,
    /// the position at offset 0 and location 0, the texture coordinate at
    /// offset 12 and location 1.
    pub fn quad() -> (layout: VertexBufferLayout)
        ensures
            layout.is_quad(),
            layout.wf(),
    {
        let mut attributes: Vec<VertexAttribute> = Vec::new();
        attributes.push(
            VertexAttribute { format: VertexFormat::Float32x3, offset: 0, shader_location: POSITION_LOCATION },
        );
        attributes.push(
            VertexAttribute { format: VertexFormat::Float32x2, offset: 12, shader_location: UV_LOCATION },
        );
        assert(attributes@ =~= seq![position_attribute(), uv_attribute()]);
        VertexBufferLayout { array_stride: QUAD_VERTEX_STRIDE, step_mode: VertexStepMode::Vertex, attributes }
    }
}

/// The quad's indices: the triangle of the vertices 0, 1, 2 and the triangle
/// of the vertices 2, 3, 0.
pub open spec fn spec_quad_indices() -> Seq<u16> {
    seq![0u16, 1u16, 2u16, 2u16, 3u16, 0u16]
}

/// The bytes `low` and `high` are the two halves of `value`.
pub open spec fn halves(value: u16, low: u8, high: u8) -> bool {
    value == low as int + 256 * (high as int)
}

/// `bytes` holds `indices` one after the other, each in two bytes with the
/// low half first.
pub open spec fn encodes_low_first(indices: Seq<u16>, bytes: Seq<u8>) -> bool {
    &&& bytes.len() == 2 * indices.len()
    &&& forall|i: int|
        0 <= i < indices.len() ==> halves(#[trigger] indices[i], bytes[2 * i], bytes[2 * i + 1])
}

/// `bytes` holds `indices` one after the other, each in two bytes with the
/// high half first.
pub open spec fn encodes_high_first(indices: Seq<u16>, bytes: Seq<u8>) -> bool {
    &&& bytes.len() == 2 * indices.len()
    &&& forall|i: int|
        0 <= i < indices.len() ==> halves(#[trigger] indices[i], bytes[2 * i + 1], bytes[2 * i])
}

/// `bytes` holds `indices` as they lie in memory: in the byte order of the
/// machine, which is one of the two.
pub open spec fn encodes(indices: Seq<u16>, bytes: Seq<u8>) -> bool {
    encodes_low_first(indices, bytes) || encodes_high_first(indices, bytes)
}

/// `bytemuck::cast_slice` from `u16` to `u8`: the same memory read as bytes.
/// The cast cannot fail, for a byte has no alignment and every length in
/// bytes is a whole number of them. The result has two bytes for each index
/// and holds each index in the machine's byte order, the same for all of
/// them.
#[verifier::external_body]
fn cast_indices(indices: &[u16]) -> (bytes: Vec<u8>)
    ensures
        encodes(indices@, bytes@),
{
    bytemuck::cast_slice::<u16, u8>(indices).to_vec()
}

/// The quad's indices.
pub fn quad_indices() -> (indices: Vec<u16>)
    ensures
        indices@ == spec_quad_indices(),
{
    let mut indices: Vec<u16> = Vec::new();
    indices.push(0);
    indices.push(1);
    indices.push(2);
    indices.push(2);
    indices.push(3);
    indices.push(0);
    assert(indices@ =~= spec_quad_indices());
    indices
}

/// The index buffer for `indices`: its usage is that of an index buffer, and
/// its contents are the indices as they lie in memory, two bytes each.
pub fn index_buffer(indices: &[u16]) -> (buffer: BufferInitDescriptor)
    ensures
        buffer.usage.bits == BUFFER_INDEX,
        buffer.contents@.len() == 2 * indices@.len(),
        encodes(indices@, buffer.contents@),
{
    BufferInitDescriptor { contents: cast_indices(indices), usage: BufferUsages::index() }
}

/// The vertex buffer of the quad, where `contents` are its vertices as they
/// lie in memory. There is one exactly where `contents` holds four vertices
/// of 20 bytes each; its usage is then that of a vertex buffer, and its
/// contents are the bytes that were given.
pub fn vertex_buffer(contents: Vec<u8>) -> (buffer: Option<BufferInitDescriptor>)
    ensures
        buffer is Some <==> contents@.len() == QUAD_VERTEX_COUNT * QUAD_VERTEX_STRIDE,
        buffer matches Some(made) ==> made.contents@ == contents@ && made.usage.bits == BUFFER_VERTEX,
{
    let expected: u64 = QUAD_VERTEX_COUNT as u64 * QUAD_VERTEX_STRIDE;
    if contents.len() as u64 == expected {
        Some(BufferInitDescriptor { contents, usage: BufferUsages::vertex() })
    } else {
        None
    }
}

/// The quad is two triangles over four vertices: each index names a vertex,
/// and each vertex is named.
pub proof fn lemma_quad_covers()
    ensures
        spec_quad_indices().len() == QUAD_INDEX_COUNT,
        forall|i: int| 0 <= i < 6 ==> (#[trigger] spec_quad_indices()[i]) < QUAD_VERTEX_COUNT,
        forall|v: u16| v < QUAD_VERTEX_COUNT ==> spec_quad_indices().contains(v),
{
    let indices = spec_quad_indices();
    assert forall|v: u16| v < QUAD_VERTEX_COUNT implies indices.contains(v) by {
        if v == 0 {
            assert(indices[0] == v);
        } else if v == 1 {
            assert(indices[1] == v);
        } else if v == 2 {
            assert(indices[2] == v);
        } else {
            assert(indices[4] == v);
        }
    }
}

/// Bytes that hold a sequence of indices hold no other sequence: the indices
/// can be read back once the byte order is known.
pub proof fn lemma_encoding_injective(first: Seq<u16>, second: Seq<u16>, bytes: Seq<u8>)
    requires
        encodes_low_first(first, bytes) && encodes_low_first(second, bytes)
            || encodes_high_first(first, bytes) && encodes_high_first(second, bytes),
    ensures
        first == second,
{
    assert(first.len() == second.len());
    assert forall|i: int| 0 <= i < first.len() implies first[i] == second[i] by {
        if encodes_low_first(first, bytes) && encodes_low_first(second, bytes) {
            assert(halves(first[i], bytes[2 * i], bytes[2 * i + 1]));
            assert(halves(second[i], bytes[2 * i], bytes[2 * i + 1]));
        } else {
            assert(halves(first[i], bytes[2 * i + 1], bytes[2 * i]));
            assert(halves(second[i], bytes[2 * i + 1], bytes[2 * i]));
        }
    }
    assert(first =~= second);
}

} // verus!
