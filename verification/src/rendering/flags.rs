//! Usage and visibility flag sets, in the bit encoding of the graphics API.
//!
//! Each set is a `u32` whose bits are the API's own: the single flags are
//! read from `wgpu` when a set is built, so a set can be handed back to the
//! API bit for bit.

use vstd::prelude::*;

verus! {

/// Bit of a texture that may be the source of a copy.
pub const TEXTURE_COPY_SRC: u32 = 0x01;

/// Bit of a texture that may be the destination of a copy.
pub const TEXTURE_COPY_DST: u32 = 0x02;

/// Bit of a texture that may be bound as a sampled texture.
pub const TEXTURE_BINDING: u32 = 0x04;

/// Bit of a texture that may be bound as a storage texture.
pub const TEXTURE_STORAGE_BINDING: u32 = 0x08;

/// Bit of a texture that may be the color target of a render pass.
pub const TEXTURE_RENDER_ATTACHMENT: u32 = 0x10;

/// Bit of a binding that the vertex stage sees.
pub const STAGE_VERTEX: u32 = 0x01;

/// Bit of a binding that the fragment stage sees.
pub const STAGE_FRAGMENT: u32 = 0x02;

/// Bit of a binding that the compute stage sees.
pub const STAGE_COMPUTE: u32 = 0x04;

/// The bits of a binding that every stage sees.
pub const STAGE_ALL: u32 = 0x07;

/// Bit of a buffer that may be the index buffer of a draw.
pub const BUFFER_INDEX: u32 = 0x10;

/// Bit of a buffer that may be the vertex buffer of a draw.
pub const BUFFER_VERTEX: u32 = 0x20;

/// `wgpu::TextureUsages::COPY_SRC`, as bits. The crate defines the flag as
/// `1 << 0`.
#[verifier::external_body]
fn wgpu_texture_copy_src() -> (bits: u32)
    ensures
        bits == TEXTURE_COPY_SRC,
{
    wgpu::TextureUsages::COPY_SRC.bits()
}

/// `wgpu::TextureUsages::COPY_DST`, as bits. The crate defines the flag as
/// `1 << 1`.
#[verifier::external_body]
fn wgpu_texture_copy_dst() -> (bits: u32)
    ensures
        bits == TEXTURE_COPY_DST,
{
    wgpu::TextureUsages::COPY_DST.bits()
}

/// `wgpu::TextureUsages::TEXTURE_BINDING`, as bits. The crate defines the
/// flag as `1 << 2`.
#[verifier::external_body]
fn wgpu_texture_binding() -> (bits: u32)
    ensures
        bits == TEXTURE_BINDING,
{
    wgpu::TextureUsages::TEXTURE_BINDING.bits()
}

/// `wgpu::TextureUsages::STORAGE_BINDING`, as bits. The crate defines the
/// flag as `1 << 3`.
#[verifier::external_body]
fn wgpu_texture_storage_binding() -> (bits: u32)
    ensures
        bits == TEXTURE_STORAGE_BINDING,
{
    wgpu::TextureUsages::STORAGE_BINDING.bits()
}

/// `wgpu::TextureUsages::RENDER_ATTACHMENT`, as bits. The crate defines the
/// flag as `1 << 4`.
#[verifier::external_body]
fn wgpu_texture_render_attachment() -> (bits: u32)
    ensures
        bits == TEXTURE_RENDER_ATTACHMENT,
{
    wgpu::TextureUsages::RENDER_ATTACHMENT.bits()
}

/// `wgpu::ShaderStages::FRAGMENT`, as bits. The crate defines the flag as
/// `1 << 1`.
#[verifier::external_body]
fn wgpu_stage_fragment() -> (bits: u32)
    ensures
        bits == STAGE_FRAGMENT,
{
    wgpu::ShaderStages::FRAGMENT.bits()
}

/// `wgpu::ShaderStages::COMPUTE`, as bits. The crate defines the flag as
/// `1 << 2`.
#[verifier::external_body]
fn wgpu_stage_compute() -> (bits: u32)
    ensures
        bits == STAGE_COMPUTE,
{
    wgpu::ShaderStages::COMPUTE.bits()
}

/// `wgpu::ShaderStages::all()`, as bits: the union of the flags that the
/// crate defines, which are the vertex, fragment and compute stages at
/// `1 << 0`, `1 << 1` and `1 << 2`.
#[verifier::external_body]
fn wgpu_stage_all() -> (bits: u32)
    ensures
        bits == STAGE_ALL,
{
    wgpu::ShaderStages::all().bits()
}

/// `wgpu::BufferUsages::INDEX`, as bits. The crate defines the flag as
/// `1 << 4`.
#[verifier::external_body]
fn wgpu_buffer_index() -> (bits: u32)
    ensures
        bits == BUFFER_INDEX,
{
    wgpu::BufferUsages::INDEX.bits()
}

/// `wgpu::BufferUsages::VERTEX`, as bits. The crate defines the flag as
/// `1 << 5`.
#[verifier::external_body]
fn wgpu_buffer_vertex() -> (bits: u32)
    ensures
        bits == BUFFER_VERTEX,
{
    wgpu::BufferUsages::VERTEX.bits()
}

/// The ways in which a texture may be used.
#[derive(Clone, Copy, Debug, PartialEq, Eq, Structural)]
pub struct TextureUsages {
    pub bits: u32,
}

impl TextureUsages {
    /// Every flag of `other` is also a flag of `self`.
    pub open spec fn spec_contains(self, other: TextureUsages) -> bool {
        self.bits & other.bits == other.bits
    }

    /// The set that holds the flags of `self` and those of `other`.
    pub open spec fn spec_union(self, other: TextureUsages) -> TextureUsages {
        TextureUsages { bits: self.bits | other.bits }
    }

    /// A texture that copies may read.
    pub fn copy_src() -> (usage: Self)
        ensures
            usage.bits == TEXTURE_COPY_SRC,
    {
        TextureUsages { bits: wgpu_texture_copy_src() }
    }

    /// A texture that copies may write.
    pub fn copy_dst() -> (usage: Self)
        ensures
            usage.bits == TEXTURE_COPY_DST,
    {
        TextureUsages { bits: wgpu_texture_copy_dst() }
    }

    /// A texture that shaders may sample.
    pub fn texture_binding() -> (usage: Self)
        ensures
            usage.bits == TEXTURE_BINDING,
    {
        TextureUsages { bits: wgpu_texture_binding() }
    }

    /// A texture that shaders may access as a storage image.
    pub fn storage_binding() -> (usage: Self)
        ensures
            usage.bits == TEXTURE_STORAGE_BINDING,
    {
        TextureUsages { bits: wgpu_texture_storage_binding() }
    }

    /// A texture that a render pass may draw into.
    pub fn render_attachment() -> (usage: Self)
        ensures
            usage.bits == TEXTURE_RENDER_ATTACHMENT,
    {
        TextureUsages { bits: wgpu_texture_render_attachment() }
    }

    /// The flags of `self` together with those of `other`.
    #[verifier::when_used_as_spec(spec_union)]
    pub fn union(self, other: TextureUsages) -> (both: Self)
        ensures
            both == self.spec_union(other),
            both.spec_contains(self),
            both.spec_contains(other),
    {
        let bits: u32 = self.bits | other.bits;
        proof {
            let a: u32 = self.bits;
            let b: u32 = other.bits;
            assert((a | b) & a == a && (a | b) & b == b) by (bit_vector);
        }
        TextureUsages { bits }
    }

    /// Whether every flag of `other` is also a flag of `self`.
    #[verifier::when_used_as_spec(spec_contains)]
    pub fn contains(self, other: TextureUsages) -> (all: bool)
        ensures
            all == self.spec_contains(other),
    {
        self.bits & other.bits == other.bits
    }
}

/// The shader stages that see a binding.
#[derive(Clone, Copy, Debug, PartialEq, Eq, Structural)]
pub struct ShaderStages {
    pub bits: u32,
}

impl ShaderStages {
    /// Every stage of `other` is also a stage of `self`.
    pub open spec fn spec_contains(self, other: ShaderStages) -> bool {
        self.bits & other.bits == other.bits
    }

    /// The fragment stage alone.
    pub fn fragment() -> (stages: Self)
        ensures
            stages.bits == STAGE_FRAGMENT,
    {
        ShaderStages { bits: wgpu_stage_fragment() }
    }

    /// The compute stage alone.
    pub fn compute() -> (stages: Self)
        ensures
            stages.bits == STAGE_COMPUTE,
    {
        ShaderStages { bits: wgpu_stage_compute() }
    }

    /// The vertex, fragment and compute stages.
    pub fn all() -> (stages: Self)
        ensures
            stages.bits == STAGE_ALL,
    {
        ShaderStages { bits: wgpu_stage_all() }
    }

    /// Whether every stage of `other` is also a stage of `self`.
    #[verifier::when_used_as_spec(spec_contains)]
    pub fn contains(self, other: ShaderStages) -> (all: bool)
        ensures
            all == self.spec_contains(other),
    {
        self.bits & other.bits == other.bits
    }
}

/// The ways in which a buffer may be used.
#[derive(Clone, Copy, Debug, PartialEq, Eq, Structural)]
pub struct BufferUsages {
    pub bits: u32,
}

impl BufferUsages {
    /// A buffer that a draw may read indices from.
    pub fn index() -> (usage: Self)
        ensures
            usage.bits == BUFFER_INDEX,
    {
        BufferUsages { bits: wgpu_buffer_index() }
    }

    /// A buffer that a draw may read vertices from.
    pub fn vertex() -> (usage: Self)
        ensures
            usage.bits == BUFFER_VERTEX,
    {
        BufferUsages { bits: wgpu_buffer_vertex() }
    }
}

/// The stages named by `STAGE_ALL` are the vertex, fragment and compute
/// stages and no other.
pub proof fn lemma_all_stages()
    ensures
        STAGE_ALL == STAGE_VERTEX | STAGE_FRAGMENT | STAGE_COMPUTE,
        STAGE_ALL & STAGE_VERTEX == STAGE_VERTEX,
        STAGE_ALL & STAGE_FRAGMENT == STAGE_FRAGMENT,
        STAGE_ALL & STAGE_COMPUTE == STAGE_COMPUTE,
{
    assert(0x07u32 == 0x01u32 | 0x02u32 | 0x04u32) by (bit_vector);
    assert(0x07u32 & 0x01u32 == 0x01u32) by (bit_vector);
    assert(0x07u32 & 0x02u32 == 0x02u32) by (bit_vector);
    assert(0x07u32 & 0x04u32 == 0x04u32) by (bit_vector);
}

} // verus!
