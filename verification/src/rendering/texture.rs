//! The two fixed-size textures that carry the image from the compute stage
//! to the display stage.

use vstd::prelude::*;
use crate::rendering::flags::TextureUsages;
use crate::rendering::flags::{
    TEXTURE_BINDING, TEXTURE_COPY_DST, TEXTURE_COPY_SRC, TEXTURE_STORAGE_BINDING,
};

verus! {

/// Width in texels of the image that the compute stage produces.
pub const COMPUTE_WIDTH: u32 = 1280;

/// Height in texels of the image that the compute stage produces.
pub const COMPUTE_HEIGHT: u32 = 720;

/// The flags of the texture that the compute stage writes: copy source and
/// storage binding.
pub const OUTPUT_USAGE: u32 = 0x09;

/// The flags of the texture that the display stage samples: copy destination
/// and texture binding.
pub const DISPLAY_USAGE: u32 = 0x06;

/// The size of a texture or of a region of one.
#[derive(Clone, Copy, Debug, PartialEq, Eq, Structural)]
pub struct Extent3d {
    pub width: u32,
    pub height: u32,
    pub depth_or_array_layers: u32,
}

/// The corner of a region of a texture.
#[derive(Clone, Copy, Debug, PartialEq, Eq, Structural)]
pub struct Origin3d {
    pub x: u32,
    pub y: u32,
    pub z: u32,
}

/// The number of dimensions of a texture.
#[derive(Clone, Copy, Debug, PartialEq, Eq, Structural)]
pub enum TextureDimension {
    D1,
    D2,
    D3,
}

/// The texel formats with four channels of eight bits.
#[derive(Clone, Copy, Debug, PartialEq, Eq, Structural)]
pub enum TexelFormat {
    Rgba8Unorm,
    Rgba8UnormSrgb,
    Bgra8Unorm,
    Bgra8UnormSrgb,
}

/// What a texture is created from.
#[derive(Clone, Copy, Debug, PartialEq, Eq, Structural)]
pub struct TextureDescriptor {
    pub size: Extent3d,
    pub mip_level_count: u32,
    pub sample_count: u32,
    pub dimension: TextureDimension,
    pub format: TexelFormat,
    pub usage: TextureUsages,
}

/// The texture that the compute stage writes and the texture that the
/// display stage samples.
#[derive(Clone, Copy, Debug, PartialEq, Eq, Structural)]
pub struct TexturePair {
    pub output: TextureDescriptor,
    pub display: TextureDescriptor,
}

impl Extent3d {
    /// The extent of the image that the compute stage produces.
    pub open spec fn spec_fixed() -> Extent3d {
        Extent3d { width: COMPUTE_WIDTH, height: COMPUTE_HEIGHT, depth_or_array_layers: 1 }
    }

    /// The extent of the image that the compute stage produces: 1280 by 720
    /// texels in one layer, whatever the window's size.
    #[verifier::when_used_as_spec(spec_fixed)]
    pub fn fixed() -> (extent: Extent3d)
        ensures
            extent == Extent3d::spec_fixed(),
    {
        Extent3d { width: COMPUTE_WIDTH, height: COMPUTE_HEIGHT, depth_or_array_layers: 1 }
    }

    /// The region that starts at `origin` and has the size `region` lies
    /// within a texture of the size `self`.
    pub open spec fn holds(self, origin: Origin3d, region: Extent3d) -> bool {
        &&& origin.x + region.width <= self.width
        &&& origin.y + region.height <= self.height
        &&& origin.z + region.depth_or_array_layers <= self.depth_or_array_layers
    }
}

impl Origin3d {
    /// The corner at which every coordinate is zero.
    pub open spec fn spec_zero() -> Origin3d {
        Origin3d { x: 0, y: 0, z: 0 }
    }

    /// The corner at which every coordinate is zero.
    #[verifier::when_used_as_spec(spec_zero)]
    pub fn zero() -> (origin: Origin3d)
        ensures
            origin == Origin3d::spec_zero(),
    {
        Origin3d { x: 0, y: 0, z: 0 }
    }
}

impl TexelFormat {
    /// The number of bytes that one texel takes.
    pub open spec fn spec_bytes_per_texel(self) -> nat {
        4
    }

    /// The number of bytes that one texel takes.
    pub fn bytes_per_texel(self) -> (bytes: u32)
        ensures
            bytes == self.spec_bytes_per_texel(),
    {
        4
    }
}

impl TextureDescriptor {
    /// The texture of the size `size` that the compute stage writes.
    pub open spec fn spec_output(size: Extent3d) -> TextureDescriptor {
        TextureDescriptor {
            size,
            mip_level_count: 1,
            sample_count: 1,
            dimension: TextureDimension::D2,
            format: TexelFormat::Rgba8Unorm,
            usage: TextureUsages { bits: OUTPUT_USAGE },
        }
    }

    /// The texture of the size `size` that the display stage samples.
    pub open spec fn spec_display(size: Extent3d) -> TextureDescriptor {
        TextureDescriptor {
            size,
            mip_level_count: 1,
            sample_count: 1,
            dimension: TextureDimension::D2,
            format: TexelFormat::Rgba8Unorm,
            usage: TextureUsages { bits: DISPLAY_USAGE },
        }
    }

    /// The number of bytes that the texture's first mip level takes.
    pub open spec fn spec_byte_size(self) -> nat {
        (self.size.width as nat) * (self.size.height as nat)
            * (self.size.depth_or_array_layers as nat) * self.format.spec_bytes_per_texel()
    }

    /// The texture of the size `size` that the compute stage writes: a
    /// two-dimensional RGBA8 texture with one mip level and one sample,
    /// usable as a copy source and as a storage binding, and as nothing else.
    #[verifier::when_used_as_spec(spec_output)]
    pub fn output(size: Extent3d) -> (texture: TextureDescriptor)
        ensures
            texture == TextureDescriptor::spec_output(size),
            texture.usage.spec_contains(TextureUsages { bits: TEXTURE_COPY_SRC }),
            texture.usage.spec_contains(TextureUsages { bits: TEXTURE_STORAGE_BINDING }),
    {
        let usage = TextureUsages::copy_src().union(TextureUsages::storage_binding());
        proof {
            lemma_usage_bits();
        }
        TextureDescriptor {
            size,
            mip_level_count: 1,
            sample_count: 1,
            dimension: TextureDimension::D2,
            format: TexelFormat::Rgba8Unorm,
            usage,
        }
    }

    /// The texture of the size `size` that the display stage samples: a
    /// two-dimensional RGBA8 texture with one mip level and one sample,
    /// usable as a copy destination and as a sampled binding, and as nothing
    /// else.
    #[verifier::when_used_as_spec(spec_display)]
    pub fn display(size: Extent3d) -> (texture: TextureDescriptor)
        ensures
            texture == TextureDescriptor::spec_display(size),
            texture.usage.spec_contains(TextureUsages { bits: TEXTURE_COPY_DST }),
            texture.usage.spec_contains(TextureUsages { bits: TEXTURE_BINDING }),
    {
        let usage = TextureUsages::copy_dst().union(TextureUsages::texture_binding());
        proof {
            lemma_usage_bits();
        }
        TextureDescriptor {
            size,
            mip_level_count: 1,
            sample_count: 1,
            dimension: TextureDimension::D2,
            format: TexelFormat::Rgba8Unorm,
            usage,
        }
    }

    /// The number of bytes that the texture's first mip level takes: width
    /// times height times layers times the bytes of one texel.
    pub fn byte_size(&self) -> (bytes: u128)
        ensures
            bytes == self.spec_byte_size(),
    {
        let width: u128 = self.size.width as u128;
        let height: u128 = self.size.height as u128;
        let layers: u128 = self.size.depth_or_array_layers as u128;
        let texel: u128 = self.format.bytes_per_texel() as u128;
        proof {
            assert(width * height <= 0xffff_ffff * 0xffff_ffff) by (nonlinear_arith)
                requires
                    width <= 0xffff_ffff,
                    height <= 0xffff_ffff,
            ;
            assert(width * height * layers <= 0xffff_ffff * 0xffff_ffff * 0xffff_ffff)
                by (nonlinear_arith)
                requires
                    width * height <= 0xffff_ffff * 0xffff_ffff,
                    layers <= 0xffff_ffff,
            ;
        }
        width * height * layers * texel
    }
}

impl TexturePair {
    /// The pair of textures of the size `size`.
    pub open spec fn spec_new(size: Extent3d) -> TexturePair {
        TexturePair {
            output: TextureDescriptor::spec_output(size),
            display: TextureDescriptor::spec_display(size),
        }
    }

    /// The rules that couple the two textures. They have one extent and one
    /// format; the output can be copied from and written as a storage image;
    /// the display can be copied to and sampled. The output cannot be
    /// sampled and the display cannot be written as a storage image, so a
    /// copy is the only way from one to the other.
    pub open spec fn wf(self) -> bool {
        &&& self.output.size == self.display.size
        &&& self.output.format == self.display.format
        &&& self.output.mip_level_count == 1
        &&& self.display.mip_level_count == 1
        &&& self.output.usage.spec_contains(TextureUsages { bits: TEXTURE_COPY_SRC })
        &&& self.output.usage.spec_contains(TextureUsages { bits: TEXTURE_STORAGE_BINDING })
        &&& self.display.usage.spec_contains(TextureUsages { bits: TEXTURE_COPY_DST })
        &&& self.display.usage.spec_contains(TextureUsages { bits: TEXTURE_BINDING })
        &&& self.output.usage.bits & TEXTURE_BINDING == 0
        &&& self.display.usage.bits & TEXTURE_STORAGE_BINDING == 0
    }

    /// The pair of textures of the size `size`.
    #[verifier::when_used_as_spec(spec_new)]
    pub fn new(size: Extent3d) -> (pair: TexturePair)
        ensures
            pair == TexturePair::spec_new(size),
            pair.wf(),
    {
        proof {
            lemma_pair_wf(size);
        }
        TexturePair { output: TextureDescriptor::output(size), display: TextureDescriptor::display(size) }
    }
}

/// What the two usage sets are made of, bit by bit.
proof fn lemma_usage_bits()
    ensures
        TEXTURE_COPY_SRC | TEXTURE_STORAGE_BINDING == OUTPUT_USAGE,
        TEXTURE_COPY_DST | TEXTURE_BINDING == DISPLAY_USAGE,
        OUTPUT_USAGE & TEXTURE_COPY_SRC == TEXTURE_COPY_SRC,
        OUTPUT_USAGE & TEXTURE_STORAGE_BINDING == TEXTURE_STORAGE_BINDING,
        OUTPUT_USAGE & TEXTURE_BINDING == 0,
        DISPLAY_USAGE & TEXTURE_COPY_DST == TEXTURE_COPY_DST,
        DISPLAY_USAGE & TEXTURE_BINDING == TEXTURE_BINDING,
        DISPLAY_USAGE & TEXTURE_STORAGE_BINDING == 0,
{
    assert(0x01u32 | 0x08u32 == 0x09u32) by (bit_vector);
    assert(0x02u32 | 0x04u32 == 0x06u32) by (bit_vector);
    assert(0x09u32 & 0x01u32 == 0x01u32) by (bit_vector);
    assert(0x09u32 & 0x08u32 == 0x08u32) by (bit_vector);
    assert(0x09u32 & 0x04u32 == 0u32) by (bit_vector);
    assert(0x06u32 & 0x02u32 == 0x02u32) by (bit_vector);
    assert(0x06u32 & 0x04u32 == 0x04u32) by (bit_vector);
    assert(0x06u32 & 0x08u32 == 0u32) by (bit_vector);
}

/// The pair of textures of any size obeys the rules that couple the two.
pub proof fn lemma_pair_wf(size: Extent3d)
    ensures
        TexturePair::spec_new(size).wf(),
{
    lemma_usage_bits();
}

} // verus!
