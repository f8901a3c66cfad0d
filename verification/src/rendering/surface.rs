//! The configuration of the presentable surface.

use vstd::prelude::*;
use crate::rendering::flags::TextureUsages;
use crate::rendering::flags::TEXTURE_RENDER_ATTACHMENT;

verus! {

/// `wgpu::TextureFormat`: the texel format of a surface, as the graphics API
/// reports it. The library carries a value of it from the surface to the
/// render target and never looks inside.
#[verifier::external_type_specification]
#[verifier::external_body]
pub struct ExTextureFormat(wgpu::TextureFormat);

/// A size in physical pixels.
#[derive(Clone, Copy, Debug, PartialEq, Eq, Structural)]
pub struct PhysicalSize {
    pub width: u32,
    pub height: u32,
}

/// How finished frames are handed to the display.
#[derive(Clone, Copy, Debug, PartialEq, Eq, Structural)]
pub enum PresentMode {
    AutoVsync,
    AutoNoVsync,
    /// Frames wait in a queue and are shown in the order of their
    /// submission, without tearing; a submission blocks while the queue is
    /// full.
    Fifo,
    FifoRelaxed,
    Immediate,
    Mailbox,
}

/// What the surface is configured with.
#[derive(Clone, Copy, Debug, PartialEq, Eq)]
pub struct SurfaceConfiguration {
    pub usage: TextureUsages,
    pub format: wgpu::TextureFormat,
    pub width: u32,
    pub height: u32,
    pub present_mode: PresentMode,
}

impl SurfaceConfiguration {
    /// The configuration of a surface of the size `size` whose texels have
    /// the format `format`.
    pub open spec fn spec_new(format: wgpu::TextureFormat, size: PhysicalSize) -> SurfaceConfiguration {
        SurfaceConfiguration {
            usage: TextureUsages { bits: TEXTURE_RENDER_ATTACHMENT },
            format,
            width: size.width,
            height: size.height,
            present_mode: PresentMode::Fifo,
        }
    }

    /// The same configuration at another size.
    pub open spec fn spec_resized(self, size: PhysicalSize) -> SurfaceConfiguration {
        SurfaceConfiguration { width: size.width, height: size.height, ..self }
    }

    /// The size that the configuration gives the surface.
    pub open spec fn spec_size(self) -> PhysicalSize {
        PhysicalSize { width: self.width, height: self.height }
    }

    /// The surface is a render target and nothing else, and its frames are
    /// presented first in, first out.
    pub open spec fn wf(self) -> bool {
        &&& self.usage.bits == TEXTURE_RENDER_ATTACHMENT
        &&& self.present_mode == PresentMode::Fifo
    }

    /// The configuration of a surface of the size `size` whose texels have
    /// the format `format`: a render target, presented first in, first out.
    #[verifier::when_used_as_spec(spec_new)]
    pub fn new(format: wgpu::TextureFormat, size: PhysicalSize) -> (config: SurfaceConfiguration)
        ensures
            config == SurfaceConfiguration::spec_new(format, size),
            config.wf(),
    {
        SurfaceConfiguration {
            usage: TextureUsages::render_attachment(),
            format,
            width: size.width,
            height: size.height,
            present_mode: PresentMode::Fifo,
        }
    }

    /// The same configuration at the size `size`: usage, format and present
    /// mode stay.
    #[verifier::when_used_as_spec(spec_resized)]
    pub fn resized(self, size: PhysicalSize) -> (config: SurfaceConfiguration)
        ensures
            config == self.spec_resized(size),
    {
        SurfaceConfiguration {
            usage: self.usage,
            format: self.format,
            width: size.width,
            height: size.height,
            present_mode: self.present_mode,
        }
    }

    /// The size that the configuration gives the surface.
    #[verifier::when_used_as_spec(spec_size)]
    pub fn size(self) -> (size: PhysicalSize)
        ensures
            size == self.spec_size(),
    {
        PhysicalSize { width: self.width, height: self.height }
    }
}

/// A resized configuration has the size that was asked for, and differs from
/// the one before in nothing but its size.
pub proof fn lemma_resized_size(config: SurfaceConfiguration, size: PhysicalSize)
    ensures
        config.spec_resized(size).spec_size() == size,
        config.spec_resized(size).usage == config.usage,
        config.spec_resized(size).format == config.format,
        config.spec_resized(size).present_mode == config.present_mode,
        config.wf() ==> config.spec_resized(size).wf(),
{
}

/// Resizing twice to one size gives what resizing once gives, and of two
/// sizes in a row only the last one counts.
pub proof fn lemma_resized_last_wins(config: SurfaceConfiguration, first: PhysicalSize, last: PhysicalSize)
    ensures
        config.spec_resized(last).spec_resized(last) == config.spec_resized(last),
        config.spec_resized(first).spec_resized(last) == config.spec_resized(last),
{
}

} // verus!
