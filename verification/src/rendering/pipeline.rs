//! The compute pipeline and the render pipeline, built on one layout.

use vstd::prelude::*;
use crate::rendering::binding::BindGroupLayoutEntry;
use crate::rendering::geometry::VertexBufferLayout;

verus! {

/// Index at which both passes bind the shared bind group.
pub const BIND_GROUP_INDEX: u32 = 0;

/// Slot at which the render pass binds the quad's vertex buffer.
pub const VERTEX_BUFFER_SLOT: u32 = 0;

/// How the vertices of a draw are assembled into primitives.
#[derive(Clone, Copy, Debug, PartialEq, Eq, Structural)]
pub enum PrimitiveTopology {
    PointList,
    LineList,
    LineStrip,
    TriangleList,
    TriangleStrip,
}

/// What the compute pipeline is created from, besides the shared layout and
/// the shader module.
#[derive(Clone, Copy, Debug, PartialEq, Eq)]
pub struct ComputePipelineDescriptor {
    pub entry_point: &'static str,
}

/// What the render pipeline is created from, besides the shared layout and
/// the shader module.
#[derive(Debug, PartialEq, Eq)]
pub struct RenderPipelineDescriptor {
    pub vertex_entry_point: &'static str,
    pub fragment_entry_point: &'static str,
    pub vertex_buffer: VertexBufferLayout,
    pub topology: PrimitiveTopology,
    pub target_format: wgpu::TextureFormat,
}

/// The two pipelines and the one bind-group layout that the pipeline layout
/// of both refers to.
#[derive(Debug, PartialEq, Eq)]
pub struct PipelineSet {
    pub layout: Vec<BindGroupLayoutEntry>,
    pub compute: ComputePipelineDescriptor,
    pub render: RenderPipelineDescriptor,
}

/// Name of the shader's compute entry point.
pub open spec fn spec_compute_entry_point() -> Seq<char> {
    "compute_main"@
}

/// Name of the shader's vertex entry point.
pub open spec fn spec_vertex_entry_point() -> Seq<char> {
    "vs_main"@
}

/// Name of the shader's fragment entry point.
pub open spec fn spec_fragment_entry_point() -> Seq<char> {
    "fs_main"@
}

impl PipelineSet {
    /// The pipelines of a renderer whose bind-group layout is `layout` and
    /// whose surface has the format `surface_format`.
    pub open spec fn built_from(self, surface_format: wgpu::TextureFormat, layout: Seq<BindGroupLayoutEntry>) -> bool {
        &&& self.layout@ == layout
        &&& self.compute.entry_point@ == spec_compute_entry_point()
        &&& self.render.vertex_entry_point@ == spec_vertex_entry_point()
        &&& self.render.fragment_entry_point@ == spec_fragment_entry_point()
        &&& self.render.vertex_buffer.is_quad()
        &&& self.render.topology == PrimitiveTopology::TriangleList
        &&& self.render.target_format == surface_format
    }

    /// The two pipelines over the bind-group layout `layout`. Both refer to
    /// that layout and to no other. The compute pipeline starts at
    /// `compute_main`; the render pipeline starts at `vs_main` and `fs_main`,
    /// reads the quad's vertices as a list of triangles and writes a target
    /// of the format `surface_format`.
    pub fn build(surface_format: wgpu::TextureFormat, layout: Vec<BindGroupLayoutEntry>) -> (set: PipelineSet)
        ensures
            set.built_from(surface_format, layout@),
            set.render.vertex_buffer.wf(),
    {
        PipelineSet {
            layout,
            compute: ComputePipelineDescriptor { entry_point: "compute_main" },
            render: RenderPipelineDescriptor {
                vertex_entry_point: "vs_main",
                fragment_entry_point: "fs_main",
                vertex_buffer: VertexBufferLayout::quad(),
                topology: PrimitiveTopology::TriangleList,
                target_format: surface_format,
            },
        }
    }
}

} // verus!
