//! The renderer: everything that the GPU objects are made from, the commands
//! of each frame, and the one thing that changes after startup, which is the
//! size of the surface.

use vstd::prelude::*;
use crate::rendering::binding::{
    bind_group, bind_group_layout, group_answers_layout, lemma_group_answers_layout, spec_bind_group,
    spec_bind_group_layout, BindGroupEntry, BindGroupLayoutEntry, SamplerDescriptor,
};
use crate::rendering::frame::{
    frame_commands, lemma_frame_completes, lemma_frames_complete, repeat, run, spec_frame_commands,
    spec_stage_copy, FrameCommand, FrameContext, FramePhase, Timeline,
};
use crate::rendering::flags::BUFFER_INDEX;
use crate::rendering::geometry::{
    encodes, index_buffer, lemma_quad_covers, quad_indices, spec_quad_indices, BufferInitDescriptor,
    QUAD_INDEX_COUNT,
};
use crate::rendering::pipeline::PipelineSet;
use crate::rendering::surface::{PhysicalSize, SurfaceConfiguration};
use crate::rendering::texture::{lemma_pair_wf, Extent3d, TexturePair};

verus! {

/// The renderer as a value: what each of its parts is made from.
pub struct RendererView {
    pub surface: SurfaceConfiguration,
    pub texture_size: Extent3d,
    pub textures: TexturePair,
    pub sampler: SamplerDescriptor,
    pub bind_group: Seq<BindGroupEntry>,
    pub pipelines: PipelineSet,
    pub indices: Seq<u16>,
}

impl RendererView {
    /// The bind-group layout, which is the one that the pipelines hold.
    pub open spec fn bind_group_layout(self) -> Seq<BindGroupLayoutEntry> {
        self.pipelines.layout@
    }

    /// The renderer as it is built for a surface of the size `size` whose
    /// texels have the format `format`.
    pub open spec fn is_initial(self, format: wgpu::TextureFormat, size: PhysicalSize) -> bool {
        &&& self.surface == SurfaceConfiguration::spec_new(format, size)
        &&& self.texture_size == Extent3d::spec_fixed()
        &&& self.textures == TexturePair::spec_new(self.texture_size)
        &&& self.sampler == SamplerDescriptor::spec_display()
        &&& self.bind_group == spec_bind_group()
        &&& self.pipelines.built_from(format, spec_bind_group_layout())
        &&& self.pipelines.render.vertex_buffer.wf()
        &&& self.indices == spec_quad_indices()
    }

    /// The rules that couple the parts of a renderer. They say that the
    /// renderer is what would be built anew for its surface's format and
    /// present size: the textures have the fixed extent, the pipelines share
    /// the one layout, the render target has the surface's format.
    pub open spec fn wf(self) -> bool {
        self.is_initial(self.surface.format, self.surface.spec_size())
    }

    /// The renderer after its surface got the size `size`.
    pub open spec fn resized(self, size: PhysicalSize) -> RendererView {
        RendererView { surface: self.surface.spec_resized(size), ..self }
    }

    /// The commands of one frame of this renderer.
    pub open spec fn frame(self) -> Seq<FrameCommand> {
        spec_frame_commands(self.texture_size, self.indices.len() as u32)
    }

    /// What the commands of a frame refer to.
    pub open spec fn frame_context(self) -> FrameContext {
        FrameContext { textures: self.textures, index_count: self.indices.len() }
    }
}

/// Everything that the renderer's GPU objects are made from. Only the size
/// of the surface changes after startup; the textures, the bindings, the
/// pipelines and the quad stay as they were built.
pub struct Renderer {
    surface_configuration: SurfaceConfiguration,
    texture_size: Extent3d,
    textures: TexturePair,
    sampler: SamplerDescriptor,
    bind_group: Vec<BindGroupEntry>,
    pipelines: PipelineSet,
    indices: Vec<u16>,
}

impl View for Renderer {
    type V = RendererView;

    closed spec fn view(&self) -> RendererView {
        RendererView {
            surface: self.surface_configuration,
            texture_size: self.texture_size,
            textures: self.textures,
            sampler: self.sampler,
            bind_group: self.bind_group@,
            pipelines: self.pipelines,
            indices: self.indices@,
        }
    }
}

impl Renderer {
    #[verifier::type_invariant]
    spec fn inv(&self) -> bool {
        self@.wf()
    }

    /// The renderer for a window of the size `size` on a surface that
    /// supports `supported_formats`, of which the first is taken. Without a
    /// supported format there is no renderer: the surface and the adapter do
    /// not go together.
    pub fn new(size: PhysicalSize, supported_formats: &[wgpu::TextureFormat]) -> (renderer: Option<Renderer>)
        ensures
            renderer is None <==> supported_formats@.len() == 0,
            renderer matches Some(r) ==> r@.is_initial(supported_formats@[0], size) && r@.wf(),
    {
        if supported_formats.len() == 0 {
            return None;
        }
        let format = supported_formats[0];
        let texture_size = Extent3d::fixed();
        let renderer = Renderer {
            surface_configuration: SurfaceConfiguration::new(format, size),
            texture_size,
            textures: TexturePair::new(texture_size),
            sampler: SamplerDescriptor::display(),
            bind_group: bind_group(),
            pipelines: PipelineSet::build(format, bind_group_layout()),
            indices: quad_indices(),
        };
        Some(renderer)
    }

    /// The commands of one frame, in their order. They depend on the fixed
    /// extent of the textures and on the quad, and not on the size of the
    /// surface.
    pub fn render(&self) -> (commands: Vec<FrameCommand>)
        ensures
            commands@ == self@.frame(),
            self@.wf(),
    {
        proof {
            use_type_invariant(self);
        }
        frame_commands(self.texture_size, self.indices.len() as u32)
    }

    /// Gives the surface the size `size`. Its usage, format and present mode
    /// stay, and so does every other part of the renderer.
    pub fn resize(&mut self, size: PhysicalSize)
        ensures
            final(self)@ == old(self)@.resized(size),
            final(self)@.wf(),
    {
        proof {
            use_type_invariant(&*self);
        }
        self.surface_configuration = self.surface_configuration.resized(size);
    }

    /// What the surface is configured with at present.
    pub fn surface_configuration(&self) -> (config: SurfaceConfiguration)
        ensures
            config == self@.surface,
            self@.wf(),
    {
        proof {
            use_type_invariant(self);
        }
        self.surface_configuration
    }

    /// The fixed extent of the two textures.
    pub fn texture_size(&self) -> (size: Extent3d)
        ensures
            size == self@.texture_size,
            self@.wf(),
    {
        proof {
            use_type_invariant(self);
        }
        self.texture_size
    }

    /// What the two textures are created from.
    pub fn textures(&self) -> (textures: TexturePair)
        ensures
            textures == self@.textures,
            self@.wf(),
    {
        proof {
            use_type_invariant(self);
        }
        self.textures
    }

    /// What the sampler is created from.
    pub fn sampler(&self) -> (sampler: SamplerDescriptor)
        ensures
            sampler == self@.sampler,
            self@.wf(),
    {
        proof {
            use_type_invariant(self);
        }
        self.sampler
    }

    /// The bind-group layout that both pipelines are built on.
    pub fn bind_group_layout(&self) -> (entries: &Vec<BindGroupLayoutEntry>)
        ensures
            entries@ == self@.bind_group_layout(),
            self@.wf(),
    {
        proof {
            use_type_invariant(self);
        }
        &self.pipelines.layout
    }

    /// The bind group that both passes bind.
    pub fn bind_group(&self) -> (entries: &Vec<BindGroupEntry>)
        ensures
            entries@ == self@.bind_group,
            self@.wf(),
    {
        proof {
            use_type_invariant(self);
        }
        &self.bind_group
    }

    /// What the two pipelines are created from.
    pub fn pipelines(&self) -> (pipelines: &PipelineSet)
        ensures
            *pipelines == self@.pipelines,
            self@.wf(),
    {
        proof {
            use_type_invariant(self);
        }
        &self.pipelines
    }

    /// The quad's indices.
    pub fn indices(&self) -> (indices: &Vec<u16>)
        ensures
            indices@ == self@.indices,
            self@.wf(),
    {
        proof {
            use_type_invariant(self);
        }
        &self.indices
    }

    /// What the quad's index buffer is created from: the indices as they lie
    /// in memory, two bytes each.
    pub fn index_buffer(&self) -> (buffer: BufferInitDescriptor)
        ensures
            buffer.usage.bits == BUFFER_INDEX,
            buffer.contents@.len() == 2 * self@.indices.len(),
            encodes(self@.indices, buffer.contents@),
            self@.wf(),
    {
        proof {
            use_type_invariant(self);
        }
        index_buffer(self.indices.as_slice())
    }
}

/// After a resize the surface has the size that was asked for, and the
/// textures keep their extent, which is the fixed one. Nothing but the
/// surface's size differs from before.
pub proof fn lemma_resize_sets_size(renderer: RendererView, size: PhysicalSize)
    requires
        renderer.wf(),
    ensures
        renderer.resized(size).surface.width == size.width,
        renderer.resized(size).surface.height == size.height,
        renderer.resized(size).surface.format == renderer.surface.format,
        renderer.resized(size).surface.present_mode == renderer.surface.present_mode,
        renderer.resized(size).surface.usage == renderer.surface.usage,
        renderer.resized(size).texture_size == Extent3d::spec_fixed(),
        renderer.resized(size).textures == renderer.textures,
        renderer.resized(size).textures.output.size == Extent3d::spec_fixed(),
        renderer.resized(size).textures.display.size == Extent3d::spec_fixed(),
        renderer.resized(size).wf(),
        renderer.resized(size).is_initial(renderer.surface.format, size),
{
}

/// Resizing twice to one size gives what resizing once gives, and of two
/// resizes in a row only the last one counts.
pub proof fn lemma_resize_idempotent(renderer: RendererView, first: PhysicalSize, last: PhysicalSize)
    ensures
        renderer.resized(last).resized(last) == renderer.resized(last),
        renderer.resized(first).resized(last) == renderer.resized(last),
{
}

/// The copy of a frame takes all of the fixed extent from the output to the
/// display texture, whatever size the surface has and whatever resizes came
/// before: the commands of a frame are the same before and after a resize.
pub proof fn lemma_copy_ignores_surface(renderer: RendererView, size: PhysicalSize)
    requires
        renderer.wf(),
    ensures
        renderer.frame()[2] == FrameCommand::Copy(spec_stage_copy(Extent3d::spec_fixed())),
        renderer.resized(size).frame() == renderer.frame(),
{
}

/// The parts of a renderer fit together: the bind group answers the layout
/// that both pipelines share, the render target has the format of the
/// surface, and the commands of a frame find what they refer to.
pub proof fn lemma_parts_fit(renderer: RendererView)
    requires
        renderer.wf(),
    ensures
        group_answers_layout(
            renderer.bind_group_layout(),
            renderer.bind_group,
            renderer.textures,
            renderer.sampler,
        ),
        renderer.pipelines.render.target_format == renderer.surface.format,
        renderer.textures.wf(),
        renderer.frame_context().wf(),
        renderer.indices.len() == QUAD_INDEX_COUNT,
{
    lemma_group_answers_layout(renderer.texture_size);
    lemma_pair_wf(renderer.texture_size);
    lemma_quad_covers();
}

/// Each call of `render` yields one whole frame: from a state between
/// frames, the commands of `times` frames are accepted one after the other,
/// `times` more frames are then submitted and presented, and no frame is
/// left under way. The commands name existing textures and buffers only, so
/// the renderer's parts are the same before and after.
pub proof fn lemma_renders_complete(renderer: RendererView, timeline: Timeline, times: nat)
    requires
        renderer.wf(),
        timeline.phase == FramePhase::Idle,
    ensures
        repeat(renderer.frame_context(), timeline, renderer.frame(), times) is Some,
        repeat(renderer.frame_context(), timeline, renderer.frame(), times)->0.phase == FramePhase::Idle,
        repeat(renderer.frame_context(), timeline, renderer.frame(), times)->0.submitted == timeline.submitted
            + times,
        repeat(renderer.frame_context(), timeline, renderer.frame(), times)->0.presented == timeline.presented
            + times,
{
    lemma_parts_fit(renderer);
    lemma_frames_complete(renderer.frame_context(), timeline, renderer.indices.len() as u32, times);
}

/// One frame of a renderer shows the image that this frame computed: after
/// its commands, the image that was presented last is the one that the
/// compute pass of the same frame wrote to the output texture.
pub proof fn lemma_render_shows_computed_image(renderer: RendererView, timeline: Timeline)
    requires
        renderer.wf(),
        timeline.phase == FramePhase::Idle,
    ensures
        run(renderer.frame_context(), timeline, renderer.frame()) is Some,
        run(renderer.frame_context(), timeline, renderer.frame())->0.shown_image == run(
            renderer.frame_context(),
            timeline,
            renderer.frame(),
        )->0.output_image,
        run(renderer.frame_context(), timeline, renderer.frame())->0.output_image == timeline.submitted + 1,
{
    lemma_parts_fit(renderer);
    lemma_frame_completes(renderer.frame_context(), timeline, renderer.indices.len() as u32);
}

} // verus!
