//! The commands of one frame, and the order in which the device accepts
//! them.
//!
//! A frame is six commands on one command stream: acquire the surface
//! texture, run the compute pass, copy the output texture to the display
//! texture, run the render pass, submit, present. `Timeline` is the state
//! that these commands move, `step` says which command is accepted in which
//! state, and the lemmas show that the frame is accepted as a whole, any
//! number of times in a row, and that what is presented is the image that
//! was computed for that frame.

use vstd::prelude::*;
use crate::rendering::binding::Resource;
use crate::rendering::flags::{TEXTURE_COPY_DST, TEXTURE_COPY_SRC};
use crate::rendering::geometry::IndexFormat;
use crate::rendering::pipeline::{BIND_GROUP_INDEX, VERTEX_BUFFER_SLOT};
use crate::rendering::texture::{Extent3d, Origin3d, TexturePair};

verus! {

/// The most workgroups that a dispatch may ask for in one dimension.
pub const MAX_WORKGROUPS_PER_DIMENSION: u32 = 65535;

/// The colors that a render target can be cleared to.
#[derive(Clone, Copy, Debug, PartialEq, Eq, Structural)]
pub enum Color {
    Transparent,
    Black,
    White,
    Red,
    Green,
    Blue,
}

/// What a render pass does with its target before it draws.
#[derive(Clone, Copy, Debug, PartialEq, Eq, Structural)]
pub enum LoadOp {
    Clear(Color),
    Load,
}

/// The compute pass: the compute pipeline, the shared bind group at
/// `bind_group_index`, and one dispatch.
#[derive(Clone, Copy, Debug, PartialEq, Eq, Structural)]
pub struct ComputePass {
    pub bind_group_index: u32,
    pub workgroups_x: u32,
    pub workgroups_y: u32,
    pub workgroups_z: u32,
}

/// A copy of a region from one texture to another, all aspects.
#[derive(Clone, Copy, Debug, PartialEq, Eq, Structural)]
pub struct TextureCopy {
    pub source: Resource,
    pub source_mip_level: u32,
    pub source_origin: Origin3d,
    pub destination: Resource,
    pub destination_mip_level: u32,
    pub destination_origin: Origin3d,
    pub extent: Extent3d,
}

/// The render pass: one color target, which is the acquired surface texture,
/// the render pipeline, the shared bind group at `bind_group_index`, the
/// quad's buffers, and one indexed draw.
#[derive(Clone, Copy, Debug, PartialEq, Eq, Structural)]
pub struct RenderPass {
    pub load: LoadOp,
    pub store: bool,
    pub bind_group_index: u32,
    pub vertex_buffer_slot: u32,
    pub index_format: IndexFormat,
    pub first_index: u32,
    pub index_count: u32,
    pub base_vertex: i32,
    pub first_instance: u32,
    pub instance_count: u32,
}

/// One command of a frame.
#[derive(Clone, Copy, Debug, PartialEq, Eq, Structural)]
pub enum FrameCommand {
    /// Take the next presentable texture from the surface.
    Acquire,
    /// Record the compute pass.
    Compute(ComputePass),
    /// Record the copy.
    Copy(TextureCopy),
    /// Record the render pass into the acquired texture.
    Draw(RenderPass),
    /// Hand what was recorded to the queue.
    Submit,
    /// Show the acquired texture.
    Present,
}

/// How far a frame has come.
#[derive(Clone, Copy, Debug, PartialEq, Eq, Structural)]
pub enum FramePhase {
    /// No frame is under way.
    Idle,
    /// The surface texture is acquired; nothing is recorded.
    Acquired,
    /// The compute pass is recorded.
    Computed,
    /// The copy to the display texture is recorded.
    Staged,
    /// The render pass is recorded.
    Drawn,
    /// What was recorded is with the queue; the texture is not shown yet.
    Submitted,
}

/// What the commands of a frame refer to: the two textures and the number of
/// indices in the index buffer.
pub struct FrameContext {
    pub textures: TexturePair,
    pub index_count: nat,
}

/// The state that the commands move. Images are numbered by the frame that
/// computed them, from 1; 0 stands for no image.
pub struct Timeline {
    pub phase: FramePhase,
    /// How many frames were submitted.
    pub submitted: nat,
    /// How many frames were presented.
    pub presented: nat,
    /// The image in the output texture.
    pub output_image: nat,
    /// The image in the display texture.
    pub display_image: nat,
    /// The image drawn into the acquired surface texture.
    pub target_image: nat,
    /// The image that was presented last.
    pub shown_image: nat,
}

impl FrameCommand {
    /// The place of the command in a frame, from 0.
    pub open spec fn place(self) -> nat {
        match self {
            FrameCommand::Acquire => 0,
            FrameCommand::Compute(_) => 1,
            FrameCommand::Copy(_) => 2,
            FrameCommand::Draw(_) => 3,
            FrameCommand::Submit => 4,
            FrameCommand::Present => 5,
        }
    }
}

impl FramePhase {
    /// The number of commands of the frame under way that were accepted.
    pub open spec fn progress(self) -> nat {
        match self {
            FramePhase::Idle => 0,
            FramePhase::Acquired => 1,
            FramePhase::Computed => 2,
            FramePhase::Staged => 3,
            FramePhase::Drawn => 4,
            FramePhase::Submitted => 5,
        }
    }
}

impl FrameContext {
    /// The two textures obey the rules that couple them, a dispatch can
    /// cover them, and the indices make whole triangles.
    pub open spec fn wf(self) -> bool {
        &&& self.textures.wf()
        &&& self.textures.output.size.width <= MAX_WORKGROUPS_PER_DIMENSION
        &&& self.textures.output.size.height <= MAX_WORKGROUPS_PER_DIMENSION
        &&& self.textures.output.size.depth_or_array_layers == 1
        &&& self.index_count % 3 == 0
        &&& self.index_count <= u32::MAX
    }
}

impl Timeline {
    /// The state before the first frame.
    pub open spec fn start() -> Timeline {
        Timeline {
            phase: FramePhase::Idle,
            submitted: 0,
            presented: 0,
            output_image: 0,
            display_image: 0,
            target_image: 0,
            shown_image: 0,
        }
    }

    /// What holds of every state that the accepted commands reach from the
    /// start. At most one frame is submitted and not yet presented; the
    /// image on its way through the textures is the one of the frame under
    /// way; and between frames the image shown is the one of the last frame.
    pub open spec fn inv(self) -> bool {
        match self.phase {
            FramePhase::Idle => self.submitted == self.presented && self.shown_image == self.presented,
            FramePhase::Acquired => self.submitted == self.presented,
            FramePhase::Computed => {
                &&& self.submitted == self.presented
                &&& self.output_image == self.presented + 1
            },
            FramePhase::Staged => {
                &&& self.submitted == self.presented
                &&& self.display_image == self.presented + 1
            },
            FramePhase::Drawn => {
                &&& self.submitted == self.presented
                &&& self.target_image == self.presented + 1
            },
            FramePhase::Submitted => {
                &&& self.submitted == self.presented + 1
                &&& self.target_image == self.presented + 1
            },
        }
    }
}

/// The dispatch of `pass` covers the output texture exactly, one workgroup
/// for each texel, and binds the shared bind group.
pub open spec fn compute_accepted(context: FrameContext, pass: ComputePass) -> bool {
    &&& pass.bind_group_index == BIND_GROUP_INDEX
    &&& pass.workgroups_x == context.textures.output.size.width
    &&& pass.workgroups_y == context.textures.output.size.height
    &&& pass.workgroups_z == 1
    &&& pass.workgroups_x <= MAX_WORKGROUPS_PER_DIMENSION
    &&& pass.workgroups_y <= MAX_WORKGROUPS_PER_DIMENSION
}

/// `copy` takes the whole first mip level of the output texture to the
/// display texture, and the two textures allow it.
pub open spec fn copy_accepted(context: FrameContext, copy: TextureCopy) -> bool {
    &&& copy.source == Resource::Output
    &&& copy.destination == Resource::Display
    &&& copy.source_mip_level == 0
    &&& copy.destination_mip_level == 0
    &&& copy.source_origin == Origin3d::spec_zero()
    &&& copy.destination_origin == Origin3d::spec_zero()
    &&& copy.extent == context.textures.output.size
    &&& context.textures.display.size.holds(copy.destination_origin, copy.extent)
    &&& context.textures.output.format == context.textures.display.format
    &&& context.textures.output.usage.bits & TEXTURE_COPY_SRC == TEXTURE_COPY_SRC
    &&& context.textures.display.usage.bits & TEXTURE_COPY_DST == TEXTURE_COPY_DST
}

/// `pass` keeps what it draws, binds the shared bind group and the quad's
/// buffers, and draws whole triangles from indices that the index buffer
/// holds, at least once.
pub open spec fn draw_accepted(context: FrameContext, pass: RenderPass) -> bool {
    &&& pass.store
    &&& pass.bind_group_index == BIND_GROUP_INDEX
    &&& pass.vertex_buffer_slot == VERTEX_BUFFER_SLOT
    &&& pass.index_format == IndexFormat::Uint16
    &&& pass.first_index + pass.index_count <= context.index_count
    &&& pass.index_count % 3 == 0
    &&& pass.instance_count >= 1
}

/// The state after `command`, or `None` where `command` is not accepted in
/// the state `timeline`.
pub open spec fn step(context: FrameContext, timeline: Timeline, command: FrameCommand) -> Option<Timeline> {
    match (timeline.phase, command) {
        (FramePhase::Idle, FrameCommand::Acquire) => Some(
            Timeline { phase: FramePhase::Acquired, ..timeline },
        ),
        (FramePhase::Acquired, FrameCommand::Compute(pass)) => if compute_accepted(context, pass) {
            Some(
                Timeline {
                    phase: FramePhase::Computed,
                    output_image: timeline.submitted + 1,
                    ..timeline
                },
            )
        } else {
            None
        },
        (FramePhase::Computed, FrameCommand::Copy(copy)) => if copy_accepted(context, copy) {
            Some(
                Timeline { phase: FramePhase::Staged, display_image: timeline.output_image, ..timeline },
            )
        } else {
            None
        },
        (FramePhase::Staged, FrameCommand::Draw(pass)) => if draw_accepted(context, pass) {
            Some(
                Timeline { phase: FramePhase::Drawn, target_image: timeline.display_image, ..timeline },
            )
        } else {
            None
        },
        (FramePhase::Drawn, FrameCommand::Submit) => Some(
            Timeline { phase: FramePhase::Submitted, submitted: timeline.submitted + 1, ..timeline },
        ),
        (FramePhase::Submitted, FrameCommand::Present) => Some(
            Timeline {
                phase: FramePhase::Idle,
                presented: timeline.presented + 1,
                shown_image: timeline.target_image,
                ..timeline
            },
        ),
        _ => None,
    }
}

/// The state after the first `count` of `commands`, or `None` where one of
/// them is not accepted.
pub open spec fn after(context: FrameContext, timeline: Timeline, commands: Seq<FrameCommand>, count: nat) -> Option<
    Timeline,
>
    decreases count,
{
    if count == 0 {
        Some(timeline)
    } else {
        match after(context, timeline, commands, (count - 1) as nat) {
            Some(before) => step(context, before, commands[count - 1]),
            None => None,
        }
    }
}

/// The state after all of `commands`, or `None` where one of them is not
/// accepted.
pub open spec fn run(context: FrameContext, timeline: Timeline, commands: Seq<FrameCommand>) -> Option<Timeline> {
    after(context, timeline, commands, commands.len())
}

/// The state after `commands` were run `times` times in a row, or `None`
/// where a command is not accepted.
pub open spec fn repeat(context: FrameContext, timeline: Timeline, commands: Seq<FrameCommand>, times: nat) -> Option<
    Timeline,
>
    decreases times,
{
    if times == 0 {
        Some(timeline)
    } else {
        match repeat(context, timeline, commands, (times - 1) as nat) {
            Some(before) => run(context, before, commands),
            None => None,
        }
    }
}

/// The compute pass of a frame over textures of the size `texture_size`.
pub open spec fn spec_compute_pass(texture_size: Extent3d) -> ComputePass {
    ComputePass {
        bind_group_index: BIND_GROUP_INDEX,
        workgroups_x: texture_size.width,
        workgroups_y: texture_size.height,
        workgroups_z: 1,
    }
}

/// The copy of a frame over textures of the size `texture_size`.
pub open spec fn spec_stage_copy(texture_size: Extent3d) -> TextureCopy {
    TextureCopy {
        source: Resource::Output,
        source_mip_level: 0,
        source_origin: Origin3d::spec_zero(),
        destination: Resource::Display,
        destination_mip_level: 0,
        destination_origin: Origin3d::spec_zero(),
        extent: texture_size,
    }
}

/// The render pass of a frame that draws `index_count` indices.
pub open spec fn spec_render_pass(index_count: u32) -> RenderPass {
    RenderPass {
        load: LoadOp::Clear(Color::Black),
        store: true,
        bind_group_index: BIND_GROUP_INDEX,
        vertex_buffer_slot: VERTEX_BUFFER_SLOT,
        index_format: IndexFormat::Uint16,
        first_index: 0,
        index_count,
        base_vertex: 0,
        first_instance: 0,
        instance_count: 1,
    }
}

/// The commands of one frame, in their order.
pub open spec fn spec_frame_commands(texture_size: Extent3d, index_count: u32) -> Seq<FrameCommand> {
    seq![
        FrameCommand::Acquire,
        FrameCommand::Compute(spec_compute_pass(texture_size)),
        FrameCommand::Copy(spec_stage_copy(texture_size)),
        FrameCommand::Draw(spec_render_pass(index_count)),
        FrameCommand::Submit,
        FrameCommand::Present,
    ]
}

/// The commands of one frame, in their order: acquire; a compute pass that
/// dispatches one workgroup for each texel of `texture_size`; a copy of all
/// of `texture_size` from the output to the display texture, at mip level 0
/// and from corner to corner; a render pass that clears the target to black
/// and draws `index_count` indices once; submit; present.
pub fn frame_commands(texture_size: Extent3d, index_count: u32) -> (commands: Vec<FrameCommand>)
    ensures
        commands@ == spec_frame_commands(texture_size, index_count),
{
    let compute = ComputePass {
        bind_group_index: BIND_GROUP_INDEX,
        workgroups_x: texture_size.width,
        workgroups_y: texture_size.height,
        workgroups_z: 1,
    };
    let copy = TextureCopy {
        source: Resource::Output,
        source_mip_level: 0,
        source_origin: Origin3d::zero(),
        destination: Resource::Display,
        destination_mip_level: 0,
        destination_origin: Origin3d::zero(),
        extent: texture_size,
    };
    let draw = RenderPass {
        load: LoadOp::Clear(Color::Black),
        store: true,
        bind_group_index: BIND_GROUP_INDEX,
        vertex_buffer_slot: VERTEX_BUFFER_SLOT,
        index_format: IndexFormat::Uint16,
        first_index: 0,
        index_count,
        base_vertex: 0,
        first_instance: 0,
        instance_count: 1,
    };
    let mut commands: Vec<FrameCommand> = Vec::new();
    commands.push(FrameCommand::Acquire);
    commands.push(FrameCommand::Compute(compute));
    commands.push(FrameCommand::Copy(copy));
    commands.push(FrameCommand::Draw(draw));
    commands.push(FrameCommand::Submit);
    commands.push(FrameCommand::Present);
    assert(commands@ =~= spec_frame_commands(texture_size, index_count));
    commands
}

/// An accepted command keeps what holds of every reachable state.
pub proof fn lemma_step_keeps_inv(context: FrameContext, timeline: Timeline, command: FrameCommand)
    requires
        timeline.inv(),
        step(context, timeline, command) is Some,
    ensures
        step(context, timeline, command)->0.inv(),
{
}

/// Accepted commands keep what holds of every reachable state, however many
/// they are.
pub proof fn lemma_after_keeps_inv(context: FrameContext, timeline: Timeline, commands: Seq<FrameCommand>, count: nat)
    requires
        timeline.inv(),
        after(context, timeline, commands, count) is Some,
    ensures
        after(context, timeline, commands, count)->0.inv(),
    decreases count,
{
    if count > 0 {
        let before = after(context, timeline, commands, (count - 1) as nat);
        lemma_after_keeps_inv(context, timeline, commands, (count - 1) as nat);
        lemma_step_keeps_inv(context, before->0, commands[count - 1]);
    }
}

/// The order of the commands is forced: in each state one kind of command
/// is accepted and no other, namely the one whose place in the frame is the
/// number of commands that the frame has come through, and it takes the
/// frame one command further, or to its end.
pub proof fn lemma_step_in_order(context: FrameContext, timeline: Timeline, command: FrameCommand)
    requires
        step(context, timeline, command) is Some,
    ensures
        command.place() == timeline.phase.progress(),
        step(context, timeline, command)->0.phase.progress() == (timeline.phase.progress() + 1) % 6,
{
}

/// Whatever commands are accepted from a state between frames, they come in
/// the order of the frame, again and again: the command at the index `i` is
/// the one whose place in the frame is `i % 6`.
pub proof fn lemma_commands_in_order(
    context: FrameContext,
    timeline: Timeline,
    commands: Seq<FrameCommand>,
    count: nat,
)
    requires
        timeline.phase == FramePhase::Idle,
        after(context, timeline, commands, count) is Some,
    ensures
        after(context, timeline, commands, count)->0.phase.progress() == count % 6,
        forall|i: int| 0 <= i < count ==> (#[trigger] commands[i]).place() == i % 6,
    decreases count,
{
    if count > 0 {
        let before = after(context, timeline, commands, (count - 1) as nat);
        lemma_commands_in_order(context, timeline, commands, (count - 1) as nat);
        lemma_step_in_order(context, before->0, commands[count - 1]);
        assert(count % 6 == ((count - 1) % 6 + 1) % 6) by (nonlinear_arith)
            requires
                count > 0,
        ;
    }
}

/// A frame is presented only after it was submitted: `Present` is accepted
/// in no state but the one that `Submit` leads to, and `Submit` in none but
/// the one that the render pass leads to.
pub proof fn lemma_present_follows_submit(context: FrameContext, timeline: Timeline)
    ensures
        step(context, timeline, FrameCommand::Present) is Some <==> timeline.phase == FramePhase::Submitted,
        step(context, timeline, FrameCommand::Submit) is Some <==> timeline.phase == FramePhase::Drawn,
{
}

/// Between two frames the image shown is the one that the last frame
/// computed: whatever commands were accepted since the start, if they end
/// between frames, then as many frames were presented as were submitted, and
/// the image presented last has the number of the last frame.
pub proof fn lemma_shown_image_is_fresh(context: FrameContext, commands: Seq<FrameCommand>)
    requires
        run(context, Timeline::start(), commands) is Some,
        run(context, Timeline::start(), commands)->0.phase == FramePhase::Idle,
    ensures
        run(context, Timeline::start(), commands)->0.submitted == run(
            context,
            Timeline::start(),
            commands,
        )->0.presented,
        run(context, Timeline::start(), commands)->0.shown_image == run(
            context,
            Timeline::start(),
            commands,
        )->0.presented,
{
    lemma_after_keeps_inv(context, Timeline::start(), commands, commands.len());
}

/// The commands of one frame are accepted between frames, one after the
/// other, and end between frames again; one more frame is then submitted and
/// presented, and the image shown is the one that this frame computed.
pub proof fn lemma_frame_completes(context: FrameContext, timeline: Timeline, index_count: u32)
    requires
        context.wf(),
        index_count == context.index_count,
        timeline.phase == FramePhase::Idle,
    ensures
        run(context, timeline, spec_frame_commands(context.textures.output.size, index_count)) == Some(
            Timeline {
                phase: FramePhase::Idle,
                submitted: timeline.submitted + 1,
                presented: timeline.presented + 1,
                output_image: timeline.submitted + 1,
                display_image: timeline.submitted + 1,
                target_image: timeline.submitted + 1,
                shown_image: timeline.submitted + 1,
            },
        ),
{
    reveal_with_fuel(after, 7);
}

/// Frames can follow one another without end: `times` frames in a row are
/// accepted, and after them `times` more frames are submitted and presented
/// and no frame is under way.
pub proof fn lemma_frames_complete(context: FrameContext, timeline: Timeline, index_count: u32, times: nat)
    requires
        context.wf(),
        index_count == context.index_count,
        timeline.phase == FramePhase::Idle,
    ensures
        repeat(context, timeline, spec_frame_commands(context.textures.output.size, index_count), times) is Some,
        repeat(
            context,
            timeline,
            spec_frame_commands(context.textures.output.size, index_count),
            times,
        )->0.phase == FramePhase::Idle,
        repeat(
            context,
            timeline,
            spec_frame_commands(context.textures.output.size, index_count),
            times,
        )->0.submitted == timeline.submitted + times,
        repeat(
            context,
            timeline,
            spec_frame_commands(context.textures.output.size, index_count),
            times,
        )->0.presented == timeline.presented + times,
    decreases times,
{
    if times > 0 {
        let commands = spec_frame_commands(context.textures.output.size, index_count);
        lemma_frames_complete(context, timeline, index_count, (times - 1) as nat);
        let before = repeat(context, timeline, commands, (times - 1) as nat)->0;
        lemma_frame_completes(context, before, index_count);
    }
}

} // verus!
