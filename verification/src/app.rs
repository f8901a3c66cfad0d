//! The application: its window request, what it does on each event of the
//! window, and why the surface and the frames stay in step under resizes.
//!
//! The event loop itself belongs to the windowing system. The library
//! decides, for one event at a time, how the renderer changes, what is to be
//! done on the device and the window, and whether the loop goes on.

use vstd::prelude::*;
use crate::rendering::frame::{run, FramePhase, Timeline};
use crate::rendering::renderer::{lemma_parts_fit, Renderer, RendererView};
use crate::rendering::frame::lemma_frame_completes;
use crate::rendering::surface::{PhysicalSize, SurfaceConfiguration};

verus! {

/// What the application asks of the windowing system at startup: a window
/// with the title `name` and the logical size `width` by `height`.
pub struct Application {
    pub name: &'static str,
    pub width: u32,
    pub height: u32,
}

/// An event of the window, as far as the application tells events apart.
#[derive(Clone, Copy, Debug, PartialEq, Eq, Structural)]
pub enum Event {
    /// The window has a new size.
    Resized(PhysicalSize),
    /// The window asks to be drawn.
    RedrawRequested,
    /// The user asks to close the window.
    CloseRequested,
    /// Any other event.
    Other,
}

/// Whether the event loop goes on.
#[derive(Clone, Copy, Debug, PartialEq, Eq, Structural)]
pub enum ControlFlow {
    /// Sleep until the next event.
    Wait,
    /// Leave the loop.
    Exit,
}

/// Something for the caller to do on the device or on the window.
#[derive(Clone, Copy, Debug, PartialEq, Eq, Structural)]
pub enum Effect {
    /// Configure the surface with the renderer's surface configuration.
    ConfigureSurface,
    /// Ask the window for a redraw.
    RequestRedraw,
    /// Perform the commands of one frame of the renderer, in their order.
    DrawFrame,
}

/// What the application does on one event: the effects are to be performed
/// in their order, and then the loop goes on as `control_flow` says.
#[derive(Debug, PartialEq, Eq)]
pub struct Reaction {
    pub control_flow: ControlFlow,
    pub effects: Vec<Effect>,
}

/// The surface, the window and the frames as the caller's actions leave
/// them.
pub struct World {
    /// The size that the window has, as its last event told.
    pub window: PhysicalSize,
    /// What the surface was configured with last.
    pub configured: SurfaceConfiguration,
    /// How far the frames have come.
    pub timeline: Timeline,
}

/// The renderer after `event`, when it was `before`: a new size resizes it,
/// and no other event changes it.
pub open spec fn renderer_after(before: RendererView, event: Event) -> RendererView {
    match event {
        Event::Resized(size) => before.resized(size),
        _ => before,
    }
}

/// Whether the loop goes on after `event`: it ends on a close request and on
/// no other event.
pub open spec fn spec_control_flow(event: Event) -> ControlFlow {
    match event {
        Event::CloseRequested => ControlFlow::Exit,
        _ => ControlFlow::Wait,
    }
}

/// What is to be done on `event`. On a new size the surface is configured
/// and then a redraw is asked for; on a redraw request one frame is drawn;
/// on any other event nothing is done.
pub open spec fn spec_effects(event: Event) -> Seq<Effect> {
    match event {
        Event::Resized(_) => seq![Effect::ConfigureSurface, Effect::RequestRedraw],
        Event::RedrawRequested => seq![Effect::DrawFrame],
        Event::CloseRequested => Seq::empty(),
        Event::Other => Seq::empty(),
    }
}

impl World {
    /// The world right after startup, when the surface was configured with
    /// the renderer's first configuration and no frame was drawn.
    pub open spec fn initial(renderer: RendererView) -> World {
        World {
            window: renderer.surface.spec_size(),
            configured: renderer.surface,
            timeline: Timeline::start(),
        }
    }

    /// The world and the renderer are in step: the surface is configured
    /// with the renderer's configuration, that configuration has the size of
    /// the window, no frame is under way, every frame that was submitted was
    /// presented, and the image on the screen is the one of the last frame.
    pub open spec fn in_step(self, renderer: RendererView) -> bool {
        &&& self.configured == renderer.surface
        &&& self.configured.spec_size() == self.window
        &&& self.timeline.phase == FramePhase::Idle
        &&& self.timeline.inv()
    }

    /// The world after the window sent `event`.
    pub open spec fn observe(self, event: Event) -> World {
        match event {
            Event::Resized(size) => World { window: size, ..self },
            _ => self,
        }
    }

    /// The world after the caller performed `effect`, or `None` where the
    /// effect is out of place. The surface is configured between frames
    /// only. A frame is drawn only on a surface that is configured with the
    /// renderer's configuration and for the size that the window has, and
    /// only where the device accepts each of its commands.
    pub open spec fn perform(self, renderer: RendererView, effect: Effect) -> Option<World> {
        match effect {
            Effect::ConfigureSurface => if self.timeline.phase == FramePhase::Idle {
                Some(World { configured: renderer.surface, ..self })
            } else {
                None
            },
            Effect::RequestRedraw => Some(self),
            Effect::DrawFrame => if self.configured == renderer.surface && self.configured.spec_size()
                == self.window {
                match run(renderer.frame_context(), self.timeline, renderer.frame()) {
                    Some(timeline) => Some(World { timeline, ..self }),
                    None => None,
                }
            } else {
                None
            },
        }
    }

    /// The world after the caller performed the first `count` of `effects`,
    /// or `None` where one of them is out of place.
    pub open spec fn perform_all(self, renderer: RendererView, effects: Seq<Effect>, count: nat) -> Option<World>
        decreases count,
    {
        if count == 0 {
            Some(self)
        } else {
            match self.perform_all(renderer, effects, (count - 1) as nat) {
                Some(before) => before.perform(renderer, effects[count - 1]),
                None => None,
            }
        }
    }

    /// The world after the window sent `event` and the caller performed what
    /// the application answered, where `renderer` is the renderer before the
    /// event; or `None` where an effect is out of place.
    pub open spec fn react(self, renderer: RendererView, event: Event) -> Option<World> {
        self.observe(event).perform_all(
            renderer_after(renderer, event),
            spec_effects(event),
            spec_effects(event).len(),
        )
    }
}

/// The number of redraw requests among the first `count` of `events`.
pub open spec fn redraw_requests(events: Seq<Event>, count: nat) -> nat
    decreases count,
{
    if count == 0 {
        0
    } else {
        redraw_requests(events, (count - 1) as nat) + if events[count - 1] == Event::RedrawRequested {
            1nat
        } else {
            0nat
        }
    }
}

/// The renderer after the first `count` of `events`.
pub open spec fn renderer_after_all(renderer: RendererView, events: Seq<Event>, count: nat) -> RendererView
    decreases count,
{
    if count == 0 {
        renderer
    } else {
        renderer_after(renderer_after_all(renderer, events, (count - 1) as nat), events[count - 1])
    }
}

/// The world after the first `count` of `events`, each answered by the
/// application and performed by the caller; or `None` where an effect is out
/// of place.
pub open spec fn world_after_all(world: World, renderer: RendererView, events: Seq<Event>, count: nat) -> Option<
    World,
>
    decreases count,
{
    if count == 0 {
        Some(world)
    } else {
        match world_after_all(world, renderer, events, (count - 1) as nat) {
            Some(before) => before.react(
                renderer_after_all(renderer, events, (count - 1) as nat),
                events[count - 1],
            ),
            None => None,
        }
    }
}

impl Application {
    /// An application whose window has the title `title` and opens at
    /// `width` by `height`.
    pub fn new(title: &'static str, width: u32, height: u32) -> (app: Self)
        ensures
            app.name@ == title@,
            app.width == width,
            app.height == height,
    {
        Application { name: title, width, height }
    }

    /// The window has the size `size`: the renderer's surface gets that
    /// size, the surface is to be configured with it, and then a redraw is
    /// to be asked for.
    pub fn on_resize(&self, renderer: &mut Renderer, size: PhysicalSize) -> (reaction: Reaction)
        ensures
            final(renderer)@ == old(renderer)@.resized(size),
            reaction.control_flow == ControlFlow::Wait,
            reaction.effects@ == seq![Effect::ConfigureSurface, Effect::RequestRedraw],
    {
        renderer.resize(size);
        let mut effects: Vec<Effect> = Vec::new();
        effects.push(Effect::ConfigureSurface);
        effects.push(Effect::RequestRedraw);
        assert(effects@ =~= seq![Effect::ConfigureSurface, Effect::RequestRedraw]);
        Reaction { control_flow: ControlFlow::Wait, effects }
    }

    /// The window asks to be drawn: one frame is to be drawn.
    pub fn on_redraw_request(&self) -> (reaction: Reaction)
        ensures
            reaction.control_flow == ControlFlow::Wait,
            reaction.effects@ == seq![Effect::DrawFrame],
    {
        let mut effects: Vec<Effect> = Vec::new();
        effects.push(Effect::DrawFrame);
        assert(effects@ =~= seq![Effect::DrawFrame]);
        Reaction { control_flow: ControlFlow::Wait, effects }
    }

    /// The user asks to close the window: nothing is to be done, and the
    /// loop ends.
    pub fn on_close_request(&self) -> (reaction: Reaction)
        ensures
            reaction.control_flow == ControlFlow::Exit,
            reaction.effects@ == Seq::<Effect>::empty(),
    {
        Reaction { control_flow: ControlFlow::Exit, effects: Vec::new() }
    }

    /// What the application does on `event`. A new size resizes the
    /// renderer, has the surface configured and a redraw asked for; a redraw
    /// request has one frame drawn; a close request ends the loop; any other
    /// event does nothing. The renderer changes on a new size and on no
    /// other event.
    pub fn handle_event(&self, renderer: &mut Renderer, event: Event) -> (reaction: Reaction)
        ensures
            final(renderer)@ == renderer_after(old(renderer)@, event),
            reaction.control_flow == spec_control_flow(event),
            reaction.effects@ == spec_effects(event),
    {
        match event {
            Event::Resized(size) => self.on_resize(renderer, size),
            Event::RedrawRequested => self.on_redraw_request(),
            Event::CloseRequested => self.on_close_request(),
            Event::Other => Reaction { control_flow: ControlFlow::Wait, effects: Vec::new() },
        }
    }
}

/// Right after startup the world and the renderer are in step.
pub proof fn lemma_initial_in_step(renderer: RendererView)
    ensures
        World::initial(renderer).in_step(renderer),
{
}

/// Whatever the event, what the application answers is in place, and leaves
/// the world and the renderer in step. After a new size the surface is
/// configured with that size, before the next frame and never while a frame
/// is under way. Each redraw request yields one whole frame: one more frame
/// is submitted and presented, and no other event presents one.
pub proof fn lemma_reaction_in_place(world: World, renderer: RendererView, event: Event)
    requires
        renderer.wf(),
        world.in_step(renderer),
    ensures
        world.react(renderer, event) is Some,
        world.react(renderer, event)->0.in_step(renderer_after(renderer, event)),
        renderer_after(renderer, event).wf(),
        event matches Event::Resized(size) ==> world.react(renderer, event)->0.configured.spec_size() == size,
        world.react(renderer, event)->0.timeline.presented == world.timeline.presented + (if event
            == Event::RedrawRequested {
            1nat
        } else {
            0nat
        }),
        world.react(renderer, event)->0.timeline.submitted == world.timeline.submitted + (if event
            == Event::RedrawRequested {
            1nat
        } else {
            0nat
        }),
{
    reveal_with_fuel(World::perform_all, 3);
    if event == Event::RedrawRequested {
        lemma_parts_fit(renderer);
        lemma_frame_completes(renderer.frame_context(), world.timeline, renderer.indices.len() as u32);
    }
}

/// However many events the window sends, the renderer's textures, sampler,
/// bindings, pipelines and quad are those that it was built with: nothing is
/// made anew for a frame or for a resize, and of the surface nothing changes
/// but its size.
pub proof fn lemma_session_keeps_resources(renderer: RendererView, events: Seq<Event>, count: nat)
    ensures
        renderer_after_all(renderer, events, count).texture_size == renderer.texture_size,
        renderer_after_all(renderer, events, count).textures == renderer.textures,
        renderer_after_all(renderer, events, count).sampler == renderer.sampler,
        renderer_after_all(renderer, events, count).bind_group == renderer.bind_group,
        renderer_after_all(renderer, events, count).pipelines == renderer.pipelines,
        renderer_after_all(renderer, events, count).indices == renderer.indices,
        renderer_after_all(renderer, events, count).surface.format == renderer.surface.format,
        renderer_after_all(renderer, events, count).surface.usage == renderer.surface.usage,
        renderer_after_all(renderer, events, count).surface.present_mode == renderer.surface.present_mode,
        renderer_after_all(renderer, events, count).frame() == renderer.frame(),
    decreases count,
{
    if count > 0 {
        lemma_session_keeps_resources(renderer, events, (count - 1) as nat);
    }
}

/// However many events the window sends, and in whatever order, the
/// application's answers are all in place: the world and the renderer are in
/// step after each of them, as many frames were submitted and presented as
/// redraws were requested, and the image on the screen is the one that the
/// last of these frames computed.
pub proof fn lemma_session_in_place(world: World, renderer: RendererView, events: Seq<Event>, count: nat)
    requires
        renderer.wf(),
        world.in_step(renderer),
        count <= events.len(),
    ensures
        world_after_all(world, renderer, events, count) is Some,
        world_after_all(world, renderer, events, count)->0.in_step(renderer_after_all(renderer, events, count)),
        renderer_after_all(renderer, events, count).wf(),
        world_after_all(world, renderer, events, count)->0.timeline.presented == world.timeline.presented
            + redraw_requests(events, count),
        world_after_all(world, renderer, events, count)->0.timeline.submitted == world.timeline.submitted
            + redraw_requests(events, count),
        world_after_all(world, renderer, events, count)->0.timeline.shown_image == world.timeline.presented
            + redraw_requests(events, count),
    decreases count,
{
    if count > 0 {
        lemma_session_in_place(world, renderer, events, (count - 1) as nat);
        let before = world_after_all(world, renderer, events, (count - 1) as nat)->0;
        let renderer_before = renderer_after_all(renderer, events, (count - 1) as nat);
        lemma_reaction_in_place(before, renderer_before, events[count - 1]);
    }
}

} // verus!
