use vstd::prelude::*;

use crate::scene::{frame_plan_spec, plan_frame, FramePlan};
use crate::surface::{resize_outcome_spec, resized_spec, ResizeOutcome, SurfaceConfig};

verus! {

/// Where the application loop stands. `Closing` is terminal.
#[derive(Clone, Copy, Debug, PartialEq, Eq, Structural)]
pub enum Phase {
    Created,
    Resumed,
    Running,
    Closing,
}

/// An event handed to the loop, one at a time: from the window system, or
/// the outcome of work that a previous command asked for.
#[derive(Clone, Copy, Debug, PartialEq, Eq, Structural)]
pub enum LoopEvent {
    /// The platform resumed the application.
    Resume,
    /// Surface creation finished with a surface of this pixel size.
    SurfaceReady { width: u32, height: u32 },
    /// Surface creation failed: no capable GPU device is available.
    SurfaceFailed,
    /// The renderer for the surface's device was built.
    RendererReady,
    /// Building the renderer for the surface's device failed.
    RendererFailed,
    /// The window's physical size changed.
    Resized { width: u32, height: u32 },
    /// The platform asks for a frame.
    RedrawRequested,
    /// A frame was dropped: its surface texture could not be acquired.
    FrameDropped,
    /// The user asked to close the window.
    CloseRequested,
    /// No event is pending.
    Idle,
}

/// What the loop asks its host to do after an event.
#[derive(Clone, Copy, Debug, PartialEq, Eq, Structural)]
pub enum Command {
    /// Nothing: wait for the next event.
    Wait,
    /// Build the renderer for the surface's device, then report back.
    CreateRenderer,
    /// Reconfigure the surface to this size, then request a redraw.
    Reconfigure { width: u32, height: u32 },
    /// Request a redraw.
    RequestRedraw,
    /// Build the scene from the plan, acquire the surface texture, render,
    /// present, then poll the device.
    Draw(FramePlan),
    /// Show the static notice that GPU support is missing; render nothing.
    ShowNotice,
    /// Leave the event loop.
    Exit,
    /// Stop for an unrecoverable failure.
    Abort,
}

/// The loop's state as a plain value.
pub struct ClientView {
    pub phase: Phase,
    /// The surface's configuration, once surface creation has handed it over.
    pub surface: Option<SurfaceConfig>,
    /// Whether the renderer of the surface's device is built.
    pub renderer_ready: bool,
    /// Whether the last size seen had a zero dimension.
    pub awaiting_size: bool,
    /// Whether the missing-GPU notice has been shown.
    pub degraded: bool,
}

/// The state before any event.
pub open spec fn initial_view() -> ClientView {
    ClientView {
        phase: Phase::Created,
        surface: None,
        renderer_ready: false,
        awaiting_size: false,
        degraded: false,
    }
}

/// Whether the loop reacts to window events (`Resumed` or `Running`).
pub open spec fn is_active(p: Phase) -> bool {
    p == Phase::Resumed || p == Phase::Running
}

/// Whether a frame can be drawn now.
pub open spec fn can_draw(s: ClientView) -> bool {
    &&& is_active(s.phase)
    &&& s.surface is Some
    &&& s.surface.unwrap().width > 0
    &&& s.surface.unwrap().height > 0
    &&& s.renderer_ready
    &&& !s.awaiting_size
}

/// The loop's reaction to one event: the next state and the command issued.
pub open spec fn step(s: ClientView, e: LoopEvent) -> (ClientView, Command) {
    if s.phase == Phase::Closing {
        (s, Command::Wait)
    } else {
        match e {
            LoopEvent::Resume => if s.phase == Phase::Created {
                (ClientView { phase: Phase::Resumed, ..s }, Command::Wait)
            } else {
                (s, Command::Wait)
            },
            LoopEvent::SurfaceReady { width, height } => if s.surface is None && !s.degraded {
                (
                    ClientView {
                        surface: Some(
                            SurfaceConfig {
                                width,
                                height,
                                present_mode: crate::surface::PresentMode::AutoVsync,
                            },
                        ),
                        awaiting_size: width == 0 || height == 0,
                        ..s
                    },
                    Command::CreateRenderer,
                )
            } else {
                (s, Command::Wait)
            },
            LoopEvent::SurfaceFailed => if s.surface is None && !s.degraded {
                (ClientView { degraded: true, ..s }, Command::ShowNotice)
            } else {
                (s, Command::Wait)
            },
            LoopEvent::RendererReady => if s.surface is Some && !s.renderer_ready {
                (ClientView { renderer_ready: true, ..s }, Command::RequestRedraw)
            } else {
                (s, Command::Wait)
            },
            LoopEvent::RendererFailed => if s.surface is Some && !s.renderer_ready {
                (ClientView { phase: Phase::Closing, ..s }, Command::Abort)
            } else {
                (s, Command::Wait)
            },
            LoopEvent::Resized { width, height } => if is_active(s.phase) && s.surface is Some {
                let c = s.surface.unwrap();
                let s2 = ClientView {
                    surface: Some(resized_spec(c, width, height)),
                    awaiting_size: width == 0 || height == 0,
                    ..s
                };
                let cmd = match resize_outcome_spec(c, width, height) {
                    ResizeOutcome::Reconfigured => Command::Reconfigure { width, height },
                    ResizeOutcome::Unchanged => Command::RequestRedraw,
                    ResizeOutcome::Deferred => Command::Wait,
                };
                (s2, cmd)
            } else {
                (s, Command::Wait)
            },
            LoopEvent::RedrawRequested => if can_draw(s) {
                let c = s.surface.unwrap();
                (
                    ClientView { phase: Phase::Running, ..s },
                    Command::Draw(frame_plan_spec(c.width, c.height)),
                )
            } else {
                (s, Command::Wait)
            },
            LoopEvent::FrameDropped => if is_active(s.phase) {
                (s, Command::RequestRedraw)
            } else {
                (s, Command::Wait)
            },
            LoopEvent::CloseRequested => if is_active(s.phase) {
                (ClientView { phase: Phase::Closing, ..s }, Command::Exit)
            } else {
                (s, Command::Wait)
            },
            LoopEvent::Idle => (s, Command::Wait),
        }
    }
}

/// The state after handling `events` in order, from `s`.
pub open spec fn run(s: ClientView, events: Seq<LoopEvent>) -> ClientView
    decreases events.len(),
{
    if events.len() == 0 {
        s
    } else {
        run(step(s, events[0]).0, events.drop_first())
    }
}

/// The commands issued while handling `events` in order, from `s`.
pub open spec fn commands(s: ClientView, events: Seq<LoopEvent>) -> Seq<Command>
    decreases events.len(),
{
    if events.len() == 0 {
        Seq::empty()
    } else {
        seq![step(s, events[0]).1] + commands(step(s, events[0]).0, events.drop_first())
    }
}

/// The first command of a non-empty run is the step's command, and the rest
/// come from the state that step leaves.
proof fn lemma_commands_unfold(s: ClientView, events: Seq<LoopEvent>)
    requires
        events.len() > 0,
    ensures
        commands(s, events).len() == events.len(),
        commands(s, events)[0] == step(s, events[0]).1,
        forall|i: int|
            1 <= i < events.len() ==> #[trigger] commands(s, events)[i] == commands(
                step(s, events[0]).0,
                events.drop_first(),
            )[i - 1],
    decreases events.len(),
{
    lemma_commands_len(step(s, events[0]).0, events.drop_first());
}

proof fn lemma_commands_len(s: ClientView, events: Seq<LoopEvent>)
    ensures
        commands(s, events).len() == events.len(),
    decreases events.len(),
{
    if events.len() > 0 {
        lemma_commands_len(step(s, events[0]).0, events.drop_first());
    }
}

/// A resize event that reaches a configured surface with a size of no zero
/// dimension leaves exactly that size configured.
pub proof fn lemma_resize_event_configures(s: ClientView, width: u32, height: u32)
    requires
        is_active(s.phase),
        s.surface is Some,
        width > 0,
        height > 0,
    ensures
        step(s, LoopEvent::Resized { width, height }).0.surface == Some(
            SurfaceConfig { width, height, present_mode: s.surface.unwrap().present_mode },
        ),
{
}

/// Two resize events of the same size in a row leave the state the first one
/// left, and the second asks for no reconfiguration.
pub proof fn lemma_resize_event_idempotent(s: ClientView, width: u32, height: u32)
    ensures
        ({
            let e = LoopEvent::Resized { width, height };
            let s1 = step(s, e).0;
            &&& step(s1, e).0 == s1
            &&& !(step(s1, e).1 is Reconfigure)
        }),
{
}

/// A resize to a size of no zero dimension is applied before the next
/// redraw: the frame that follows renders at the new size and places its
/// outline by it.
pub proof fn lemma_redraw_after_resize(s: ClientView, width: u32, height: u32)
    requires
        can_draw(s),
        width > 0,
        height > 0,
    ensures
        ({
            let s1 = step(s, LoopEvent::Resized { width, height }).0;
            step(s1, LoopEvent::RedrawRequested).1 == Command::Draw(frame_plan_spec(width, height))
        }),
{
}

/// Each frame is drawn only after a surface was handed over with a nonzero
/// configuration and its renderer was built, and at that configured size.
pub proof fn lemma_draw_needs_configuration(s: ClientView, e: LoopEvent)
    requires
        step(s, e).1 is Draw,
    ensures
        e == LoopEvent::RedrawRequested,
        can_draw(s),
        step(s, e).1 == Command::Draw(
            frame_plan_spec(s.surface.unwrap().width, s.surface.unwrap().height),
        ),
{
}

/// Without a surface handoff among the events, a loop that has no surface
/// never draws.
pub proof fn lemma_no_draw_before_surface(s: ClientView, events: Seq<LoopEvent>)
    requires
        s.surface is None,
        forall|i: int| 0 <= i < events.len() ==> !(#[trigger] events[i] is SurfaceReady),
    ensures
        forall|i: int|
            0 <= i < events.len() ==> !(#[trigger] commands(s, events)[i] is Draw),
        run(s, events).surface is None,
    decreases events.len(),
{
    if events.len() > 0 {
        let rest = events.drop_first();
        assert(!(events[0] is SurfaceReady));
        assert forall|i: int| 0 <= i < rest.len() implies !(#[trigger] rest[i] is SurfaceReady) by {
            assert(rest[i] == events[i + 1]);
        }
        lemma_no_draw_before_surface(step(s, events[0]).0, rest);
        lemma_commands_unfold(s, events);
        assert forall|i: int| 0 <= i < events.len() implies !(#[trigger] commands(
            s,
            events,
        )[i] is Draw) by {
            if i > 0 {
                assert(commands(step(s, events[0]).0, rest)[i - 1] == commands(s, events)[i]);
            }
        }
    }
}

/// A close request while the loop is active ends it.
pub proof fn lemma_close_request_closes(s: ClientView)
    requires
        is_active(s.phase),
    ensures
        step(s, LoopEvent::CloseRequested) == (ClientView { phase: Phase::Closing, ..s }, Command::Exit),
{
}

/// Once closing, the loop stays closing and issues nothing more, whatever
/// events still arrive: in particular no further frame is drawn.
pub proof fn lemma_closing_is_terminal(s: ClientView, events: Seq<LoopEvent>)
    requires
        s.phase == Phase::Closing,
    ensures
        run(s, events) == s,
        forall|i: int|
            0 <= i < events.len() ==> #[trigger] commands(s, events)[i] == Command::Wait,
    decreases events.len(),
{
    if events.len() > 0 {
        lemma_closing_is_terminal(s, events.drop_first());
        lemma_commands_unfold(s, events);
        assert forall|i: int| 0 <= i < events.len() implies #[trigger] commands(s, events)[i]
            == Command::Wait by {
            if i > 0 {
                assert(commands(s, events.drop_first())[i - 1] == commands(s, events)[i]);
            }
        }
    }
}

/// After the missing-GPU notice, with no surface, nothing is drawn and the
/// notice is not shown again.
proof fn lemma_degraded_stays_quiet(s: ClientView, events: Seq<LoopEvent>)
    requires
        s.degraded,
        s.surface is None,
    ensures
        forall|i: int|
            0 <= i < events.len() ==> {
                let c = #[trigger] commands(s, events)[i];
                !(c is Draw) && c != Command::ShowNotice
            },
    decreases events.len(),
{
    if events.len() > 0 {
        let rest = events.drop_first();
        lemma_degraded_stays_quiet(step(s, events[0]).0, rest);
        lemma_commands_unfold(s, events);
        assert forall|i: int| 0 <= i < events.len() implies {
            let c = #[trigger] commands(s, events)[i];
            !(c is Draw) && c != Command::ShowNotice
        } by {
            if i > 0 {
                assert(commands(step(s, events[0]).0, rest)[i - 1] == commands(s, events)[i]);
            }
        }
    }
}

/// When surface creation fails at startup, the loop shows the missing-GPU
/// notice once, and whatever events follow it never draws and never shows
/// the notice again.
pub proof fn lemma_failed_probe_shows_notice_once(s: ClientView, events: Seq<LoopEvent>)
    requires
        s.phase != Phase::Closing,
        s.surface is None,
        !s.degraded,
    ensures
        step(s, LoopEvent::SurfaceFailed).1 == Command::ShowNotice,
        forall|i: int|
            0 <= i < events.len() ==> {
                let c = #[trigger] commands(step(s, LoopEvent::SurfaceFailed).0, events)[i];
                !(c is Draw) && c != Command::ShowNotice
            },
{
    lemma_degraded_stays_quiet(step(s, LoopEvent::SurfaceFailed).0, events);
}

/// The single-window application loop. It owns the decisions; its host
/// performs the commands and reports their outcomes as events.
pub struct Client {
    phase: Phase,
    surface: Option<SurfaceConfig>,
    renderer_ready: bool,
    awaiting_size: bool,
    degraded: bool,
}

impl View for Client {
    type V = ClientView;

    closed spec fn view(&self) -> ClientView {
        ClientView {
            phase: self.phase,
            surface: self.surface,
            renderer_ready: self.renderer_ready,
            awaiting_size: self.awaiting_size,
            degraded: self.degraded,
        }
    }
}

impl Client {
    /// A loop that has seen no event yet.
    pub fn new() -> (r: Client)
        ensures
            r@ == initial_view(),
    {
        Client {
            phase: Phase::Created,
            surface: None,
            renderer_ready: false,
            awaiting_size: false,
            degraded: false,
        }
    }

    /// The current phase.
    pub fn phase(&self) -> (r: Phase)
        ensures
            r == self@.phase,
    {
        self.phase
    }

    /// The surface's current configuration, once it has been handed over.
    pub fn surface_config(&self) -> (r: Option<SurfaceConfig>)
        ensures
            r == self@.surface,
    {
        self.surface
    }

    fn active(&self) -> (r: bool)
        ensures
            r == is_active(self@.phase),
    {
        match self.phase {
            Phase::Resumed | Phase::Running => true,
            _ => false,
        }
    }

    /// Handles one event and returns the command for the host to perform.
    /// A `Draw` comes only once a surface is configured with a nonzero size
    /// and its renderer is built, and it renders at the configured size.
    pub fn handle(&mut self, e: LoopEvent) -> (r: Command)
        ensures
            (final(self)@, r) == step(old(self)@, e),
            r is Draw ==> can_draw(old(self)@),
            r is Draw ==> r->Draw_0 == frame_plan_spec(
                old(self)@.surface.unwrap().width,
                old(self)@.surface.unwrap().height,
            ),
    {
        if let Phase::Closing = self.phase {
            return Command::Wait;
        }
        match e {
            LoopEvent::Resume => {
                if let Phase::Created = self.phase {
                    self.phase = Phase::Resumed;
                }
                Command::Wait
            },
            LoopEvent::SurfaceReady { width, height } => {
                if self.surface.is_none() && !self.degraded {
                    self.surface = Some(SurfaceConfig::new(width, height));
                    self.awaiting_size = width == 0 || height == 0;
                    Command::CreateRenderer
                } else {
                    Command::Wait
                }
            },
            LoopEvent::SurfaceFailed => {
                if self.surface.is_none() && !self.degraded {
                    self.degraded = true;
                    Command::ShowNotice
                } else {
                    Command::Wait
                }
            },
            LoopEvent::RendererReady => {
                if self.surface.is_some() && !self.renderer_ready {
                    self.renderer_ready = true;
                    Command::RequestRedraw
                } else {
                    Command::Wait
                }
            },
            LoopEvent::RendererFailed => {
                if self.surface.is_some() && !self.renderer_ready {
                    self.phase = Phase::Closing;
                    Command::Abort
                } else {
                    Command::Wait
                }
            },
            LoopEvent::Resized { width, height } => {
                if !self.active() {
                    return Command::Wait;
                }
                match self.surface {
                    None => Command::Wait,
                    Some(c) => {
                        let mut c2 = c;
                        let outcome = c2.resize(width, height);
                        self.surface = Some(c2);
                        self.awaiting_size = width == 0 || height == 0;
                        match outcome {
                            ResizeOutcome::Reconfigured => Command::Reconfigure { width, height },
                            ResizeOutcome::Unchanged => Command::RequestRedraw,
                            ResizeOutcome::Deferred => Command::Wait,
                        }
                    },
                }
            },
            LoopEvent::RedrawRequested => {
                if !self.active() || !self.renderer_ready || self.awaiting_size {
                    return Command::Wait;
                }
                match self.surface {
                    Some(c) => {
                        if c.is_drawable() {
                            self.phase = Phase::Running;
                            Command::Draw(plan_frame(c.width, c.height))
                        } else {
                            Command::Wait
                        }
                    },
                    None => Command::Wait,
                }
            },
            LoopEvent::FrameDropped => {
                if self.active() {
                    Command::RequestRedraw
                } else {
                    Command::Wait
                }
            },
            LoopEvent::CloseRequested => {
                if self.active() {
                    self.phase = Phase::Closing;
                    Command::Exit
                } else {
                    Command::Wait
                }
            },
            LoopEvent::Idle => Command::Wait,
        }
    }
}

} // verus!
