//! Lifecycle of the overlay's rendering resources. The frame hook drives it:
//! it performs the action that the lifecycle names, reports the outcome as an
//! event, and stops at `CallThrough`, where it calls the original function.
use vstd::prelude::*;

verus! {

/// The next thing the frame hook does.
#[derive(Clone, Copy, Debug, PartialEq, Eq, Structural)]
pub enum FrameAction {
    /// Build a renderer bound to the current device.
    CreateRenderer,
    /// Find the host window from the device, build a window binding for it
    /// and chain its window procedure.
    BindWindow,
    /// Prepare an overlay frame on the window binding.
    PrepareFrame,
    /// Build the overlay and submit it to the renderer.
    Render,
    /// Call the original frame-completion function; the frame is over.
    CallThrough,
}

/// What the frame hook reports back.
#[derive(Clone, Copy, Debug, PartialEq, Eq, Structural)]
pub enum FrameEvent {
    /// A frame-completion call came in.
    Begin,
    RendererCreated(bool),
    WindowBound(bool),
    Prepared(bool),
    /// The overlay was submitted, with or without success.
    Rendered,
}

/// Where a frame stands. `rebuild` marks the one retry after a failed
/// preparation, on a window binding built anew.
#[derive(Clone, Copy, Debug, PartialEq, Eq, Structural)]
pub enum FramePhase {
    Idle,
    CreatingRenderer,
    BindingWindow { rebuild: bool },
    Preparing { rebuild: bool },
    Rendering,
}

/// Which rendering resources exist, and where the current frame stands.
#[derive(Clone, Copy, Debug, PartialEq, Eq, Structural)]
pub struct RenderLifecycle {
    pub renderer: bool,
    pub window: bool,
    pub phase: FramePhase,
}

/// The first step of a frame whose renderer is in place.
pub open spec fn after_renderer(window: bool) -> (FramePhase, FrameAction) {
    if window {
        (FramePhase::Preparing { rebuild: false }, FrameAction::PrepareFrame)
    } else {
        (FramePhase::BindingWindow { rebuild: false }, FrameAction::BindWindow)
    }
}

/// The state and the next action after `ev` comes in at state `s`. An event
/// that does not answer the pending action ends the frame.
pub open spec fn frame_step(s: RenderLifecycle, ev: FrameEvent) -> (RenderLifecycle, FrameAction) {
    let idle = RenderLifecycle { phase: FramePhase::Idle, ..s };
    match (s.phase, ev) {
        (FramePhase::Idle, FrameEvent::Begin) => if !s.renderer {
            (RenderLifecycle { phase: FramePhase::CreatingRenderer, ..s }, FrameAction::CreateRenderer)
        } else {
            (RenderLifecycle { phase: after_renderer(s.window).0, ..s }, after_renderer(s.window).1)
        },
        (FramePhase::CreatingRenderer, FrameEvent::RendererCreated(ok)) => if ok {
            (
                RenderLifecycle { renderer: true, phase: after_renderer(s.window).0, ..s },
                after_renderer(s.window).1,
            )
        } else {
            (idle, FrameAction::CallThrough)
        },
        (FramePhase::BindingWindow { rebuild }, FrameEvent::WindowBound(ok)) => if ok {
            (
                RenderLifecycle { window: true, phase: FramePhase::Preparing { rebuild }, ..s },
                FrameAction::PrepareFrame,
            )
        } else {
            (idle, FrameAction::CallThrough)
        },
        (FramePhase::Preparing { rebuild }, FrameEvent::Prepared(ok)) => if ok {
            (RenderLifecycle { phase: FramePhase::Rendering, ..s }, FrameAction::Render)
        } else if !rebuild {
            (
                RenderLifecycle {
                    window: false,
                    phase: FramePhase::BindingWindow { rebuild: true },
                    ..s
                },
                FrameAction::BindWindow,
            )
        } else {
            (idle, FrameAction::CallThrough)
        },
        _ => (idle, FrameAction::CallThrough),
    }
}

/// The state after a device reset: the renderer is gone, the window binding
/// stays.
pub open spec fn reset_step(s: RenderLifecycle) -> RenderLifecycle {
    RenderLifecycle { renderer: false, phase: FramePhase::Idle, ..s }
}

/// How many actions at most stand between a phase and the end of its frame.
pub open spec fn frame_budget(p: FramePhase) -> int {
    match p {
        FramePhase::Idle => 0,
        FramePhase::CreatingRenderer => 6,
        FramePhase::BindingWindow { rebuild } => if rebuild { 3 } else { 5 },
        FramePhase::Preparing { rebuild } => if rebuild { 2 } else { 4 },
        FramePhase::Rendering => 1,
    }
}

impl RenderLifecycle {
    /// A binding needs its renderer, a preparation or a submission needs
    /// both resources, and a renderer is only built where none exists.
    pub open spec fn wf(&self) -> bool {
        match self.phase {
            FramePhase::Idle => true,
            FramePhase::CreatingRenderer => !self.renderer,
            FramePhase::BindingWindow { .. } => self.renderer && !self.window,
            FramePhase::Preparing { .. } => self.renderer && self.window,
            FramePhase::Rendering => self.renderer && self.window,
        }
    }

    /// Neither resource built yet, no frame under way.
    pub fn new() -> (r: Self)
        ensures
            r.wf(),
            !r.renderer,
            !r.window,
            r.phase == FramePhase::Idle,
    {
        RenderLifecycle { renderer: false, window: false, phase: FramePhase::Idle }
    }

    /// Takes the outcome of the last action and names the next one.
    pub fn step(&mut self, ev: FrameEvent) -> (r: FrameAction)
        requires
            old(self).wf(),
        ensures
            (*final(self), r) == frame_step(*old(self), ev),
            final(self).wf(),
            r == FrameAction::Render ==> final(self).renderer && final(self).window,
            r == FrameAction::PrepareFrame ==> final(self).window,
            r == FrameAction::CreateRenderer ==> !old(self).renderer,
            r == FrameAction::CallThrough <==> final(self).phase == FramePhase::Idle,
    {
        let idle = RenderLifecycle { phase: FramePhase::Idle, ..*self };
        let (next, action) = match (self.phase, ev) {
            (FramePhase::Idle, FrameEvent::Begin) => if !self.renderer {
                (RenderLifecycle { phase: FramePhase::CreatingRenderer, ..*self }, FrameAction::CreateRenderer)
            } else {
                let (phase, action) = after_renderer_step(self.window);
                (RenderLifecycle { phase, ..*self }, action)
            },
            (FramePhase::CreatingRenderer, FrameEvent::RendererCreated(ok)) => if ok {
                let (phase, action) = after_renderer_step(self.window);
                (RenderLifecycle { renderer: true, phase, ..*self }, action)
            } else {
                (idle, FrameAction::CallThrough)
            },
            (FramePhase::BindingWindow { rebuild }, FrameEvent::WindowBound(ok)) => if ok {
                (
                    RenderLifecycle { window: true, phase: FramePhase::Preparing { rebuild }, ..*self },
                    FrameAction::PrepareFrame,
                )
            } else {
                (idle, FrameAction::CallThrough)
            },
            (FramePhase::Preparing { rebuild }, FrameEvent::Prepared(ok)) => if ok {
                (RenderLifecycle { phase: FramePhase::Rendering, ..*self }, FrameAction::Render)
            } else if !rebuild {
                (
                    RenderLifecycle {
                        window: false,
                        phase: FramePhase::BindingWindow { rebuild: true },
                        ..*self
                    },
                    FrameAction::BindWindow,
                )
            } else {
                (idle, FrameAction::CallThrough)
            },
            _ => (idle, FrameAction::CallThrough),
        };
        *self = next;
        action
    }

    /// A device reset: drops the renderer and keeps the window binding.
    pub fn on_reset(&mut self)
        ensures
            *final(self) == reset_step(*old(self)),
            final(self).wf(),
            !final(self).renderer,
            final(self).window == old(self).window,
    {
        self.renderer = false;
        self.phase = FramePhase::Idle;
    }
}

fn after_renderer_step(window: bool) -> (r: (FramePhase, FrameAction))
    ensures
        r == after_renderer(window),
{
    if window {
        (FramePhase::Preparing { rebuild: false }, FrameAction::PrepareFrame)
    } else {
        (FramePhase::BindingWindow { rebuild: false }, FrameAction::BindWindow)
    }
}

/// After a device reset the renderer is absent, the next frame starts by
/// rebuilding it, and no overlay is submitted until a renderer has been
/// created again: from a state without a renderer, every event but a
/// successful creation leaves it without one and submits nothing.
pub proof fn lemma_reset_then_rebuild(s: RenderLifecycle, ev: FrameEvent)
    requires
        s.wf(),
    ensures
        !reset_step(s).renderer,
        frame_step(reset_step(s), FrameEvent::Begin).1 == FrameAction::CreateRenderer,
        !s.renderer && ev != FrameEvent::RendererCreated(true) ==> !frame_step(s, ev).0.renderer
            && frame_step(s, ev).1 != FrameAction::Render,
{
}

/// Every frame calls through exactly once: a frame starts from idle, each
/// action but `CallThrough` leaves the frame under way with a smaller
/// budget, and `CallThrough` returns to idle.
pub proof fn lemma_frame_ends_in_call_through(s: RenderLifecycle, ev: FrameEvent)
    ensures
        s.phase == FramePhase::Idle && ev == FrameEvent::Begin ==> frame_step(s, ev).0.phase
            != FramePhase::Idle,
        s.phase != FramePhase::Idle && frame_step(s, ev).1 != FrameAction::CallThrough ==> 0
            < frame_budget(frame_step(s, ev).0.phase) < frame_budget(s.phase),
        frame_step(s, ev).1 == FrameAction::CallThrough <==> frame_step(s, ev).0.phase
            == FramePhase::Idle,
{
}

} // verus!
