use vstd::prelude::*;
use crate::primitive_renderer::{DrawPlan, PrimitiveRenderer};
use crate::screen_multiplexer::{DrawArea, ScreenMultiplexer, WindowEvent};

verus! {

/// The host events the application loop distinguishes: a request to close
/// the window, any other window event, and the end-of-batch tick on which
/// a frame is rendered.
#[derive(Clone, Copy, Debug, PartialEq, Eq)]
pub enum LoopEvent {
    CloseRequested,
    Window { event: WindowEvent },
    MainEventsCleared,
}

/// What the host is to do after one event is dispatched: stop the loop,
/// hand the routed event to whichever partition received it, or render a
/// frame by calling `tick` and carrying out its plan.
#[derive(Clone, Copy, Debug, PartialEq, Eq)]
pub enum DispatchOutcome {
    Exit,
    Routed { left: Option<WindowEvent>, right: Option<WindowEvent> },
    RenderFrame,
}

/// The instructions for one frame.  The host rebuilds the swapchain at
/// `window_size` first when `rebuild_swapchain` is set, acquires the next
/// frame, encodes `pass` — a render pass confined to `area`, the viewport
/// partition — computes the camera matrix for `area`'s aspect ratio,
/// pushes it into the uniform buffer, and submits.
#[derive(Clone, Copy, Debug, PartialEq, Eq)]
pub struct FramePlan {
    pub rebuild_swapchain: bool,
    pub window_size: (u32, u32),
    pub area: DrawArea,
    pub pass: DrawPlan,
}

/// The application context: every piece of state the event loop mutates,
/// passed by exclusive reference into the per-event dispatch and the
/// per-frame tick.
pub struct AppContext {
    pub swapchain_stale: bool,
    pub multiplexer: ScreenMultiplexer,
    pub renderer: PrimitiveRenderer,
}

impl AppContext {
    /// A fresh context: the swapchain the host just built is current.
    pub fn new(multiplexer: ScreenMultiplexer, renderer: PrimitiveRenderer) -> (c: AppContext)
        ensures
            !c.swapchain_stale,
            c.multiplexer == multiplexer,
            c.renderer == renderer,
    {
        AppContext { swapchain_stale: false, multiplexer, renderer }
    }

    /// Dispatches one host event.  A close request asks the host to exit; a
    /// window event is forwarded to the multiplexer — a resize also marks
    /// the swapchain stale, to be rebuilt on the next frame — and the
    /// routed halves are handed back; the end-of-batch tick asks the host
    /// to render.
    pub fn dispatch(&mut self, event: LoopEvent) -> (r: DispatchOutcome)
        requires
            event matches LoopEvent::Window { event: e } ==> (e matches WindowEvent::CursorMoved {
                x,
                ..
            } ==> old(self).multiplexer.wf() && x >= -0x1_0000_0000),
        ensures
            event is CloseRequested ==> r is Exit && *final(self) == *old(self),
            event matches LoopEvent::Window { event: e } ==> {
                &&& final(self).multiplexer == old(self).multiplexer.step_spec(e)
                &&& final(self).swapchain_stale == (old(self).swapchain_stale || e is Resized)
                &&& final(self).renderer == old(self).renderer
                &&& r == (DispatchOutcome::Routed {
                    left: old(self).multiplexer.route_spec(e).0,
                    right: old(self).multiplexer.route_spec(e).1,
                })
            },
            event is MainEventsCleared ==> r is RenderFrame && *final(self) == *old(self),
    {
        match event {
            LoopEvent::CloseRequested => DispatchOutcome::Exit,
            LoopEvent::Window { event } => {
                if matches!(event, WindowEvent::Resized { .. }) {
                    self.swapchain_stale = true;
                }
                let (left, right) = self.multiplexer.event(event);
                DispatchOutcome::Routed { left, right }
            },
            LoopEvent::MainEventsCleared => DispatchOutcome::RenderFrame,
        }
    }

    /// The per-frame tick: consumes the staleness flag and plans the frame.
    /// The plan rebuilds the swapchain exactly when a resize has arrived
    /// since the last frame, and renders into the left partition's area —
    /// the viewport partition — with the renderer's current line buffer.
    pub fn tick(&mut self) -> (r: FramePlan)
        requires
            old(self).multiplexer.wf(),
        ensures
            final(self).multiplexer == old(self).multiplexer,
            final(self).renderer == old(self).renderer,
            !final(self).swapchain_stale,
            r.rebuild_swapchain == old(self).swapchain_stale,
            r.window_size == old(self).multiplexer.window_size,
            r.area == old(self).multiplexer.left_area_spec(),
            r.pass.viewport == r.area,
            r.pass.scissor == r.area,
            r.pass.vertex_count == (match old(self).renderer.lines {
                Some(v) => Some(v@.len() as usize),
                None => None,
            }),
    {
        let rebuild_swapchain = self.swapchain_stale;
        self.swapchain_stale = false;
        let (left_area, _right_area) = self.multiplexer.areas();
        let pass = self.renderer.draw(left_area);
        FramePlan {
            rebuild_swapchain,
            window_size: self.multiplexer.window_size,
            area: left_area,
            pass,
        }
    }
}

} // verus!
