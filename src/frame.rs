//! What one turn of a window's event loop does with the event it woke for.
use vstd::prelude::*;

verus! {

/// The events of a window that the loop tells apart.
#[derive(Clone, Copy, Debug, PartialEq, Eq, Structural)]
pub enum LoopEvent {
    /// The drawable area changed to this size in pixels.
    Resized { width: u32, height: u32 },
    /// The user asked to close the window.
    CloseRequested,
    /// The platform asks for the frame to be shown.
    RedrawRequested,
    /// The loop is shutting down.
    LoopDestroyed,
    /// Anything else.
    Other,
}

/// The work of one turn, in this order: clear and draw the frame, tell the
/// context the new size, present the frame, leave the loop.
#[derive(Clone, Copy, Debug, PartialEq, Eq)]
pub struct FrameStep {
    pub draw: bool,
    pub resize: Option<(u32, u32)>,
    pub present: bool,
    pub exit: bool,
}

/// Every turn draws; a redraw request presents, a resize resizes, a close
/// request leaves the loop.
pub open spec fn frame_step(event: LoopEvent) -> FrameStep {
    FrameStep {
        draw: true,
        resize: match event {
            LoopEvent::Resized { width, height } => Some((width, height)),
            _ => None,
        },
        present: event == LoopEvent::RedrawRequested,
        exit: event == LoopEvent::CloseRequested,
    }
}

/// The work of the turn that woke for `event`.
pub fn on_event(event: LoopEvent) -> (r: FrameStep)
    ensures
        r == frame_step(event),
{
    let mut step = FrameStep { draw: true, resize: None, present: false, exit: false };
    match event {
        LoopEvent::Resized { width, height } => step.resize = Some((width, height)),
        LoopEvent::CloseRequested => step.exit = true,
        LoopEvent::RedrawRequested => step.present = true,
        LoopEvent::LoopDestroyed => {},
        LoopEvent::Other => {},
    }
    step
}

} // verus!
