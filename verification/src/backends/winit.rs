use vstd::prelude::*;

use crate::geometry::Size;
use crate::Infwinity;

verus! {

/// The events of the winit backend that the compositor tells apart.
#[derive(Debug, Clone, Copy, PartialEq, Eq, Structural)]
pub enum WinitEvent {
    /// The window was resized to `size` physical pixels.
    Resized { size: Size },
    /// The window asks for a new frame.
    Redraw,
    /// The window was asked to close.
    CloseRequested,
    /// Any other event (focus, input).
    Other,
}

/// What the compositor does in answer to a winit event.
#[derive(Debug, Clone, Copy, PartialEq, Eq, Structural)]
pub enum WinitAction {
    /// Give the output a new current mode of this size and refresh rate.
    SetOutputMode { size: Size, refresh: i32 },
    /// Render a frame of the canvas on the output and submit it, then run
    /// `after_frame_rendered` and ask the window for the next frame.
    RenderFrame,
    /// Stop the event loop.
    Shutdown,
    /// Nothing to do.
    Ignore,
}

/// The compositor's answer to a winit event, and whether its event loop keeps running
/// afterwards.
pub open spec fn winit_step(running: bool, event: WinitEvent) -> (WinitAction, bool) {
    match event {
        WinitEvent::Resized { size } => (WinitAction::SetOutputMode { size, refresh: 0 }, running),
        WinitEvent::Redraw => (WinitAction::RenderFrame, running),
        WinitEvent::CloseRequested => (WinitAction::Shutdown, false),
        WinitEvent::Other => (WinitAction::Ignore, running),
    }
}

impl Infwinity {
    /// Handles one event of the winit backend.
    pub fn handle_winit_event(&mut self, event: WinitEvent) -> (action: WinitAction)
        ensures
            action == winit_step(old(self).running(), event).0,
            final(self).running() == winit_step(old(self).running(), event).1,
    {
        match event {
            WinitEvent::Resized { size } => WinitAction::SetOutputMode { size, refresh: 0 },
            WinitEvent::Redraw => WinitAction::RenderFrame,
            WinitEvent::CloseRequested => {
                self.shutdown();
                WinitAction::Shutdown
            },
            WinitEvent::Other => WinitAction::Ignore,
        }
    }
}

/// A close request stops the compositor, whatever its state; no other event stops it, and
/// once stopped no event starts it again.
pub proof fn lemma_only_close_stops(running: bool, event: WinitEvent)
    ensures
        winit_step(running, WinitEvent::CloseRequested) == (WinitAction::Shutdown, false),
        event != WinitEvent::CloseRequested ==> winit_step(running, event).1 == running,
        !running ==> !winit_step(running, event).1,
{
}

/// What the compositor answers to each winit event: a resize to any size sets the output
/// mode to exactly that size with refresh 0, a redraw renders a frame, any other event is
/// ignored; none of these changes whether the loop runs.
pub proof fn lemma_winit_answers(running: bool, size: Size)
    ensures
        winit_step(running, WinitEvent::Resized { size }) == (
            WinitAction::SetOutputMode { size, refresh: 0 },
            running,
        ),
        winit_step(running, WinitEvent::Redraw) == (WinitAction::RenderFrame, running),
        winit_step(running, WinitEvent::Other) == (WinitAction::Ignore, running),
{
}

} // verus!
