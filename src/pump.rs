use vstd::prelude::*;

use crate::config::SurfaceRect;

verus! {

/// The window messages the blocking message pump distinguishes.
#[derive(Debug, Clone, Copy, PartialEq, Eq, Structural)]
pub enum WindowMessage {
    Paint,
    Destroy,
    Other,
}

/// What the window procedure does with a message.
#[derive(Debug, Clone, Copy, PartialEq, Eq, Structural)]
pub enum MessageResponse {
    /// Mark the client area as painted.
    ValidateRect,
    /// Ask the pump to stop: the window is closing.
    PostQuit,
    /// Leave the message to the platform's default handling.
    PassToDefault,
}

/// The window procedure's decision for one message of the blocking pump.
pub fn respond_to_message(message: WindowMessage) -> (r: MessageResponse)
    ensures
        message == WindowMessage::Paint ==> r == MessageResponse::ValidateRect,
        message == WindowMessage::Destroy ==> r == MessageResponse::PostQuit,
        message == WindowMessage::Other ==> r == MessageResponse::PassToDefault,
{
    match message {
        WindowMessage::Paint => MessageResponse::ValidateRect,
        WindowMessage::Destroy => MessageResponse::PostQuit,
        WindowMessage::Other => MessageResponse::PassToDefault,
    }
}

/// The events the render-every-tick pump distinguishes.
#[derive(Debug, Clone, Copy, PartialEq, Eq, Structural)]
pub enum PumpEvent {
    CloseRequested,
    Resized { width: u32, height: u32 },
    /// All pending events have been handled.
    EventsCleared,
    RedrawRequested,
    Other,
}

/// What the render-every-tick pump does next.
#[derive(Debug, Clone, Copy, PartialEq, Eq, Structural)]
pub enum PumpAction {
    /// Leave the loop: the window was closed.
    Exit,
    /// Resize the drawable and the viewport to the surface.
    Resize(SurfaceRect),
    /// Ask the window for a redraw.
    RequestRedraw,
    /// Render one frame and swap buffers.
    Render,
    /// Nothing to do until the next event.
    Wait,
}

} // verus!
