//! Dispatch of window notifications: the decision of what the shell does
//! in reaction to each event delivered by the windowing system.

use vstd::prelude::*;

verus! {

/// The window notifications the shell reacts to. Sizes are physical
/// pixels. Everything the shell ignores is `Other`.
#[derive(Clone, Copy, Debug, PartialEq, Eq, Structural)]
pub enum WindowEvent {
    CloseRequested,
    RedrawRequested,
    Resized(u32, u32),
    Other,
}

/// What the shell does in reaction to one window event.
#[derive(Clone, Copy, Debug, PartialEq, Eq, Structural)]
pub enum AppAction {
    /// Stop the event loop and let teardown run.
    Exit,
    /// Drive one acquire/present cycle against the context.
    RenderFrame,
    /// Reconfigure the surface to the new physical size.
    ResizeSurface(u32, u32),
    /// Nothing to do.
    Ignore,
}

/// The event-to-action mapping: close ends the loop, a redraw request
/// drives presentation, a size change drives reconfiguration, and every
/// other event is ignored.
pub open spec fn event_action(event: WindowEvent) -> AppAction {
    match event {
        WindowEvent::CloseRequested => AppAction::Exit,
        WindowEvent::RedrawRequested => AppAction::RenderFrame,
        WindowEvent::Resized(width, height) => AppAction::ResizeSurface(width, height),
        WindowEvent::Other => AppAction::Ignore,
    }
}

/// Decide how the shell reacts to one window event.
pub fn handle_window_event(event: &WindowEvent) -> (action: AppAction)
    ensures
        action == event_action(*event),
{
    match event {
        WindowEvent::CloseRequested => AppAction::Exit,
        WindowEvent::RedrawRequested => AppAction::RenderFrame,
        WindowEvent::Resized(width, height) => AppAction::ResizeSurface(*width, *height),
        WindowEvent::Other => AppAction::Ignore,
    }
}

} // verus!
