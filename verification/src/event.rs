//! What a window reports, and what presenting a frame can answer.

use vstd::prelude::*;
use crate::geometry::Size;

verus! {

/// The keys that the shell tells apart.
#[derive(Clone, Copy, Debug, PartialEq, Eq, Structural)]
pub enum Key {
    Escape,
    Other,
}

/// An event delivered for the application's window.
#[derive(Clone, Copy, Debug, PartialEq, Eq, Structural)]
pub enum WindowEvent {
    /// The user asked for the window to be closed.
    CloseRequested,
    /// A key went down (`pressed`) or up.
    KeyboardInput { pressed: bool, key: Key },
    /// The drawable area changed to the given extent.
    Resized(Size),
    /// The window wants its contents drawn.
    RedrawRequested,
    /// The cursor moved. The two coordinates are the binary64 bit patterns of
    /// the position in physical pixels, measured from the top-left corner; the
    /// library stores them and never computes with them.
    CursorMoved { x: u64, y: u64 },
    /// Any other event.
    Other,
}

impl WindowEvent {
    /// The two events that end the application: a close request, and the
    /// escape key going down.
    pub open spec fn asks_to_quit(self) -> bool {
        match self {
            WindowEvent::CloseRequested => true,
            WindowEvent::KeyboardInput { pressed, key } => pressed && key == Key::Escape,
            _ => false,
        }
    }
}

/// Why the next frame could not be acquired from the surface.
#[derive(Clone, Copy, Debug, PartialEq, Eq, Structural)]
pub enum SurfaceFault {
    Timeout,
    Outdated,
    Lost,
    OutOfMemory,
    Other,
}

/// What the shell does about the outcome of presenting a frame.
#[derive(Clone, Copy, Debug, PartialEq, Eq, Structural)]
pub enum Recovery {
    /// The frame was presented: nothing to do.
    Proceed,
    /// The surface no longer matches the window: configure it again, at the
    /// current extent, and go on.
    Reconfigure,
    /// The frame is dropped with a warning, and the application goes on.
    SkipFrame,
    /// The application cannot go on.
    Fatal,
}

/// The recovery that each outcome of presenting a frame calls for.
pub open spec fn recovery_for(outcome: Result<(), SurfaceFault>) -> Recovery {
    match outcome {
        Ok(_) => Recovery::Proceed,
        Err(SurfaceFault::Lost) | Err(SurfaceFault::Outdated) => Recovery::Reconfigure,
        Err(SurfaceFault::OutOfMemory) | Err(SurfaceFault::Other) => Recovery::Fatal,
        Err(SurfaceFault::Timeout) => Recovery::SkipFrame,
    }
}

/// Classifies the outcome of presenting a frame. Every outcome falls in
/// exactly one class: success proceeds, a lost or outdated surface is
/// reconfigured, a timeout skips the frame, and running out of memory or an
/// unclassified fault is fatal.
pub fn classify(outcome: Result<(), SurfaceFault>) -> (recovery: Recovery)
    ensures
        recovery == recovery_for(outcome),
        recovery == Recovery::Proceed <==> outcome is Ok,
        recovery == Recovery::Reconfigure <==> (outcome == Err::<(), SurfaceFault>(
            SurfaceFault::Lost,
        ) || outcome == Err::<(), SurfaceFault>(SurfaceFault::Outdated)),
        recovery == Recovery::SkipFrame <==> outcome == Err::<(), SurfaceFault>(
            SurfaceFault::Timeout,
        ),
        recovery == Recovery::Fatal <==> (outcome == Err::<(), SurfaceFault>(
            SurfaceFault::OutOfMemory,
        ) || outcome == Err::<(), SurfaceFault>(SurfaceFault::Other)),
{
    match outcome {
        Ok(_) => Recovery::Proceed,
        Err(SurfaceFault::Lost) => Recovery::Reconfigure,
        Err(SurfaceFault::Outdated) => Recovery::Reconfigure,
        Err(SurfaceFault::OutOfMemory) => Recovery::Fatal,
        Err(SurfaceFault::Other) => Recovery::Fatal,
        Err(SurfaceFault::Timeout) => Recovery::SkipFrame,
    }
}

} // verus!
