use vstd::prelude::*;

verus! {

/// A position on the desktop, in physical pixels.
#[derive(Clone, Copy, Debug, PartialEq, Eq, Structural)]
pub struct Point {
    pub x: i32,
    pub y: i32,
}

/// The cursor moved.
#[derive(Clone, Copy, Debug, PartialEq, Eq, Structural)]
pub struct MouseMoveEvent {
    /// Cursor position at the time the event was emitted.
    pub point: Point,
    /// Whether the left or the right button was held down.
    pub is_mouse_down: bool,
}

/// The events that the event window publishes to the window manager.
#[derive(Clone, Copy, Debug, PartialEq, Eq, Structural)]
pub enum PlatformEvent {
    /// The display layout, the work area or the attached devices changed.
    DisplaySettingsChanged,
    /// The cursor moved.
    MouseMove(MouseMoveEvent),
}

/// What can go wrong while running the event window.
#[derive(Clone, Copy, Debug, PartialEq, Eq, Structural)]
pub enum EventWindowError {
    /// An event sink was already installed in this process.
    AlreadyInitialized,
    /// A hook collaborator failed to start.
    HookStartupFailure,
    /// A hook collaborator failed to stop.
    HookShutdownFailure,
    /// The hidden window could not be created.
    WindowCreationFailure,
    /// The window could not be registered for raw mouse input.
    DeviceRegistrationFailure,
    /// The hidden window could not be destroyed.
    WindowDestructionFailure,
    /// A single message could not be handled; the loop goes on.
    MessageHandlingFailure,
    /// The window thread ended abnormally.
    ThreadJoinFailure,
}

/// Builds the event for a cursor move.
pub fn mouse_move_event(x: i32, y: i32, is_mouse_down: bool) -> (r: PlatformEvent)
    ensures
        r == (PlatformEvent::MouseMove(MouseMoveEvent { point: Point { x, y }, is_mouse_down })),
{
    PlatformEvent::MouseMove(MouseMoveEvent { point: Point { x, y }, is_mouse_down })
}

} // verus!
