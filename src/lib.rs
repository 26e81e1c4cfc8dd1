//! Decision logic of the event window: a hidden window whose message loop
//! turns display, settings, device and raw mouse notifications into platform
//! events for the window manager.
pub mod event;
pub mod flags;
pub mod input;
pub mod lifecycle;
pub mod router;
pub mod shutdown;
pub mod state;
