use vstd::prelude::*;
use crate::event::PlatformEvent;
use crate::flags::{
    DBT_DEVNODES_CHANGED, SPI_ICONVERTICALSPACING, SPI_SETWORKAREA, WM_DEVICECHANGE,
    WM_DISPLAYCHANGE, WM_INPUT, WM_SETTINGCHANGE,
};

verus! {

/// Where the window procedure sends a message.
#[derive(Clone, Copy, Debug, PartialEq, Eq, Structural)]
pub enum Dispatch {
    /// No event sink is installed yet: report the message as handled and do
    /// nothing else.
    Ignore,
    /// A display, settings or device change: run the display-change handler
    /// and report the message as handled.
    DisplayChange,
    /// A raw input record while mouse events are enabled: run the raw input
    /// decoder and report the message as handled.
    RawInput,
    /// Anything else: hand the message to the system's default procedure.
    Default,
}

/// Whether a message belongs to the display, settings or device change class.
pub open spec fn is_display_class(message: u32) -> bool {
    message == WM_DISPLAYCHANGE || message == WM_SETTINGCHANGE || message == WM_DEVICECHANGE
}

/// Where a message goes, given whether a sink is installed and whether mouse
/// events are enabled.
pub open spec fn dispatch_of(sink_installed: bool, mouse_enabled: bool, message: u32) -> Dispatch {
    if !sink_installed {
        Dispatch::Ignore
    } else if is_display_class(message) {
        Dispatch::DisplayChange
    } else if message == WM_INPUT && mouse_enabled {
        Dispatch::RawInput
    } else {
        Dispatch::Default
    }
}

/// Picks the branch of the window procedure for `message`.
pub fn route_message(sink_installed: bool, mouse_enabled: bool, message: u32) -> (r: Dispatch)
    ensures
        r == dispatch_of(sink_installed, mouse_enabled, message),
{
    if !sink_installed {
        Dispatch::Ignore
    } else if message == WM_DISPLAYCHANGE || message == WM_SETTINGCHANGE || message
        == WM_DEVICECHANGE {
        Dispatch::DisplayChange
    } else if message == WM_INPUT && mouse_enabled {
        Dispatch::RawInput
    } else {
        Dispatch::Default
    }
}

/// Whether a display-class message with this discriminant announces a change
/// that the window manager must react to. A settings change counts only for
/// the work area and the icon spacing, a device change only for added or
/// removed devices; any other message of the class always counts.
pub open spec fn display_event_wanted(message: u32, discriminant: u32) -> bool {
    if message == WM_SETTINGCHANGE {
        discriminant == SPI_SETWORKAREA || discriminant == SPI_ICONVERTICALSPACING
    } else if message == WM_DEVICECHANGE {
        discriminant == DBT_DEVNODES_CHANGED
    } else {
        true
    }
}

/// The event, if any, that a display-class message produces. The
/// discriminant is the low 32 bits of the message's `wparam`.
pub fn handle_display_change_msg(message: u32, wparam: usize) -> (r: Option<PlatformEvent>)
    ensures
        r == (if display_event_wanted(message, wparam as u32) {
            Some(PlatformEvent::DisplaySettingsChanged)
        } else {
            None
        }),
{
    let discriminant = wparam as u32;
    let should_emit_event = if message == WM_SETTINGCHANGE {
        discriminant == SPI_SETWORKAREA || discriminant == SPI_ICONVERTICALSPACING
    } else if message == WM_DEVICECHANGE {
        discriminant == DBT_DEVNODES_CHANGED
    } else {
        true
    };
    if should_emit_event {
        Some(PlatformEvent::DisplaySettingsChanged)
    } else {
        None
    }
}

/// A settings change produces an event exactly for the work-area and
/// icon-spacing discriminants, and for no other.
pub proof fn lemma_settings_change_filter(discriminant: u32)
    ensures
        display_event_wanted(WM_SETTINGCHANGE, discriminant) <==> (discriminant
            == SPI_SETWORKAREA || discriminant == SPI_ICONVERTICALSPACING),
        display_event_wanted(WM_SETTINGCHANGE, SPI_SETWORKAREA),
        display_event_wanted(WM_SETTINGCHANGE, SPI_ICONVERTICALSPACING),
{
}

} // verus!
