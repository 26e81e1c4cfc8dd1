use vstd::prelude::*;
use crate::event::EventWindowError;
use crate::input::InputState;
use crate::router::{dispatch_of, route_message, Dispatch};

verus! {

/// The state that the window procedure shares with the owner of the event
/// window: the event sink, installed once and kept, the mouse-events switch
/// and the mouse state.
pub struct EventState<S> {
    /// Where events are sent; `None` until installed.
    pub sink: Option<S>,
    /// Whether raw mouse input is decoded.
    pub mouse_enabled: bool,
    /// Button and throttle state of the raw input decoder.
    pub input: InputState,
}

impl<S> EventState<S> {
    /// What installing a sink returns: it fails once one is installed.
    pub open spec fn install_result(self) -> Result<(), EventWindowError> {
        if self.sink is None {
            Ok(())
        } else {
            Err(EventWindowError::AlreadyInitialized)
        }
    }

    /// The state after installing `sink` with the mouse-events switch set to
    /// `mouse_enabled`; unchanged if a sink was already installed.
    pub open spec fn after_install(self, sink: S, mouse_enabled: bool) -> EventState<S> {
        if self.sink is None {
            EventState { sink: Some(sink), mouse_enabled, input: self.input }
        } else {
            self
        }
    }

    /// No sink, mouse events off, both buttons up, nothing emitted.
    pub fn new() -> (r: EventState<S>)
        ensures
            r.sink is None,
            !r.mouse_enabled,
            !r.input.left_down,
            !r.input.right_down,
            r.input.last_event_time == 0,
    {
        EventState { sink: None, mouse_enabled: false, input: InputState::new() }
    }

    /// Installs the event sink and sets the mouse-events switch. Fails with
    /// `AlreadyInitialized`, changing nothing, when a sink is already there.
    pub fn install_sink(&mut self, sink: S, mouse_enabled: bool) -> (r: Result<
        (),
        EventWindowError,
    >)
        ensures
            r == old(self).install_result(),
            *final(self) == old(self).after_install(sink, mouse_enabled),
            r is Ok <==> old(self).sink is None,
    {
        if self.sink.is_some() {
            return Err(EventWindowError::AlreadyInitialized);
        }
        self.sink = Some(sink);
        self.mouse_enabled = mouse_enabled;
        Ok(())
    }

    /// Turns decoding of raw mouse input on or off.
    pub fn set_mouse_enabled(&mut self, mouse_enabled: bool)
        ensures
            final(self).mouse_enabled == mouse_enabled,
            final(self).sink == old(self).sink,
            final(self).input == old(self).input,
    {
        self.mouse_enabled = mouse_enabled;
    }

    /// The installed sink, if any.
    pub fn sink(&self) -> (r: &Option<S>)
        ensures
            *r == self.sink,
    {
        &self.sink
    }

    /// Picks the branch of the window procedure for `message` in this state.
    pub fn route(&self, message: u32) -> (r: Dispatch)
        ensures
            r == dispatch_of(self.sink is Some, self.mouse_enabled, message),
    {
        route_message(self.sink.is_some(), self.mouse_enabled, message)
    }
}

/// Single sink: whatever the state, once a sink has been installed a second
/// install fails with `AlreadyInitialized` and leaves the first in place.
pub proof fn lemma_second_install_fails<S>(
    s: EventState<S>,
    first: S,
    second: S,
    first_mouse: bool,
    second_mouse: bool,
)
    ensures
        s.after_install(first, first_mouse).install_result() == Err::<(), EventWindowError>(
            EventWindowError::AlreadyInitialized,
        ),
        s.after_install(first, first_mouse).after_install(second, second_mouse) == s.after_install(
            first,
            first_mouse,
        ),
{
}

} // verus!
