use vstd::prelude::*;
use crate::event::EventWindowError;

verus! {

/// The steps that the window thread runs, in order: start both hooks,
/// create the window, register it for raw mouse input, run the message loop,
/// then destroy the window and stop both hooks.
#[derive(Clone, Copy, Debug, PartialEq, Eq, Structural)]
pub enum WindowStep {
    StartKeyboardHook,
    StartWinEventHook,
    CreateWindow,
    RegisterRawInput,
    RunMessageLoop,
    DestroyWindow,
    StopKeyboardHook,
    StopWinEventHook,
}

/// Position of a step in the thread's run.
pub open spec fn step_index(step: WindowStep) -> nat {
    match step {
        WindowStep::StartKeyboardHook => 0,
        WindowStep::StartWinEventHook => 1,
        WindowStep::CreateWindow => 2,
        WindowStep::RegisterRawInput => 3,
        WindowStep::RunMessageLoop => 4,
        WindowStep::DestroyWindow => 5,
        WindowStep::StopKeyboardHook => 6,
        WindowStep::StopWinEventHook => 7,
    }
}

/// The error that ends the thread when a step fails. The message loop has
/// none: a message that cannot be handled is logged and the loop goes on, so
/// the loop step always runs through to the teardown.
pub open spec fn failure_of(step: WindowStep) -> Option<EventWindowError> {
    match step {
        WindowStep::StartKeyboardHook => Some(EventWindowError::HookStartupFailure),
        WindowStep::StartWinEventHook => Some(EventWindowError::HookStartupFailure),
        WindowStep::CreateWindow => Some(EventWindowError::WindowCreationFailure),
        WindowStep::RegisterRawInput => Some(EventWindowError::DeviceRegistrationFailure),
        WindowStep::RunMessageLoop => None,
        WindowStep::DestroyWindow => Some(EventWindowError::WindowDestructionFailure),
        WindowStep::StopKeyboardHook => Some(EventWindowError::HookShutdownFailure),
        WindowStep::StopWinEventHook => Some(EventWindowError::HookShutdownFailure),
    }
}

impl WindowStep {
    /// The step the thread starts with.
    pub fn first() -> (r: WindowStep)
        ensures
            step_index(r) == 0,
    {
        WindowStep::StartKeyboardHook
    }

    /// What follows this step. When a step that can fail failed, the thread
    /// ends with its error and nothing is retried; otherwise the next step in
    /// order runs, and after the last one the thread ends successfully.
    pub fn next(self, succeeded: bool) -> (r: Result<Option<WindowStep>, EventWindowError>)
        ensures
            !succeeded && failure_of(self) is Some ==> r == Err::<
                Option<WindowStep>,
                EventWindowError,
            >(failure_of(self).unwrap()),
            (succeeded || failure_of(self) is None) && step_index(self) < 7 ==> (r matches Ok(Some(n)) && step_index(n)
                == step_index(self) + 1),
            step_index(self) == 7 && succeeded ==> r == Ok::<Option<WindowStep>, EventWindowError>(
                None,
            ),
    {
        if !succeeded {
            let failure = match self {
                WindowStep::StartKeyboardHook => Some(EventWindowError::HookStartupFailure),
                WindowStep::StartWinEventHook => Some(EventWindowError::HookStartupFailure),
                WindowStep::CreateWindow => Some(EventWindowError::WindowCreationFailure),
                WindowStep::RegisterRawInput => Some(EventWindowError::DeviceRegistrationFailure),
                WindowStep::RunMessageLoop => None,
                WindowStep::DestroyWindow => Some(EventWindowError::WindowDestructionFailure),
                WindowStep::StopKeyboardHook => Some(EventWindowError::HookShutdownFailure),
                WindowStep::StopWinEventHook => Some(EventWindowError::HookShutdownFailure),
            };
            if let Some(err) = failure {
                return Err(err);
            }
        }
        Ok(
            match self {
                WindowStep::StartKeyboardHook => Some(WindowStep::StartWinEventHook),
                WindowStep::StartWinEventHook => Some(WindowStep::CreateWindow),
                WindowStep::CreateWindow => Some(WindowStep::RegisterRawInput),
                WindowStep::RegisterRawInput => Some(WindowStep::RunMessageLoop),
                WindowStep::RunMessageLoop => Some(WindowStep::DestroyWindow),
                WindowStep::DestroyWindow => Some(WindowStep::StopKeyboardHook),
                WindowStep::StopKeyboardHook => Some(WindowStep::StopWinEventHook),
                WindowStep::StopWinEventHook => None,
            },
        )
    }
}

} // verus!
