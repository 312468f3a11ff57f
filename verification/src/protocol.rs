//! The dialogue between the bridge and its driver: the bridge names one action
//! at a time, the driver performs it and answers with an event.

use crate::brightness::BrightnessWrite;
use crate::events::{InputEvent, Signal};
use crate::hass::{ServiceCall, ServiceCallView};
use vstd::prelude::*;

verus! {

/// Why a session ends.
#[derive(Debug, Clone, Copy, PartialEq, Eq, Structural)]
pub enum Ending {
    /// The process was asked to terminate.
    Signalled(Signal),
    /// Reading from the device failed.
    DeviceLost,
    /// A step of the startup sequence failed.
    StartupFailed,
}

/// Something for the log. Nothing reported here ends a session by itself.
#[derive(Debug, Clone, Copy, PartialEq, Eq, Structural)]
pub enum Report {
    /// No descriptor is bound to the id of this input.
    Unmapped(InputEvent),
    /// The call bound to this input failed.
    InvocationFailed(InputEvent),
    /// This brightness write failed.
    BrightnessFailed(BrightnessWrite),
    /// The session is about to be torn down, for this reason.
    Stopping(Ending),
    /// Flushing or shutting down the device failed during teardown.
    TeardownFailed,
}

/// What the driver is to do next.
#[derive(Debug, Clone, PartialEq, Eq)]
pub enum Action {
    /// Write the display brightness.
    SetBrightness(BrightnessWrite),
    /// Clear the image of every button.
    ClearDisplays,
    /// Load the named icon and write it to the button.
    UploadIcon { button: u8, icon: String },
    /// Flush the written images to the displays.
    Flush,
    /// Wait for whichever comes first: a batch of input, the end of the idle
    /// duration, a failed read, or a termination signal.
    AwaitInput { idle_seconds: u64 },
    /// Invoke the service.
    Invoke(ServiceCall),
    /// Write the report to the log.
    Report(Report),
    /// Shut the device down.
    Shutdown,
    /// Nothing more: the session is over.
    Finish(Ending),
}

/// How the last action went, or what the wait ended with.
#[derive(Debug, Clone, PartialEq, Eq)]
pub enum Event {
    /// The action was carried out.
    Succeeded,
    /// The action failed.
    Failed,
    /// The idle duration passed without input.
    IdleElapsed,
    /// The device delivered this batch of input, in order of arrival.
    Input(Vec<InputEvent>),
    /// Reading from the device failed.
    ReadFailed,
    /// The process was asked to terminate.
    Signalled(Signal),
}

/// An action as a mathematical value.
pub enum ActionView {
    SetBrightness(BrightnessWrite),
    ClearDisplays,
    UploadIcon { button: u8, icon: Seq<char> },
    Flush,
    AwaitInput { idle_seconds: u64 },
    Invoke(ServiceCallView),
    Report(Report),
    Shutdown,
    Finish(Ending),
}

/// An event as a mathematical value.
pub enum EventView {
    Succeeded,
    Failed,
    IdleElapsed,
    Input(Seq<InputEvent>),
    ReadFailed,
    Signalled(Signal),
}

impl View for Action {
    type V = ActionView;

    open spec fn view(&self) -> ActionView {
        match self {
            Action::SetBrightness(write) => ActionView::SetBrightness(*write),
            Action::ClearDisplays => ActionView::ClearDisplays,
            Action::UploadIcon { button, icon } => ActionView::UploadIcon {
                button: *button,
                icon: icon@,
            },
            Action::Flush => ActionView::Flush,
            Action::AwaitInput { idle_seconds } => ActionView::AwaitInput {
                idle_seconds: *idle_seconds,
            },
            Action::Invoke(call) => ActionView::Invoke(call@),
            Action::Report(report) => ActionView::Report(*report),
            Action::Shutdown => ActionView::Shutdown,
            Action::Finish(ending) => ActionView::Finish(*ending),
        }
    }
}

impl View for Event {
    type V = EventView;

    open spec fn view(&self) -> EventView {
        match self {
            Event::Succeeded => EventView::Succeeded,
            Event::Failed => EventView::Failed,
            Event::IdleElapsed => EventView::IdleElapsed,
            Event::Input(batch) => EventView::Input(batch@),
            Event::ReadFailed => EventView::ReadFailed,
            Event::Signalled(signal) => EventView::Signalled(*signal),
        }
    }
}

impl EventView {
    /// Whether the event says how an action went.
    pub open spec fn is_outcome(self) -> bool {
        self is Succeeded || self is Failed
    }

    /// Whether the event is one of the ways in which a wait for input ends.
    pub open spec fn ends_wait(self) -> bool {
        !self.is_outcome()
    }
}

/// Whether `event` is an answer that the driver can give to `action`: a wait
/// ends in one of its four ways, the end of the session is not answered at
/// all, and every other action succeeds or fails.
pub open spec fn answers(action: ActionView, event: EventView) -> bool {
    match action {
        ActionView::AwaitInput { .. } => event.ends_wait(),
        ActionView::Finish(_) => false,
        _ => event.is_outcome(),
    }
}

} // verus!
