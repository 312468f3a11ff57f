//! The bridge as a transition system over mathematical values: what a session
//! is configured with, what state it is in, which action each state waits on
//! and which state each event leads to.
//!
//! A session starts the device up, serves input until something ends it, and
//! tears the device down:
//!
//! * Startup writes the configured brightness, clears the displays, uploads the
//!   icon of each configured button in order, and flushes. A step that fails
//!   ends the session before it ever waits for input.
//! * In steady state the session waits for input. When the idle duration
//!   elapses it dims the surface unless it is dimmed already. When a batch of
//!   input arrives on a dimmed surface it restores the brightness once, and
//!   then dispatches the inputs of the batch one by one in order of arrival,
//!   whatever becomes of each. A batch without inputs changes nothing.
//! * A failed read or a termination signal, seen while waiting, ends the
//!   session.
//! * Teardown flushes and shuts the device down, each once, whatever became of
//!   the other.

use crate::actions::{event_dispatch, index_buttons, index_knobs};
use crate::brightness::{idle_write, input_write, settled, BrightnessState, BrightnessWrite};
use crate::config::{ButtonView, ConfigView, KnobView};
use crate::events::InputEvent;
use crate::hass::DispatchView;
use crate::protocol::{ActionView, Ending, EventView, Report};
use vstd::prelude::*;

verus! {

/// What a session is configured with. It never changes during the session.
pub struct Settings {
    /// The brightness while the surface is in use.
    pub level: u8,
    /// The idle duration, in seconds.
    pub idle_seconds: u64,
    /// The configured buttons, in the order in which their icons are uploaded.
    pub icons: Seq<ButtonView>,
    /// The buttons by id.
    pub buttons: Map<u8, ButtonView>,
    /// The knobs by id.
    pub knobs: Map<u8, KnobView>,
}

/// Where a session stands.
#[derive(Debug, Clone, Copy, PartialEq, Eq, Structural)]
pub enum Phase {
    /// Startup: the configured brightness is being written.
    SettingBrightness,
    /// Startup: the displays are being cleared.
    ClearingDisplays,
    /// Startup: the icon of the configured button at this place is being
    /// uploaded.
    UploadingIcon(usize),
    /// Startup: the uploaded icons are being flushed.
    FlushingIcons,
    /// Steady state: waiting for input.
    Waiting,
    /// Steady state: the dimming write is under way.
    Dimming,
    /// Steady state: the restoring write is under way, before the batch is
    /// dispatched.
    Restoring,
    /// Steady state: the input at this place of the batch is being dispatched.
    Dispatching(usize),
    /// Teardown: the device is being flushed.
    Flushing(Ending),
    /// Teardown: the device is being shut down.
    ShuttingDown(Ending),
    /// The session is over.
    Closed(Ending),
}

/// Where a session stands, as a mathematical value.
pub enum PhaseView {
    SettingBrightness,
    ClearingDisplays,
    UploadingIcon(nat),
    FlushingIcons,
    Waiting,
    Dimming,
    Restoring,
    Dispatching(nat),
    Flushing(Ending),
    ShuttingDown(Ending),
    Closed(Ending),
}

impl View for Phase {
    type V = PhaseView;

    open spec fn view(&self) -> PhaseView {
        match self {
            Phase::SettingBrightness => PhaseView::SettingBrightness,
            Phase::ClearingDisplays => PhaseView::ClearingDisplays,
            Phase::UploadingIcon(n) => PhaseView::UploadingIcon(*n as nat),
            Phase::FlushingIcons => PhaseView::FlushingIcons,
            Phase::Waiting => PhaseView::Waiting,
            Phase::Dimming => PhaseView::Dimming,
            Phase::Restoring => PhaseView::Restoring,
            Phase::Dispatching(n) => PhaseView::Dispatching(*n as nat),
            Phase::Flushing(ending) => PhaseView::Flushing(*ending),
            Phase::ShuttingDown(ending) => PhaseView::ShuttingDown(*ending),
            Phase::Closed(ending) => PhaseView::Closed(*ending),
        }
    }
}

/// The state of a session.
pub struct State {
    /// What the surface was last successfully written to.
    pub brightness: BrightnessState,
    pub phase: PhaseView,
    /// A report that is to be logged before the phase goes on.
    pub notice: Option<Report>,
    /// The batch that is being worked off. It counts only while the session
    /// restores or dispatches.
    pub batch: Seq<InputEvent>,
}

impl Settings {
    /// The settings that a configuration gives.
    pub open spec fn of(config: ConfigView) -> Settings {
        Settings {
            level: config.brightness,
            idle_seconds: config.timeout,
            icons: config.buttons,
            buttons: index_buttons(config.buttons),
            knobs: index_knobs(config.knobs),
        }
    }

    /// The state in which a session begins.
    pub open spec fn initial(self) -> State {
        State {
            brightness: BrightnessState::Active(self.level),
            phase: PhaseView::SettingBrightness,
            notice: None,
            batch: Seq::empty(),
        }
    }

    /// What the input `event` leads to.
    pub open spec fn dispatch(self, event: InputEvent) -> DispatchView {
        event_dispatch(self.buttons, self.knobs, event)
    }

    /// The action that dispatches the input `event`: the invocation of the call
    /// bound to it, or the report that nothing is bound to it.
    pub open spec fn dispatch_action(self, event: InputEvent) -> ActionView {
        match self.dispatch(event) {
            DispatchView::Invoke(call) => ActionView::Invoke(call),
            DispatchView::Unmapped => ActionView::Report(Report::Unmapped(event)),
        }
    }

    /// The phase in which the icon at place `n` is dealt with: its upload, or
    /// the flush once every icon is uploaded.
    pub open spec fn icon_phase(self, n: nat) -> PhaseView {
        if n < self.icons.len() {
            PhaseView::UploadingIcon(n)
        } else {
            PhaseView::FlushingIcons
        }
    }
}

impl State {
    /// Whether the state is one that a session can be in.
    pub open spec fn well_formed(self, settings: Settings) -> bool {
        &&& self.phase matches PhaseView::UploadingIcon(n) ==> n < settings.icons.len()
        &&& self.phase matches PhaseView::Dispatching(n) ==> n < self.batch.len()
        &&& self.phase is Restoring ==> self.batch.len() > 0
        &&& self.brightness matches BrightnessState::Active(level) ==> level == settings.level
    }

    /// Whether the session is waiting for input, with nothing left to report.
    pub open spec fn is_waiting(self) -> bool {
        self.phase is Waiting && self.notice is None
    }

    /// The state once teardown has begun for `ending`.
    pub open spec fn stopping(self, ending: Ending) -> State {
        State { phase: PhaseView::Flushing(ending), notice: Some(Report::Stopping(ending)), ..self }
    }

    /// The state once the input at place `n` of the batch is dealt with: the
    /// next input is dispatched, or, after the last, the session waits again.
    pub open spec fn advanced(self, n: nat) -> State {
        if n + 1 < self.batch.len() {
            State { phase: PhaseView::Dispatching(n + 1), ..self }
        } else {
            State { phase: PhaseView::Waiting, batch: Seq::empty(), ..self }
        }
    }

    /// The state after a brightness write was answered, the session going on in
    /// phase `then`. A failed write is reported and leaves the brightness as it
    /// was.
    pub open spec fn after_write(
        self,
        write: BrightnessWrite,
        event: EventView,
        then: PhaseView,
    ) -> State {
        match event {
            EventView::Succeeded => State {
                brightness: settled(self.brightness, write, true),
                phase: then,
                ..self
            },
            EventView::Failed => State {
                phase: then,
                notice: Some(Report::BrightnessFailed(write)),
                ..self
            },
            _ => self,
        }
    }
}

/// The state after a startup step was answered.
pub open spec fn startup_next(settings: Settings, state: State, event: EventView) -> State {
    match event {
        EventView::Succeeded => State {
            phase: match state.phase {
                PhaseView::SettingBrightness => PhaseView::ClearingDisplays,
                PhaseView::ClearingDisplays => settings.icon_phase(0),
                PhaseView::UploadingIcon(n) => settings.icon_phase(n + 1),
                _ => PhaseView::Waiting,
            },
            ..state
        },
        EventView::Failed => state.stopping(Ending::StartupFailed),
        _ => state,
    }
}

/// The state after a wait for input ended.
pub open spec fn waiting_next(settings: Settings, state: State, event: EventView) -> State {
    match event {
        EventView::IdleElapsed => match idle_write(state.brightness) {
            Some(_) => State { phase: PhaseView::Dimming, ..state },
            None => state,
        },
        EventView::Input(batch) => if batch.len() == 0 {
            state
        } else {
            State {
                phase: match input_write(state.brightness, settings.level) {
                    Some(_) => PhaseView::Restoring,
                    None => PhaseView::Dispatching(0),
                },
                batch,
                ..state
            }
        },
        EventView::ReadFailed => state.stopping(Ending::DeviceLost),
        EventView::Signalled(signal) => state.stopping(Ending::Signalled(signal)),
        _ => state,
    }
}

/// The state after the dispatch of the input at place `n` was answered. A
/// failed invocation is reported; the batch goes on either way.
pub open spec fn dispatching_next(
    settings: Settings,
    state: State,
    n: nat,
    event: EventView,
) -> State {
    match event {
        EventView::Succeeded => state.advanced(n),
        EventView::Failed => if settings.dispatch(state.batch[n as int]) is Invoke {
            State {
                notice: Some(Report::InvocationFailed(state.batch[n as int])),
                ..state.advanced(n)
            }
        } else {
            state.advanced(n)
        },
        _ => state,
    }
}

/// The state after a teardown step was answered. A failed step is reported;
/// teardown goes on either way.
pub open spec fn teardown_next(state: State, event: EventView) -> State {
    let then = match state.phase {
        PhaseView::Flushing(ending) => PhaseView::ShuttingDown(ending),
        PhaseView::ShuttingDown(ending) => PhaseView::Closed(ending),
        _ => state.phase,
    };
    match event {
        EventView::Succeeded => State { phase: then, ..state },
        EventView::Failed => State { phase: then, notice: Some(Report::TeardownFailed), ..state },
        _ => state,
    }
}

/// The state that `event` leads to. An event that is no answer to the action
/// the state waits on leaves the state as it is.
pub open spec fn next(settings: Settings, state: State, event: EventView) -> State {
    if state.notice is Some {
        if event.is_outcome() {
            State { notice: None, ..state }
        } else {
            state
        }
    } else {
        match state.phase {
            PhaseView::SettingBrightness
            | PhaseView::ClearingDisplays
            | PhaseView::UploadingIcon(_)
            | PhaseView::FlushingIcons => startup_next(settings, state, event),
            PhaseView::Waiting => waiting_next(settings, state, event),
            PhaseView::Dimming => state.after_write(
                BrightnessWrite::Dim,
                event,
                PhaseView::Waiting,
            ),
            PhaseView::Restoring => state.after_write(
                BrightnessWrite::Level(settings.level),
                event,
                PhaseView::Dispatching(0),
            ),
            PhaseView::Dispatching(n) => dispatching_next(settings, state, n, event),
            PhaseView::Flushing(_) | PhaseView::ShuttingDown(_) => teardown_next(state, event),
            PhaseView::Closed(_) => state,
        }
    }
}

/// The action that the state waits on: a report first, where one is due, and
/// else what the phase calls for.
pub open spec fn pending(settings: Settings, state: State) -> ActionView {
    match state.notice {
        Some(report) => ActionView::Report(report),
        None => match state.phase {
            PhaseView::SettingBrightness => ActionView::SetBrightness(
                BrightnessWrite::Level(settings.level),
            ),
            PhaseView::ClearingDisplays => ActionView::ClearDisplays,
            PhaseView::UploadingIcon(n) => ActionView::UploadIcon {
                button: settings.icons[n as int].id,
                icon: settings.icons[n as int].icon,
            },
            PhaseView::FlushingIcons => ActionView::Flush,
            PhaseView::Waiting => ActionView::AwaitInput { idle_seconds: settings.idle_seconds },
            PhaseView::Dimming => ActionView::SetBrightness(BrightnessWrite::Dim),
            PhaseView::Restoring => ActionView::SetBrightness(
                BrightnessWrite::Level(settings.level),
            ),
            PhaseView::Dispatching(n) => settings.dispatch_action(state.batch[n as int]),
            PhaseView::Flushing(_) => ActionView::Flush,
            PhaseView::ShuttingDown(_) => ActionView::Shutdown,
            PhaseView::Closed(ending) => ActionView::Finish(ending),
        },
    }
}

/// Every event leads from a state that a session can be in to another such
/// state.
pub proof fn lemma_next_well_formed(settings: Settings, state: State, event: EventView)
    requires
        state.well_formed(settings),
    ensures
        next(settings, state, event).well_formed(settings),
{
}

} // verus!
