//! One session with a connected device, from startup to teardown.
//!
//! A [`Session`] holds the state of the bridge and decides; it never touches
//! the device or the backend. Its driver asks for the pending [`Action`],
//! performs it, and hands the outcome to [`Session::step`], which returns the
//! next action, until that is [`Action::Finish`].

use crate::actions::ActionMap;
use crate::brightness::{BrightnessState, BrightnessWrite};
use crate::config::{button_views, ButtonConfig, Config};
use crate::events::InputEvent;
use crate::hass::Dispatch;
use crate::model::{dispatching_next, next, pending, waiting_next, Phase, Settings, State};
use crate::protocol::{Action, Ending, Event, EventView, Report};
use vstd::prelude::*;

verus! {

/// The bridge for one connected device.
pub struct Session {
    level: u8,
    idle_seconds: u64,
    icons: Vec<ButtonConfig>,
    actions: ActionMap,
    brightness: BrightnessState,
    phase: Phase,
    notice: Option<Report>,
    batch: Vec<InputEvent>,
}

impl View for Session {
    type V = State;

    closed spec fn view(&self) -> State {
        State {
            brightness: self.brightness,
            phase: self.phase@,
            notice: self.notice,
            batch: self.batch@,
        }
    }
}

impl Session {
    #[verifier::type_invariant]
    spec fn consistent(self) -> bool {
        self@.well_formed(self.settings())
    }

    /// What the session is configured with.
    pub closed spec fn settings(self) -> Settings {
        Settings {
            level: self.level,
            idle_seconds: self.idle_seconds,
            icons: button_views(self.icons@),
            buttons: self.actions.buttons(),
            knobs: self.actions.knobs(),
        }
    }

    /// Begins a session with `config`.
    pub fn new(config: Config) -> (session: Session)
        ensures
            session.settings() == Settings::of(config@),
            session@ == Settings::of(config@).initial(),
            session@.well_formed(session.settings()),
    {
        let actions = ActionMap::new(&config);
        Session {
            level: config.brightness,
            idle_seconds: config.timeout,
            icons: config.buttons,
            actions,
            brightness: BrightnessState::initial(config.brightness),
            phase: Phase::SettingBrightness,
            notice: None,
            batch: Vec::new(),
        }
    }

    /// What the surface was last successfully written to.
    pub fn brightness(&self) -> (brightness: BrightnessState)
        ensures
            brightness == self@.brightness,
    {
        self.brightness
    }

    /// Where the session stands.
    pub fn phase(&self) -> (phase: Phase)
        ensures
            phase@ == self@.phase,
    {
        self.phase
    }

    /// The action that the session waits on.
    pub fn pending(&self) -> (action: Action)
        ensures
            action@ == pending(self.settings(), self@),
    {
        proof {
            use_type_invariant(self);
        }
        match self.notice {
            Some(report) => Action::Report(report),
            None => match self.phase {
                Phase::SettingBrightness => Action::SetBrightness(
                    BrightnessWrite::Level(self.level),
                ),
                Phase::ClearingDisplays => Action::ClearDisplays,
                Phase::UploadingIcon(n) => {
                    let button = &self.icons[n];
                    Action::UploadIcon { button: button.id, icon: button.icon.clone() }
                },
                Phase::FlushingIcons => Action::Flush,
                Phase::Waiting => Action::AwaitInput { idle_seconds: self.idle_seconds },
                Phase::Dimming => Action::SetBrightness(BrightnessWrite::Dim),
                Phase::Restoring => Action::SetBrightness(BrightnessWrite::Level(self.level)),
                Phase::Dispatching(n) => {
                    let event = self.batch[n];
                    match self.actions.dispatch(event) {
                        Dispatch::Invoke(call) => Action::Invoke(call),
                        Dispatch::Unmapped => Action::Report(Report::Unmapped(event)),
                    }
                },
                Phase::Flushing(_) => Action::Flush,
                Phase::ShuttingDown(_) => Action::Shutdown,
                Phase::Closed(ending) => Action::Finish(ending),
            },
        }
    }

    /// Takes the driver's answer to the pending action and returns the action
    /// to perform next. An event that is no answer to the pending action
    /// changes nothing, and the same action is returned again.
    pub fn step(&mut self, event: Event) -> (action: Action)
        ensures
            final(self).settings() == old(self).settings(),
            final(self)@ == next(old(self).settings(), old(self)@, event@),
            final(self)@.well_formed(final(self).settings()),
            action@ == pending(final(self).settings(), final(self)@),
    {
        proof {
            use_type_invariant(&*self);
        }
        if self.notice.is_some() {
            match event {
                Event::Succeeded | Event::Failed => {
                    self.notice = None;
                },
                _ => {},
            }
        } else {
            match self.phase {
                Phase::SettingBrightness => self.startup_step(event, Phase::ClearingDisplays),
                Phase::ClearingDisplays => {
                    let then = self.icon_phase(0);
                    self.startup_step(event, then)
                },
                Phase::UploadingIcon(n) => {
                    assert(n < self.icons.len());
                    let then = self.icon_phase(n + 1);
                    self.startup_step(event, then)
                },
                Phase::FlushingIcons => self.startup_step(event, Phase::Waiting),
                Phase::Waiting => self.waiting_step(event),
                Phase::Dimming => self.write_step(BrightnessWrite::Dim, event, Phase::Waiting),
                Phase::Restoring => self.write_step(
                    BrightnessWrite::Level(self.level),
                    event,
                    Phase::Dispatching(0),
                ),
                Phase::Dispatching(n) => self.dispatching_step(n, event),
                Phase::Flushing(ending) => self.teardown_step(event, Phase::ShuttingDown(ending)),
                Phase::ShuttingDown(ending) => self.teardown_step(event, Phase::Closed(ending)),
                Phase::Closed(_) => {},
            }
        }
        proof {
            use_type_invariant(&*self);
        }
        self.pending()
    }

    fn icon_phase(&self, n: usize) -> (phase: Phase)
        ensures
            phase@ == self.settings().icon_phase(n as nat),
    {
        if n < self.icons.len() {
            Phase::UploadingIcon(n)
        } else {
            Phase::FlushingIcons
        }
    }

    fn stop(&mut self, ending: Ending)
        requires
            !(old(self).phase is Restoring),
        ensures
            final(self).settings() == old(self).settings(),
            final(self)@ == old(self)@.stopping(ending),
    {
        proof {
            use_type_invariant(&*self);
        }
        self.phase = Phase::Flushing(ending);
        self.notice = Some(Report::Stopping(ending));
    }

    fn startup_step(&mut self, event: Event, then: Phase)
        requires
            old(self).phase is SettingBrightness || old(self).phase is ClearingDisplays || old(
                self,
            ).phase is UploadingIcon || old(self).phase is FlushingIcons,
            then matches Phase::UploadingIcon(n) ==> n < old(self).settings().icons.len(),
            !(then is Dispatching) && !(then is Restoring),
        ensures
            final(self).settings() == old(self).settings(),
            final(self)@ == (match event@ {
                EventView::Succeeded => (State { phase: then@, ..old(self)@ }),
                EventView::Failed => old(self)@.stopping(Ending::StartupFailed),
                _ => old(self)@,
            }),
    {
        proof {
            use_type_invariant(&*self);
        }
        match event {
            Event::Succeeded => {
                self.phase = then;
            },
            Event::Failed => {
                self.stop(Ending::StartupFailed);
            },
            _ => {},
        }
    }

    fn waiting_step(&mut self, event: Event)
        requires
            old(self).phase is Waiting,
        ensures
            final(self).settings() == old(self).settings(),
            final(self)@ == waiting_next(old(self).settings(), old(self)@, event@),
    {
        proof {
            use_type_invariant(&*self);
        }
        match event {
            Event::IdleElapsed => {
                if self.brightness.on_idle_timeout().is_some() {
                    self.phase = Phase::Dimming;
                }
            },
            Event::Input(batch) => {
                if batch.len() > 0 {
                    let restore = self.brightness.on_input(self.level).is_some();
                    self.batch = batch;
                    self.phase = if restore {
                        Phase::Restoring
                    } else {
                        Phase::Dispatching(0)
                    };
                }
            },
            Event::ReadFailed => {
                self.stop(Ending::DeviceLost);
            },
            Event::Signalled(signal) => {
                self.stop(Ending::Signalled(signal));
            },
            _ => {},
        }
    }

    fn write_step(&mut self, write: BrightnessWrite, event: Event, then: Phase)
        requires
            old(self).phase is Dimming || old(self).phase is Restoring,
            write matches BrightnessWrite::Level(level) ==> level == old(self).level,
            then is Waiting || (then == Phase::Dispatching(0) && old(self).batch@.len() > 0),
        ensures
            final(self).settings() == old(self).settings(),
            final(self)@ == old(self)@.after_write(write, event@, then@),
    {
        proof {
            use_type_invariant(&*self);
        }
        match event {
            Event::Succeeded => {
                let mut brightness = self.brightness;
                brightness.settle(write, true);
                self.brightness = brightness;
                self.phase = then;
            },
            Event::Failed => {
                self.phase = then;
                self.notice = Some(Report::BrightnessFailed(write));
            },
            _ => {},
        }
    }

    fn dispatching_step(&mut self, n: usize, event: Event)
        requires
            old(self).phase == Phase::Dispatching(n),
            old(self).notice is None,
            n < old(self).batch@.len(),
        ensures
            final(self).settings() == old(self).settings(),
            final(self)@ == dispatching_next(old(self).settings(), old(self)@, n as nat, event@),
    {
        proof {
            use_type_invariant(&*self);
        }
        let input = self.batch[n];
        let failed = match event {
            Event::Succeeded => false,
            Event::Failed => true,
            _ => {
                return ;
            },
        };
        let report = if failed && self.actions.is_bound(input) {
            Some(Report::InvocationFailed(input))
        } else {
            None
        };
        let length = self.batch.len();
        if n + 1 < length {
            self.phase = Phase::Dispatching(n + 1);
        } else {
            self.phase = Phase::Waiting;
            self.batch = Vec::new();
        }
        self.notice = report;
    }

    fn teardown_step(&mut self, event: Event, then: Phase)
        requires
            old(self).phase is Flushing || old(self).phase is ShuttingDown,
            then is ShuttingDown || then is Closed,
        ensures
            final(self).settings() == old(self).settings(),
            final(self)@ == (match event@ {
                EventView::Succeeded => (State { phase: then@, ..old(self)@ }),
                EventView::Failed => (State {
                    phase: then@,
                    notice: Some(Report::TeardownFailed),
                    ..old(self)@
                }),
                _ => old(self)@,
            }),
    {
        proof {
            use_type_invariant(&*self);
        }
        match event {
            Event::Succeeded => {
                self.phase = then;
            },
            Event::Failed => {
                self.phase = then;
                self.notice = Some(Report::TeardownFailed);
            },
            _ => {},
        }
    }
}

} // verus!
