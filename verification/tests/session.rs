use deck_bridge::brightness::{BrightnessState, BrightnessWrite};
use deck_bridge::config::{ButtonConfig, Config, KnobConfig};
use deck_bridge::events::{InputEvent, Signal};
use deck_bridge::hass::{Param, ParamValue, ServiceCall};
use deck_bridge::model::Phase;
use deck_bridge::protocol::{Action, Ending, Event, Report};
use deck_bridge::session::Session;

const IDLE: u64 = 30;
const LEVEL: u8 = 50;

fn kitchen() -> Config {
    Config {
        brightness: LEVEL,
        timeout: IDLE,
        buttons: vec![ButtonConfig {
            id: 1,
            domain: "light".to_string(),
            service: "toggle".to_string(),
            entity_id: "light.kitchen".to_string(),
            icon: "bulb.png".to_string(),
        }],
        knobs: vec![KnobConfig {
            id: 2,
            domain: "light".to_string(),
            service: "turn_on".to_string(),
            entity_id: "light.kitchen".to_string(),
            key: "brightness_step".to_string(),
            step: 10,
        }],
    }
}

fn entity() -> Param {
    Param { key: "entity_id".to_string(), value: ParamValue::Text("light.kitchen".to_string()) }
}

fn toggle() -> Action {
    Action::Invoke(ServiceCall {
        domain: "light".to_string(),
        service: "toggle".to_string(),
        parameters: vec![entity()],
    })
}

fn turn_on(step: i128) -> Action {
    Action::Invoke(ServiceCall {
        domain: "light".to_string(),
        service: "turn_on".to_string(),
        parameters: vec![
            entity(),
            Param { key: "brightness_step".to_string(), value: ParamValue::Number(step) },
        ],
    })
}

fn wait() -> Action {
    Action::AwaitInput { idle_seconds: IDLE }
}

fn restore() -> Action {
    Action::SetBrightness(BrightnessWrite::Level(LEVEL))
}

fn dim() -> Action {
    Action::SetBrightness(BrightnessWrite::Dim)
}

/// Gives the events one by one and collects the actions named in answer.
fn drive(session: &mut Session, events: Vec<Event>) -> Vec<Action> {
    let mut actions = Vec::new();
    for event in events {
        actions.push(session.step(event));
    }
    actions
}

/// A session that has come through startup and waits for input.
fn started(config: Config) -> Session {
    let mut session = Session::new(config);
    let mut action = session.pending();
    while action != wait() {
        action = session.step(Event::Succeeded);
    }
    session
}

/// A started session whose surface is dimmed.
fn dimmed(config: Config) -> Session {
    let mut session = started(config);
    assert_eq!(
        drive(&mut session, vec![Event::IdleElapsed, Event::Succeeded]),
        vec![dim(), wait()]
    );
    assert_eq!(session.brightness(), BrightnessState::Dimmed);
    session
}

#[test]
fn startup_runs_its_steps_in_order() {
    let mut config = kitchen();
    config.buttons.push(ButtonConfig {
        id: 4,
        domain: "switch".to_string(),
        service: "turn_off".to_string(),
        entity_id: "switch.fan".to_string(),
        icon: "fan.png".to_string(),
    });
    let mut session = Session::new(config);
    assert_eq!(session.phase(), Phase::SettingBrightness);
    assert_eq!(session.pending(), restore());
    assert_eq!(
        drive(
            &mut session,
            vec![
                Event::Succeeded,
                Event::Succeeded,
                Event::Succeeded,
                Event::Succeeded,
                Event::Succeeded
            ]
        ),
        vec![
            Action::ClearDisplays,
            Action::UploadIcon { button: 1, icon: "bulb.png".to_string() },
            Action::UploadIcon { button: 4, icon: "fan.png".to_string() },
            Action::Flush,
            wait(),
        ]
    );
    assert_eq!(session.phase(), Phase::Waiting);
    assert_eq!(session.brightness(), BrightnessState::Active(LEVEL));
}

#[test]
fn startup_without_buttons_uploads_nothing() {
    let bare = Config { brightness: 80, timeout: 5, buttons: vec![], knobs: vec![] };
    let mut session = Session::new(bare);
    assert_eq!(session.pending(), Action::SetBrightness(BrightnessWrite::Level(80)));
    assert_eq!(
        drive(&mut session, vec![Event::Succeeded, Event::Succeeded, Event::Succeeded]),
        vec![Action::ClearDisplays, Action::Flush, Action::AwaitInput { idle_seconds: 5 }]
    );
}

#[test]
fn startup_uploads_an_icon_for_each_descriptor_even_of_one_id() {
    let mut config = kitchen();
    let mut again = config.buttons[0].clone();
    again.icon = "other.png".to_string();
    config.buttons.push(again);
    let mut session = Session::new(config);
    assert_eq!(
        drive(&mut session, vec![Event::Succeeded, Event::Succeeded, Event::Succeeded]),
        vec![
            Action::ClearDisplays,
            Action::UploadIcon { button: 1, icon: "bulb.png".to_string() },
            Action::UploadIcon { button: 1, icon: "other.png".to_string() },
        ]
    );
}

#[test]
fn failed_startup_step_ends_the_session() {
    for failing in 0..4 {
        let mut session = Session::new(kitchen());
        for _ in 0..failing {
            session.step(Event::Succeeded);
        }
        assert_eq!(
            drive(
                &mut session,
                vec![Event::Failed, Event::Succeeded, Event::Succeeded, Event::Succeeded]
            ),
            vec![
                Action::Report(Report::Stopping(Ending::StartupFailed)),
                Action::Flush,
                Action::Shutdown,
                Action::Finish(Ending::StartupFailed),
            ]
        );
        assert_eq!(session.phase(), Phase::Closed(Ending::StartupFailed));
    }
}

#[test]
fn knob_with_the_least_step_can_be_turned_back() {
    let mut config = kitchen();
    config.knobs[0].step = i64::MIN;
    let mut session = started(config);
    let batch = vec![InputEvent::KnobTurned(2, 1), InputEvent::KnobTurned(2, -1)];
    assert_eq!(
        drive(&mut session, vec![Event::Input(batch), Event::Succeeded, Event::Succeeded]),
        vec![turn_on(-9223372036854775808), turn_on(9223372036854775808), wait()]
    );
}

#[test]
fn consecutive_timeouts_dim_once() {
    let mut session = started(kitchen());
    assert_eq!(
        drive(
            &mut session,
            vec![
                Event::IdleElapsed,
                Event::Succeeded,
                Event::IdleElapsed,
                Event::IdleElapsed,
                Event::IdleElapsed
            ]
        ),
        vec![dim(), wait(), wait(), wait(), wait()]
    );
    assert_eq!(session.brightness(), BrightnessState::Dimmed);
}

#[test]
fn single_timeout_dims_once() {
    let mut session = started(kitchen());
    assert_eq!(session.step(Event::IdleElapsed), dim());
    assert_eq!(session.phase(), Phase::Dimming);
    assert_eq!(session.brightness(), BrightnessState::Active(LEVEL));
    assert_eq!(session.step(Event::Succeeded), wait());
    assert_eq!(session.brightness(), BrightnessState::Dimmed);
}

#[test]
fn failed_dimming_is_reported_and_tried_again_at_the_next_timeout() {
    let mut session = started(kitchen());
    assert_eq!(
        drive(&mut session, vec![Event::IdleElapsed, Event::Failed, Event::Succeeded]),
        vec![dim(), Action::Report(Report::BrightnessFailed(BrightnessWrite::Dim)), wait()]
    );
    assert_eq!(session.brightness(), BrightnessState::Active(LEVEL));
    assert_eq!(
        drive(&mut session, vec![Event::IdleElapsed, Event::Succeeded, Event::IdleElapsed]),
        vec![dim(), wait(), wait()]
    );
    assert_eq!(session.brightness(), BrightnessState::Dimmed);
}

#[test]
fn batch_on_a_dimmed_surface_restores_once_before_dispatch() {
    let mut session = dimmed(kitchen());
    let batch = vec![
        InputEvent::ButtonPressed(1),
        InputEvent::KnobTurned(2, 1),
        InputEvent::ButtonPressed(1),
    ];
    assert_eq!(
        drive(
            &mut session,
            vec![
                Event::Input(batch),
                Event::Succeeded,
                Event::Succeeded,
                Event::Succeeded,
                Event::Succeeded
            ]
        ),
        vec![restore(), toggle(), turn_on(10), toggle(), wait()]
    );
    assert_eq!(session.brightness(), BrightnessState::Active(LEVEL));
}

#[test]
fn batch_of_one_on_a_dimmed_surface_restores_once() {
    let mut session = dimmed(kitchen());
    assert_eq!(
        drive(
            &mut session,
            vec![
                Event::Input(vec![InputEvent::ButtonPressed(1)]),
                Event::Succeeded,
                Event::Succeeded
            ]
        ),
        vec![restore(), toggle(), wait()]
    );
}

#[test]
fn batch_on_a_surface_in_use_writes_no_brightness() {
    let mut session = started(kitchen());
    let batch = vec![InputEvent::KnobTurned(2, -1), InputEvent::ButtonPressed(1)];
    assert_eq!(
        drive(&mut session, vec![Event::Input(batch), Event::Succeeded, Event::Succeeded]),
        vec![turn_on(-10), toggle(), wait()]
    );
    assert_eq!(session.brightness(), BrightnessState::Active(LEVEL));
}

#[test]
fn failed_restore_is_reported_and_tried_again_with_the_next_batch() {
    let mut session = dimmed(kitchen());
    assert_eq!(
        drive(
            &mut session,
            vec![
                Event::Input(vec![InputEvent::ButtonPressed(1)]),
                Event::Failed,
                Event::Succeeded,
                Event::Succeeded
            ]
        ),
        vec![
            restore(),
            Action::Report(Report::BrightnessFailed(BrightnessWrite::Level(LEVEL))),
            toggle(),
            wait(),
        ]
    );
    assert_eq!(session.brightness(), BrightnessState::Dimmed);
    assert_eq!(
        drive(
            &mut session,
            vec![
                Event::Input(vec![InputEvent::ButtonPressed(1)]),
                Event::Succeeded,
                Event::Succeeded
            ]
        ),
        vec![restore(), toggle(), wait()]
    );
    assert_eq!(session.brightness(), BrightnessState::Active(LEVEL));
}

#[test]
fn batch_is_dispatched_in_order_of_arrival() {
    let mut session = started(kitchen());
    let batch = vec![
        InputEvent::ButtonPressed(1),
        InputEvent::KnobTurned(2, 1),
        InputEvent::ButtonPressed(1),
    ];
    assert_eq!(session.step(Event::Input(batch)), toggle());
    assert_eq!(session.phase(), Phase::Dispatching(0));
    assert_eq!(session.step(Event::Succeeded), turn_on(10));
    assert_eq!(session.phase(), Phase::Dispatching(1));
    assert_eq!(session.step(Event::Succeeded), toggle());
    assert_eq!(session.phase(), Phase::Dispatching(2));
    assert_eq!(session.step(Event::Succeeded), wait());
    assert_eq!(session.phase(), Phase::Waiting);
}

#[test]
fn knob_turns_follow_the_sign_policy() {
    let mut session = started(kitchen());
    let batch = vec![
        InputEvent::KnobTurned(2, -1),
        InputEvent::KnobTurned(2, 0),
        InputEvent::KnobTurned(2, 1),
    ];
    assert_eq!(
        drive(
            &mut session,
            vec![Event::Input(batch), Event::Succeeded, Event::Succeeded, Event::Succeeded]
        ),
        vec![turn_on(-10), turn_on(-10), turn_on(10), wait()]
    );
}

#[test]
fn unmapped_input_is_reported_and_the_batch_goes_on() {
    let mut session = started(kitchen());
    let batch = vec![
        InputEvent::ButtonPressed(99),
        InputEvent::ButtonPressed(1),
        InputEvent::KnobTurned(1, 1),
    ];
    assert_eq!(
        drive(
            &mut session,
            vec![Event::Input(batch), Event::Succeeded, Event::Succeeded, Event::Succeeded]
        ),
        vec![
            Action::Report(Report::Unmapped(InputEvent::ButtonPressed(99))),
            toggle(),
            Action::Report(Report::Unmapped(InputEvent::KnobTurned(1, 1))),
            wait(),
        ]
    );
    assert_eq!(session.phase(), Phase::Waiting);
}

#[test]
fn failed_invocation_is_reported_and_the_batch_goes_on() {
    let mut session = started(kitchen());
    let batch = vec![InputEvent::ButtonPressed(1), InputEvent::KnobTurned(2, 1)];
    assert_eq!(
        drive(
            &mut session,
            vec![
                Event::Input(batch),
                Event::Failed,
                Event::Succeeded,
                Event::Failed,
                Event::Succeeded
            ]
        ),
        vec![
            toggle(),
            Action::Report(Report::InvocationFailed(InputEvent::ButtonPressed(1))),
            turn_on(10),
            Action::Report(Report::InvocationFailed(InputEvent::KnobTurned(2, 1))),
            wait(),
        ]
    );
    assert_eq!(session.phase(), Phase::Waiting);
}

#[test]
fn empty_batch_changes_nothing() {
    let mut session = dimmed(kitchen());
    assert_eq!(session.step(Event::Input(vec![])), wait());
    assert_eq!(session.brightness(), BrightnessState::Dimmed);
    assert_eq!(session.phase(), Phase::Waiting);
}

#[test]
fn signal_tears_the_device_down_once() {
    for signal in [Signal::Interrupt, Signal::Terminate] {
        let mut session = started(kitchen());
        assert_eq!(
            drive(
                &mut session,
                vec![Event::Signalled(signal), Event::Succeeded, Event::Succeeded, Event::Succeeded]
            ),
            vec![
                Action::Report(Report::Stopping(Ending::Signalled(signal))),
                Action::Flush,
                Action::Shutdown,
                Action::Finish(Ending::Signalled(signal)),
            ]
        );
        assert_eq!(session.step(Event::Succeeded), Action::Finish(Ending::Signalled(signal)));
        assert_eq!(session.step(Event::IdleElapsed), Action::Finish(Ending::Signalled(signal)));
    }
}

#[test]
fn signal_after_a_failed_brightness_write_still_tears_down_once() {
    let mut session = started(kitchen());
    drive(&mut session, vec![Event::IdleElapsed, Event::Failed, Event::Succeeded]);
    assert_eq!(
        drive(
            &mut session,
            vec![
                Event::Signalled(Signal::Terminate),
                Event::Succeeded,
                Event::Succeeded,
                Event::Succeeded
            ]
        ),
        vec![
            Action::Report(Report::Stopping(Ending::Signalled(Signal::Terminate))),
            Action::Flush,
            Action::Shutdown,
            Action::Finish(Ending::Signalled(Signal::Terminate)),
        ]
    );
}

#[test]
fn teardown_goes_on_when_its_steps_fail() {
    let mut session = started(kitchen());
    assert_eq!(
        drive(
            &mut session,
            vec![
                Event::Signalled(Signal::Interrupt),
                Event::Succeeded,
                Event::Failed,
                Event::Succeeded,
                Event::Failed,
                Event::Succeeded
            ]
        ),
        vec![
            Action::Report(Report::Stopping(Ending::Signalled(Signal::Interrupt))),
            Action::Flush,
            Action::Report(Report::TeardownFailed),
            Action::Shutdown,
            Action::Report(Report::TeardownFailed),
            Action::Finish(Ending::Signalled(Signal::Interrupt)),
        ]
    );
}

#[test]
fn failed_read_ends_the_session() {
    let mut session = dimmed(kitchen());
    assert_eq!(
        drive(
            &mut session,
            vec![Event::ReadFailed, Event::Succeeded, Event::Succeeded, Event::Succeeded]
        ),
        vec![
            Action::Report(Report::Stopping(Ending::DeviceLost)),
            Action::Flush,
            Action::Shutdown,
            Action::Finish(Ending::DeviceLost),
        ]
    );
    assert_eq!(session.phase(), Phase::Closed(Ending::DeviceLost));
}

#[test]
fn event_that_answers_nothing_is_ignored() {
    let mut session = started(kitchen());
    assert_eq!(session.step(Event::Succeeded), wait());
    assert_eq!(session.step(Event::Failed), wait());
    assert_eq!(session.step(Event::Input(vec![InputEvent::ButtonPressed(1)])), toggle());
    assert_eq!(session.step(Event::IdleElapsed), toggle());
    assert_eq!(session.step(Event::Signalled(Signal::Interrupt)), toggle());
    assert_eq!(session.step(Event::Input(vec![InputEvent::KnobTurned(2, 1)])), toggle());
    assert_eq!(session.step(Event::ReadFailed), toggle());
    assert_eq!(session.step(Event::Succeeded), wait());
}

#[test]
fn pending_repeats_the_last_answer() {
    let mut session = started(kitchen());
    assert_eq!(session.pending(), wait());
    let named = session.step(Event::Input(vec![InputEvent::ButtonPressed(1)]));
    assert_eq!(session.pending(), named);
    let named = session.step(Event::Failed);
    assert_eq!(session.pending(), named);
}

#[test]
fn kitchen_scenario_from_press_to_dim_to_turn() {
    let mut session = started(kitchen());
    assert_eq!(
        drive(
            &mut session,
            vec![Event::Input(vec![InputEvent::ButtonPressed(1)]), Event::Succeeded]
        ),
        vec![toggle(), wait()]
    );
    assert_eq!(
        drive(&mut session, vec![Event::IdleElapsed, Event::Succeeded]),
        vec![dim(), wait()]
    );
    assert_eq!(
        drive(
            &mut session,
            vec![
                Event::Input(vec![InputEvent::KnobTurned(2, 1)]),
                Event::Succeeded,
                Event::Succeeded
            ]
        ),
        vec![restore(), turn_on(10), wait()]
    );
    assert_eq!(session.brightness(), BrightnessState::Active(LEVEL));
}
