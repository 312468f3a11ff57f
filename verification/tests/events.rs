use deck_bridge::events::{gather_inputs, DeviceUpdate, InputEvent};

#[test]
fn button_down_is_a_press() {
    assert_eq!(DeviceUpdate::ButtonDown(3).input(), Some(InputEvent::ButtonPressed(3)));
    assert_eq!(DeviceUpdate::ButtonDown(255).input(), Some(InputEvent::ButtonPressed(255)));
}

#[test]
fn encoder_twist_is_a_turn() {
    assert_eq!(DeviceUpdate::EncoderTwist(2, 1).input(), Some(InputEvent::KnobTurned(2, 1)));
    assert_eq!(DeviceUpdate::EncoderTwist(0, -4).input(), Some(InputEvent::KnobTurned(0, -4)));
    assert_eq!(DeviceUpdate::EncoderTwist(1, 0).input(), Some(InputEvent::KnobTurned(1, 0)));
}

#[test]
fn releases_and_knob_presses_are_no_input() {
    assert_eq!(DeviceUpdate::ButtonUp(3).input(), None);
    assert_eq!(DeviceUpdate::EncoderDown(1).input(), None);
    assert_eq!(DeviceUpdate::EncoderUp(1).input(), None);
}

#[test]
fn inputs_are_gathered_in_order() {
    let updates = vec![
        DeviceUpdate::ButtonDown(1),
        DeviceUpdate::ButtonUp(1),
        DeviceUpdate::EncoderDown(0),
        DeviceUpdate::EncoderTwist(2, 1),
        DeviceUpdate::EncoderUp(0),
        DeviceUpdate::ButtonDown(1),
        DeviceUpdate::EncoderTwist(2, -1),
    ];
    assert_eq!(
        gather_inputs(&updates),
        vec![
            InputEvent::ButtonPressed(1),
            InputEvent::KnobTurned(2, 1),
            InputEvent::ButtonPressed(1),
            InputEvent::KnobTurned(2, -1),
        ]
    );
}

#[test]
fn updates_without_input_give_an_empty_batch() {
    assert_eq!(gather_inputs(&vec![]), vec![]);
    assert_eq!(
        gather_inputs(&vec![DeviceUpdate::ButtonUp(1), DeviceUpdate::EncoderDown(2)]),
        vec![]
    );
}
