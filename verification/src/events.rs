//! What the control surface and the process deliver to the bridge.

use vstd::prelude::*;

verus! {

/// One input from the control surface.
#[derive(Debug, Clone, Copy, PartialEq, Eq, Structural)]
pub enum InputEvent {
    /// The button with this id was pressed.
    ButtonPressed(u8),
    /// The knob with this id was turned. Only the sign of the direction counts:
    /// a positive direction increments, any other decrements.
    KnobTurned(u8, i8),
}

/// A request to the process to terminate.
#[derive(Debug, Clone, Copy, PartialEq, Eq, Structural)]
pub enum Signal {
    /// The interactive interrupt.
    Interrupt,
    /// The managed stop.
    Terminate,
}

/// A change of state that the device reports.
#[derive(Debug, Clone, Copy, PartialEq, Eq, Structural)]
pub enum DeviceUpdate {
    /// The button was pressed down.
    ButtonDown(u8),
    /// The button was released.
    ButtonUp(u8),
    /// The knob was pressed down.
    EncoderDown(u8),
    /// The knob was released.
    EncoderUp(u8),
    /// The knob was turned by so many ticks, forward if positive.
    EncoderTwist(u8, i8),
}

/// The input that an update stands for: a press for a button that went down,
/// a turn for a knob that was twisted. Releases and knob presses are no input.
pub open spec fn input_of(update: DeviceUpdate) -> Option<InputEvent> {
    match update {
        DeviceUpdate::ButtonDown(id) => Some(InputEvent::ButtonPressed(id)),
        DeviceUpdate::EncoderTwist(id, ticks) => Some(InputEvent::KnobTurned(id, ticks)),
        _ => None,
    }
}

/// The inputs among the updates, in the order of the updates.
pub open spec fn inputs_of(updates: Seq<DeviceUpdate>) -> Seq<InputEvent> {
    updates.filter_map(|update: DeviceUpdate| input_of(update))
}

proof fn lemma_inputs_of_push(updates: Seq<DeviceUpdate>, update: DeviceUpdate)
    ensures
        inputs_of(Seq::<DeviceUpdate>::empty()) == Seq::<InputEvent>::empty(),
        inputs_of(updates.push(update)) == match input_of(update) {
            Some(input) => inputs_of(updates).push(input),
            None => inputs_of(updates),
        },
{
    assert(updates.push(update).drop_last() =~= updates);
}

impl DeviceUpdate {
    /// The input that the update stands for, if it stands for one.
    pub fn input(self) -> (input: Option<InputEvent>)
        ensures
            input == input_of(self),
    {
        match self {
            DeviceUpdate::ButtonDown(id) => Some(InputEvent::ButtonPressed(id)),
            DeviceUpdate::EncoderTwist(id, ticks) => Some(InputEvent::KnobTurned(id, ticks)),
            _ => None,
        }
    }
}

/// Gathers the batch of inputs that one read of the device delivered.
pub fn gather_inputs(updates: &Vec<DeviceUpdate>) -> (batch: Vec<InputEvent>)
    ensures
        batch@ == inputs_of(updates@),
{
    let mut batch: Vec<InputEvent> = Vec::new();
    let mut i: usize = 0;
    proof {
        lemma_inputs_of_push(Seq::empty(), DeviceUpdate::ButtonUp(0));
    }
    while i < updates.len()
        invariant
            i <= updates.len(),
            batch@ == inputs_of(updates@.take(i as int)),
        decreases updates.len() - i,
    {
        proof {
            lemma_inputs_of_push(updates@.take(i as int), updates[i as int]);
            assert(updates@.take(i + 1) =~= updates@.take(i as int).push(updates[i as int]));
        }
        if let Some(input) = updates[i].input() {
            batch.push(input);
        }
        i += 1;
    }
    assert(updates@.take(i as int) =~= updates@);
    batch
}

} // verus!
