//! Service calls: what the backend is asked to do for a button press or a knob
//! turn.

use crate::config::{ButtonConfig, ButtonView, KnobConfig, KnobView};
use std::collections::HashMap;
use vstd::prelude::*;

verus! {

/// The value of one parameter of a service call.
#[derive(Debug, Clone, PartialEq, Eq)]
pub enum ParamValue {
    Text(String),
    /// A whole number. The type is wide enough for the negation of every step.
    Number(i128),
}

/// One parameter of a service call.
#[derive(Debug, Clone, PartialEq, Eq)]
pub struct Param {
    pub key: String,
    pub value: ParamValue,
}

/// One invocation of a named service. The parameters are listed in the order
/// in which they are entered into the mapping that the backend receives; of two
/// parameters with one key, the later one counts.
#[derive(Debug, Clone, PartialEq, Eq)]
pub struct ServiceCall {
    pub domain: String,
    pub service: String,
    pub parameters: Vec<Param>,
}

/// What an input leads to.
#[derive(Debug, Clone, PartialEq, Eq)]
pub enum Dispatch {
    /// The input is bound to this call.
    Invoke(ServiceCall),
    /// No descriptor is bound to the input's id.
    Unmapped,
}

/// The value of a parameter as a mathematical value.
pub enum ParamValueView {
    Text(Seq<char>),
    Number(int),
}

/// A parameter as a mathematical value.
pub struct ParamView {
    pub key: Seq<char>,
    pub value: ParamValueView,
}

/// A service call as a mathematical value.
pub struct ServiceCallView {
    pub domain: Seq<char>,
    pub service: Seq<char>,
    pub parameters: Seq<ParamView>,
}

/// What an input leads to, as a mathematical value.
pub enum DispatchView {
    Invoke(ServiceCallView),
    Unmapped,
}

impl View for ParamValue {
    type V = ParamValueView;

    open spec fn view(&self) -> ParamValueView {
        match self {
            ParamValue::Text(text) => ParamValueView::Text(text@),
            ParamValue::Number(number) => ParamValueView::Number(*number as int),
        }
    }
}

impl View for Param {
    type V = ParamView;

    open spec fn view(&self) -> ParamView {
        ParamView { key: self.key@, value: self.value@ }
    }
}

impl View for ServiceCall {
    type V = ServiceCallView;

    open spec fn view(&self) -> ServiceCallView {
        ServiceCallView {
            domain: self.domain@,
            service: self.service@,
            parameters: self.parameters@.map_values(|p: Param| p@),
        }
    }
}

impl View for Dispatch {
    type V = DispatchView;

    open spec fn view(&self) -> DispatchView {
        match self {
            Dispatch::Invoke(call) => DispatchView::Invoke(call@),
            Dispatch::Unmapped => DispatchView::Unmapped,
        }
    }
}

/// The mapping that a list of parameters stands for: each parameter is entered
/// in turn, so a later one replaces an earlier one with the same key.
pub open spec fn parameter_mapping(parameters: Seq<ParamView>) -> Map<Seq<char>, ParamValueView>
    decreases parameters.len(),
{
    if parameters.len() == 0 {
        Map::empty()
    } else {
        parameter_mapping(parameters.drop_last()).insert(
            parameters.last().key,
            parameters.last().value,
        )
    }
}

impl ServiceCallView {
    /// The parameters as the backend receives them.
    pub open spec fn mapping(self) -> Map<Seq<char>, ParamValueView> {
        parameter_mapping(self.parameters)
    }
}

/// The key under which every call names its target entity.
pub open spec fn entity_key() -> Seq<char> {
    "entity_id"@
}

/// The step that a turn in `direction` sends: the configured step for a
/// positive direction, its negation for any other. A direction of zero
/// therefore decrements.
pub open spec fn signed_step(step: i64, direction: i8) -> int {
    if direction > 0 {
        step as int
    } else {
        -(step as int)
    }
}

/// The call that a press of the button `button` makes.
pub open spec fn button_call(button: ButtonView) -> ServiceCallView {
    ServiceCallView {
        domain: button.domain,
        service: button.service,
        parameters: seq![
            ParamView { key: entity_key(), value: ParamValueView::Text(button.entity_id) },
        ],
    }
}

/// The call that a turn of the knob `knob` in `direction` makes.
pub open spec fn knob_call(knob: KnobView, direction: i8) -> ServiceCallView {
    ServiceCallView {
        domain: knob.domain,
        service: knob.service,
        parameters: seq![
            ParamView { key: entity_key(), value: ParamValueView::Text(knob.entity_id) },
            ParamView {
                key: knob.key,
                value: ParamValueView::Number(signed_step(knob.step, direction)),
            },
        ],
    }
}

/// A table of buttons by id, as mathematical values.
pub open spec fn button_table(buttons: Map<u8, ButtonConfig>) -> Map<u8, ButtonView> {
    buttons.map_values(|b: ButtonConfig| b@)
}

/// A table of knobs by id, as mathematical values.
pub open spec fn knob_table(knobs: Map<u8, KnobConfig>) -> Map<u8, KnobView> {
    knobs.map_values(|k: KnobConfig| k@)
}

/// What a press of button `id` leads to, given the table of buttons.
pub open spec fn button_dispatch(buttons: Map<u8, ButtonView>, id: u8) -> DispatchView {
    if buttons.contains_key(id) {
        DispatchView::Invoke(button_call(buttons[id]))
    } else {
        DispatchView::Unmapped
    }
}

/// What a turn of knob `id` in `direction` leads to, given the table of knobs.
pub open spec fn knob_dispatch(knobs: Map<u8, KnobView>, id: u8, direction: i8) -> DispatchView {
    if knobs.contains_key(id) {
        DispatchView::Invoke(knob_call(knobs[id], direction))
    } else {
        DispatchView::Unmapped
    }
}

fn entity_param(entity_id: &String) -> (param: Param)
    ensures
        param@ == (ParamView { key: entity_key(), value: ParamValueView::Text(entity_id@) }),
{
    Param { key: "entity_id".to_owned(), value: ParamValue::Text(entity_id.clone()) }
}

/// Decides what a press of button `i` leads to: the call of the descriptor
/// bound to `i`, with the entity as its only parameter, or nothing where no
/// descriptor is bound to `i`.
pub fn handle_button(buttons: &HashMap<u8, ButtonConfig>, i: u8) -> (dispatch: Dispatch)
    ensures
        dispatch@ == button_dispatch(button_table(buttons@), i),
{
    match buttons.get(&i) {
        Some(b) => {
            let mut parameters: Vec<Param> = Vec::new();
            parameters.push(entity_param(&b.entity_id));
            let call = ServiceCall {
                domain: b.domain.clone(),
                service: b.service.clone(),
                parameters,
            };
            assert(call@.parameters =~= button_call(b@).parameters);
            Dispatch::Invoke(call)
        },
        None => Dispatch::Unmapped,
    }
}

/// Decides what a turn of knob `i` leads to: the call of the descriptor bound
/// to `i`, with the entity and, under the descriptor's key, the step signed by
/// `value`, or nothing where no descriptor is bound to `i`.
pub fn handle_knob(knobs: &HashMap<u8, KnobConfig>, i: u8, value: i8) -> (dispatch: Dispatch)
    ensures
        dispatch@ == knob_dispatch(knob_table(knobs@), i, value),
{
    match knobs.get(&i) {
        Some(k) => {
            let step: i128 = if value > 0 {
                k.step as i128
            } else {
                -(k.step as i128)
            };
            let mut parameters: Vec<Param> = Vec::new();
            parameters.push(entity_param(&k.entity_id));
            parameters.push(Param { key: k.key.clone(), value: ParamValue::Number(step) });
            let call = ServiceCall {
                domain: k.domain.clone(),
                service: k.service.clone(),
                parameters,
            };
            assert(call@.parameters =~= knob_call(k@, value).parameters);
            Dispatch::Invoke(call)
        },
        None => Dispatch::Unmapped,
    }
}

/// A button's call carries the entity and nothing else.
pub proof fn law_button_parameters(button: ButtonView)
    ensures
        button_call(button).mapping() == Map::<Seq<char>, ParamValueView>::empty().insert(
            entity_key(),
            ParamValueView::Text(button.entity_id),
        ),
{
    let parameters = button_call(button).parameters;
    assert(parameter_mapping(parameters.drop_last()) == Map::<Seq<char>, ParamValueView>::empty());
}

/// Sign policy. Under the knob's key, a turn in a positive direction sends the
/// configured step and a turn in any other direction, zero included, sends its
/// negation. The entity is sent as well unless the knob's key takes its place.
pub proof fn law_sign_policy(knob: KnobView, direction: i8)
    ensures
        knob_call(knob, direction).mapping().dom() =~= set![entity_key(), knob.key],
        direction > 0 ==> knob_call(knob, direction).mapping()[knob.key] == ParamValueView::Number(
            knob.step as int,
        ),
        direction <= 0 ==> knob_call(knob, direction).mapping()[knob.key]
            == ParamValueView::Number(-(knob.step as int)),
        knob.key != entity_key() ==> knob_call(knob, direction).mapping()[entity_key()]
            == ParamValueView::Text(knob.entity_id),
{
    let parameters = knob_call(knob, direction).parameters;
    let first = parameters.drop_last();
    assert(parameter_mapping(first.drop_last()) == Map::<Seq<char>, ParamValueView>::empty());
    assert(parameter_mapping(first) == Map::<Seq<char>, ParamValueView>::empty().insert(
        entity_key(),
        ParamValueView::Text(knob.entity_id),
    ));
    assert(parameter_mapping(parameters) == parameter_mapping(first).insert(
        knob.key,
        ParamValueView::Number(signed_step(knob.step, direction)),
    ));
}

} // verus!
