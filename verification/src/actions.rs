//! The action map: the tables that bind input ids to descriptors. Buttons and
//! knobs are numbered independently, so one id may be bound in both.

use crate::config::{
    button_views, knob_views, ButtonConfig, ButtonView, Config, KnobConfig, KnobView,
};
use crate::events::InputEvent;
use crate::hass::{
    button_dispatch, button_table, handle_button, handle_knob, knob_dispatch, knob_table, Dispatch,
    DispatchView,
};
use std::collections::HashMap;
use vstd::prelude::*;

verus! {

/// The table that a list of button descriptors gives: each descriptor is
/// entered under its id in turn, so the last one with an id is the one bound.
pub open spec fn index_buttons(buttons: Seq<ButtonView>) -> Map<u8, ButtonView>
    decreases buttons.len(),
{
    if buttons.len() == 0 {
        Map::empty()
    } else {
        index_buttons(buttons.drop_last()).insert(buttons.last().id, buttons.last())
    }
}

/// The table that a list of knob descriptors gives, built as [`index_buttons`]
/// builds its table.
pub open spec fn index_knobs(knobs: Seq<KnobView>) -> Map<u8, KnobView>
    decreases knobs.len(),
{
    if knobs.len() == 0 {
        Map::empty()
    } else {
        index_knobs(knobs.drop_last()).insert(knobs.last().id, knobs.last())
    }
}

/// What an input leads to, given the two tables.
pub open spec fn event_dispatch(
    buttons: Map<u8, ButtonView>,
    knobs: Map<u8, KnobView>,
    event: InputEvent,
) -> DispatchView {
    match event {
        InputEvent::ButtonPressed(id) => button_dispatch(buttons, id),
        InputEvent::KnobTurned(id, direction) => knob_dispatch(knobs, id, direction),
    }
}

/// The lookup tables of one configuration. They never change once built.
pub struct ActionMap {
    buttons: HashMap<u8, ButtonConfig>,
    knobs: HashMap<u8, KnobConfig>,
}

impl ActionMap {
    /// The buttons by id.
    pub closed spec fn buttons(self) -> Map<u8, ButtonView> {
        button_table(self.buttons@)
    }

    /// The knobs by id.
    pub closed spec fn knobs(self) -> Map<u8, KnobView> {
        knob_table(self.knobs@)
    }

    /// Builds the tables of `config`.
    pub fn new(config: &Config) -> (map: ActionMap)
        ensures
            map.buttons() == index_buttons(config@.buttons),
            map.knobs() == index_knobs(config@.knobs),
    {
        let ghost button_list = button_views(config.buttons@);
        let ghost knob_list = knob_views(config.knobs@);
        let mut buttons: HashMap<u8, ButtonConfig> = HashMap::new();
        let mut i: usize = 0;
        while i < config.buttons.len()
            invariant
                i <= config.buttons.len(),
                button_list == button_views(config.buttons@),
                button_table(buttons@) == index_buttons(button_list.take(i as int)),
            decreases config.buttons.len() - i,
        {
            let b = config.buttons[i].duplicate();
            proof {
                assert(button_list.take(i + 1).drop_last() =~= button_list.take(i as int));
                assert(button_table(buttons@.insert(b.id, b)) =~= button_table(buttons@).insert(
                    b.id,
                    b@,
                ));
            }
            buttons.insert(b.id, b);
            i += 1;
        }
        assert(button_list.take(i as int) =~= button_list);

        let mut knobs: HashMap<u8, KnobConfig> = HashMap::new();
        let mut j: usize = 0;
        while j < config.knobs.len()
            invariant
                j <= config.knobs.len(),
                knob_list == knob_views(config.knobs@),
                knob_table(knobs@) == index_knobs(knob_list.take(j as int)),
            decreases config.knobs.len() - j,
        {
            let k = config.knobs[j].duplicate();
            proof {
                assert(knob_list.take(j + 1).drop_last() =~= knob_list.take(j as int));
                assert(knob_table(knobs@.insert(k.id, k)) =~= knob_table(knobs@).insert(k.id, k@));
            }
            knobs.insert(k.id, k);
            j += 1;
        }
        assert(knob_list.take(j as int) =~= knob_list);
        ActionMap { buttons, knobs }
    }

    /// The descriptor bound to button `id`, if there is one.
    pub fn lookup_button(&self, id: u8) -> (found: Option<&ButtonConfig>)
        ensures
            match found {
                Some(button) => self.buttons().contains_key(id) && button@ == self.buttons()[id],
                None => !self.buttons().contains_key(id),
            },
    {
        self.buttons.get(&id)
    }

    /// The descriptor bound to knob `id`, if there is one.
    pub fn lookup_knob(&self, id: u8) -> (found: Option<&KnobConfig>)
        ensures
            match found {
                Some(knob) => self.knobs().contains_key(id) && knob@ == self.knobs()[id],
                None => !self.knobs().contains_key(id),
            },
    {
        self.knobs.get(&id)
    }

    /// Whether a descriptor is bound to the id of `event`.
    pub fn is_bound(&self, event: InputEvent) -> (bound: bool)
        ensures
            bound == (event_dispatch(self.buttons(), self.knobs(), event) is Invoke),
    {
        match event {
            InputEvent::ButtonPressed(id) => self.buttons.contains_key(&id),
            InputEvent::KnobTurned(id, _) => self.knobs.contains_key(&id),
        }
    }

    /// Decides what `event` leads to.
    pub fn dispatch(&self, event: InputEvent) -> (dispatch: Dispatch)
        ensures
            dispatch@ == event_dispatch(self.buttons(), self.knobs(), event),
    {
        match event {
            InputEvent::ButtonPressed(id) => handle_button(&self.buttons, id),
            InputEvent::KnobTurned(id, direction) => handle_knob(&self.knobs, id, direction),
        }
    }
}

/// Whether `i` is the place of the last button in the list with the id `id`.
pub open spec fn last_button_with(buttons: Seq<ButtonView>, id: u8, i: int) -> bool {
    &&& 0 <= i < buttons.len()
    &&& buttons[i].id == id
    &&& forall|j: int| i < j < buttons.len() ==> (#[trigger] buttons[j]).id != id
}

/// Whether `i` is the place of the last knob in the list with the id `id`.
pub open spec fn last_knob_with(knobs: Seq<KnobView>, id: u8, i: int) -> bool {
    &&& 0 <= i < knobs.len()
    &&& knobs[i].id == id
    &&& forall|j: int| i < j < knobs.len() ==> (#[trigger] knobs[j]).id != id
}

/// An id is bound in the table exactly when a button of the list has it, and
/// it is bound to the last such button.
pub proof fn law_last_button_is_bound(buttons: Seq<ButtonView>, id: u8)
    ensures
        index_buttons(buttons).contains_key(id) <==> exists|i: int|
            0 <= i < buttons.len() && (#[trigger] buttons[i]).id == id,
        forall|i: int| #[trigger]
            last_button_with(buttons, id, i) ==> index_buttons(buttons).contains_key(id)
                && index_buttons(buttons)[id] == buttons[i],
    decreases buttons.len(),
{
    if buttons.len() > 0 {
        let shorter = buttons.drop_last();
        law_last_button_is_bound(shorter, id);
        if buttons.last().id != id {
            if exists|i: int| 0 <= i < buttons.len() && (#[trigger] buttons[i]).id == id {
                let i = choose|i: int| 0 <= i < buttons.len() && (#[trigger] buttons[i]).id == id;
                assert(shorter[i].id == id);
            }
            assert forall|i: int| #[trigger] last_button_with(buttons, id, i) implies index_buttons(
                buttons,
            ).contains_key(id) && index_buttons(buttons)[id] == buttons[i] by {
                assert(last_button_with(shorter, id, i));
            }
        }
    }
}

/// An id is bound in the table exactly when a knob of the list has it, and
/// it is bound to the last such knob.
pub proof fn law_last_knob_is_bound(knobs: Seq<KnobView>, id: u8)
    ensures
        index_knobs(knobs).contains_key(id) <==> exists|i: int|
            0 <= i < knobs.len() && (#[trigger] knobs[i]).id == id,
        forall|i: int| #[trigger]
            last_knob_with(knobs, id, i) ==> index_knobs(knobs).contains_key(id)
                && index_knobs(knobs)[id] == knobs[i],
    decreases knobs.len(),
{
    if knobs.len() > 0 {
        let shorter = knobs.drop_last();
        law_last_knob_is_bound(shorter, id);
        if knobs.last().id != id {
            if exists|i: int| 0 <= i < knobs.len() && (#[trigger] knobs[i]).id == id {
                let i = choose|i: int| 0 <= i < knobs.len() && (#[trigger] knobs[i]).id == id;
                assert(shorter[i].id == id);
            }
            assert forall|i: int| #[trigger] last_knob_with(knobs, id, i) implies index_knobs(
                knobs,
            ).contains_key(id) && index_knobs(knobs)[id] == knobs[i] by {
                assert(last_knob_with(shorter, id, i));
            }
        }
    }
}

} // verus!
