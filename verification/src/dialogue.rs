//! The dialogue between a session and its driver, as a mathematical object: a
//! sequence of events in which each event answers the action that was pending
//! when it was given.

use crate::model::{next, pending, Settings, State};
use crate::protocol::{answers, ActionView, EventView};
use vstd::prelude::*;

verus! {

/// The state after the events were given one by one, beginning in `state`.
pub open spec fn run(settings: Settings, state: State, events: Seq<EventView>) -> State
    decreases events.len(),
{
    if events.len() == 0 {
        state
    } else {
        next(settings, run(settings, state, events.drop_last()), events.last())
    }
}

/// The actions that the session named in answer to the events: the action at
/// place `i` is the one that was pending once the event at place `i` was given.
pub open spec fn trace(settings: Settings, state: State, events: Seq<EventView>) -> Seq<ActionView>
    decreases events.len(),
{
    if events.len() == 0 {
        Seq::empty()
    } else {
        trace(settings, state, events.drop_last()).push(
            pending(settings, run(settings, state, events)),
        )
    }
}

/// Whether each event answers the action that was pending when it was given.
pub open spec fn is_dialogue(settings: Settings, state: State, events: Seq<EventView>) -> bool
    decreases events.len(),
{
    events.len() == 0 || {
        &&& is_dialogue(settings, state, events.drop_last())
        &&& answers(pending(settings, run(settings, state, events.drop_last())), events.last())
    }
}

/// A trace has one action for each event.
pub proof fn lemma_trace_len(settings: Settings, state: State, events: Seq<EventView>)
    ensures
        trace(settings, state, events).len() == events.len(),
    decreases events.len(),
{
    if events.len() > 0 {
        lemma_trace_len(settings, state, events.drop_last());
    }
}

/// A session stays in states that a session can be in.
pub proof fn lemma_run_well_formed(settings: Settings, state: State, events: Seq<EventView>)
    requires
        state.well_formed(settings),
    ensures
        run(settings, state, events).well_formed(settings),
    decreases events.len(),
{
    if events.len() > 0 {
        lemma_run_well_formed(settings, state, events.drop_last());
    }
}

/// A dialogue can be cut in two: the second part goes on from the state in
/// which the first part ends.
pub proof fn lemma_run_concat(
    settings: Settings,
    state: State,
    first: Seq<EventView>,
    second: Seq<EventView>,
)
    ensures
        run(settings, state, first + second) == run(
            settings,
            run(settings, state, first),
            second,
        ),
        trace(settings, state, first + second) == trace(settings, state, first) + trace(
            settings,
            run(settings, state, first),
            second,
        ),
        is_dialogue(settings, state, first + second) == (is_dialogue(settings, state, first)
            && is_dialogue(settings, run(settings, state, first), second)),
    decreases second.len(),
{
    let middle = run(settings, state, first);
    if second.len() == 0 {
        assert(trace(settings, state, first) + trace(settings, middle, second) =~= trace(
            settings,
            state,
            first,
        ));
    } else {
        let shorter = second.drop_last();
        assert((first + second).drop_last() =~= first + shorter);
        lemma_run_concat(settings, state, first, shorter);
        assert(trace(settings, state, first + second) =~= trace(settings, state, first) + trace(
            settings,
            middle,
            second,
        ));
    }
}

} // verus!
