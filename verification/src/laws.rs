//! What holds of every session, proved from the transition function: of the
//! actions that a session names along a dialogue with its driver.

use crate::brightness::{BrightnessState, BrightnessWrite};
use crate::config::ButtonView;
use crate::dialogue::{is_dialogue, lemma_run_concat, lemma_trace_len, run, trace};
use crate::events::InputEvent;
use crate::model::{pending, PhaseView, Settings, State};
use crate::protocol::{ActionView, Ending, EventView, Report};
use vstd::prelude::*;

verus! {

/// Whether every event says that the idle duration elapsed or that an action
/// succeeded.
pub open spec fn only_quiet(events: Seq<EventView>) -> bool {
    forall|i: int|
        0 <= i < events.len() ==> (#[trigger] events[i]) is IdleElapsed || events[i] is Succeeded
}

/// Whether every event says how an action went.
pub open spec fn only_outcomes(events: Seq<EventView>) -> bool {
    forall|i: int| 0 <= i < events.len() ==> (#[trigger] events[i]).is_outcome()
}

/// Whether the action dispatches an input: an invocation, or the report that
/// nothing is bound to the input.
pub open spec fn is_dispatch(action: ActionView) -> bool {
    action is Invoke || (action matches ActionView::Report(report) && report is Unmapped)
}

/// The actions of the trace that dispatch an input, in order.
pub open spec fn dispatches(actions: Seq<ActionView>) -> Seq<ActionView> {
    actions.filter(|action: ActionView| is_dispatch(action))
}

/// The actions of the trace that are more than a report, in order.
pub open spec fn operations(actions: Seq<ActionView>) -> Seq<ActionView> {
    actions.filter(|action: ActionView| !(action is Report))
}

/// What teardown does to the device: one flush, then one shutdown, and the end.
pub open spec fn teardown(ending: Ending) -> Seq<ActionView> {
    seq![ActionView::Flush, ActionView::Shutdown, ActionView::Finish(ending)]
}

/// The batch `batch` followed by the outcomes of the actions it leads to.
pub open spec fn batch_events(batch: Seq<InputEvent>, outcomes: Seq<EventView>) -> Seq<EventView> {
    seq![EventView::Input(batch)] + outcomes
}

/// Idempotent dimming. While the surface is in use and the session waits, let
/// the idle duration elapse any number of times, at least once, with no input
/// in between and every write succeeding. Then the first timeout is answered
/// with the dimming write, and no brightness write follows.
pub proof fn law_dimming_is_idempotent(settings: Settings, state: State, events: Seq<EventView>)
    requires
        state.is_waiting(),
        state.brightness is Active,
        events.len() >= 1,
        only_quiet(events),
        is_dialogue(settings, state, events),
    ensures
        trace(settings, state, events).len() == events.len(),
        trace(settings, state, events)[0] == ActionView::SetBrightness(BrightnessWrite::Dim),
        forall|i: int|
            1 <= i < events.len() ==> !((#[trigger] trace(settings, state, events)[i])
                is SetBrightness),
        events.len() >= 2 ==> run(settings, state, events).brightness == BrightnessState::Dimmed,
    decreases events.len(),
{
    lemma_trace_len(settings, state, events);
    if events.len() > 1 {
        let prefix = events.drop_last();
        assert(only_quiet(prefix));
        law_dimming_is_idempotent(settings, state, prefix);
        lemma_dimming_shape(settings, state, prefix);
        lemma_dimming_shape(settings, state, events);
    }
}

/// The states that a run of timeouts passes through: after the first timeout
/// the dimming write is under way; from the second event on the session waits,
/// dimmed.
proof fn lemma_dimming_shape(settings: Settings, state: State, events: Seq<EventView>)
    requires
        state.is_waiting(),
        state.brightness is Active,
        events.len() >= 1,
        only_quiet(events),
        is_dialogue(settings, state, events),
    ensures
        ({
            let end = run(settings, state, events);
            &&& end.notice is None
            &&& events.len() == 1 ==> end.phase is Dimming && end.brightness is Active
            &&& events.len() >= 2 ==> end.phase is Waiting && end.brightness
                == BrightnessState::Dimmed
        }),
    decreases events.len(),
{
    if events.len() > 1 {
        let prefix = events.drop_last();
        assert(only_quiet(prefix));
        lemma_dimming_shape(settings, state, prefix);
    }
}

/// The actions that dispatch the inputs of `batch`, one for each input, in
/// order of arrival.
pub open spec fn batch_dispatches(settings: Settings, batch: Seq<InputEvent>) -> Seq<ActionView> {
    batch.map_values(|input: InputEvent| settings.dispatch_action(input))
}

/// How many inputs of the batch have had their dispatch named once the session
/// is in `state`.
spec fn dispatched(state: State, batch: Seq<InputEvent>) -> nat {
    match state.phase {
        PhaseView::Restoring => 0,
        PhaseView::Dispatching(n) => if state.notice is None {
            n + 1
        } else {
            n
        },
        _ => batch.len(),
    }
}

proof fn lemma_dispatches_push(actions: Seq<ActionView>, action: ActionView)
    ensures
        dispatches(Seq::<ActionView>::empty()) == Seq::<ActionView>::empty(),
        dispatches(actions.push(action)) == if is_dispatch(action) {
            dispatches(actions).push(action)
        } else {
            dispatches(actions)
        },
{
    reveal(Seq::filter);
    assert(actions.push(action).drop_last() =~= actions);
}

/// What a session passes through while it works a batch off.
proof fn lemma_batch_shape(
    settings: Settings,
    state: State,
    batch: Seq<InputEvent>,
    outcomes: Seq<EventView>,
)
    requires
        state.is_waiting(),
        batch.len() >= 1,
        only_outcomes(outcomes),
        is_dialogue(settings, state, batch_events(batch, outcomes)),
    ensures
        ({
            let events = batch_events(batch, outcomes);
            let end = run(settings, state, events);
            let t = trace(settings, state, events);
            &&& t.len() == outcomes.len() + 1
            &&& end.phase is Restoring || end.phase is Dispatching || end.phase is Waiting
            &&& end.phase is Restoring ==> outcomes.len() == 0 && end.notice is None
            &&& !(end.phase is Waiting) ==> end.batch == batch
            &&& end.phase matches PhaseView::Dispatching(n) ==> n < batch.len()
            &&& end.notice matches Some(report) ==> !(report is Unmapped)
            &&& dispatches(t) == batch_dispatches(settings, batch).take(
                dispatched(end, batch) as int,
            )
            &&& t[0] == if state.brightness is Active {
                settings.dispatch_action(batch[0])
            } else {
                ActionView::SetBrightness(BrightnessWrite::Level(settings.level))
            }
            &&& forall|i: int| 1 <= i < t.len() ==> !((#[trigger] t[i]) is SetBrightness)
        }),
    decreases outcomes.len(),
{
    let events = batch_events(batch, outcomes);
    let end = run(settings, state, events);
    lemma_dispatches_push(trace(settings, state, events.drop_last()), pending(settings, end));
    if outcomes.len() > 0 {
        let shorter = outcomes.drop_last();
        assert(events.drop_last() =~= batch_events(batch, shorter));
        assert(only_outcomes(shorter));
        lemma_batch_shape(settings, state, batch, shorter);
    }
}

/// Idempotent restore. When a batch of at least one input arrives while the
/// surface is dimmed, the session first asks for one write of the configured
/// brightness; whatever the outcomes, no other brightness write is asked for
/// while the batch is worked off, so none is repeated for a later input.
pub proof fn law_restore_precedes_dispatch(
    settings: Settings,
    state: State,
    batch: Seq<InputEvent>,
    outcomes: Seq<EventView>,
)
    requires
        state.is_waiting(),
        state.brightness == BrightnessState::Dimmed,
        batch.len() >= 1,
        only_outcomes(outcomes),
        is_dialogue(settings, state, batch_events(batch, outcomes)),
    ensures
        ({
            let t = trace(settings, state, batch_events(batch, outcomes));
            &&& t.len() == outcomes.len() + 1
            &&& t[0] == ActionView::SetBrightness(BrightnessWrite::Level(settings.level))
            &&& forall|i: int| 1 <= i < t.len() ==> !((#[trigger] t[i]) is SetBrightness)
        }),
{
    lemma_batch_shape(settings, state, batch, outcomes);
}

/// No restore while in use. When a batch arrives while the surface is in use,
/// no brightness write is asked for: the first input is dispatched at once,
/// and the rest follow.
pub proof fn law_active_batch_writes_nothing(
    settings: Settings,
    state: State,
    batch: Seq<InputEvent>,
    outcomes: Seq<EventView>,
)
    requires
        state.is_waiting(),
        state.brightness is Active,
        batch.len() >= 1,
        only_outcomes(outcomes),
        is_dialogue(settings, state, batch_events(batch, outcomes)),
    ensures
        ({
            let t = trace(settings, state, batch_events(batch, outcomes));
            &&& t.len() == outcomes.len() + 1
            &&& t[0] == settings.dispatch_action(batch[0])
            &&& forall|i: int| 0 <= i < t.len() ==> !((#[trigger] t[i]) is SetBrightness)
        }),
{
    lemma_batch_shape(settings, state, batch, outcomes);
}

/// Order preservation. Once a batch is worked off and the session waits again,
/// each input of the batch has been dispatched exactly once, in order of
/// arrival: by the invocation of the call bound to it, or by the report that
/// nothing is bound to it. This holds whatever became of the brightness write
/// and of each invocation.
pub proof fn law_batch_is_dispatched_in_order(
    settings: Settings,
    state: State,
    batch: Seq<InputEvent>,
    outcomes: Seq<EventView>,
)
    requires
        state.is_waiting(),
        batch.len() >= 1,
        only_outcomes(outcomes),
        is_dialogue(settings, state, batch_events(batch, outcomes)),
        run(settings, state, batch_events(batch, outcomes)).phase is Waiting,
    ensures
        dispatches(trace(settings, state, batch_events(batch, outcomes))) == batch_dispatches(
            settings,
            batch,
        ),
{
    lemma_batch_shape(settings, state, batch, outcomes);
}

/// Nothing that happens to a batch ends the session: neither an input to which
/// nothing is bound, nor a failed invocation, nor a failed brightness write.
/// While the batch is worked off the session restores, dispatches or waits
/// again; it never begins teardown.
pub proof fn law_batch_never_ends_session(
    settings: Settings,
    state: State,
    batch: Seq<InputEvent>,
    outcomes: Seq<EventView>,
)
    requires
        state.is_waiting(),
        batch.len() >= 1,
        only_outcomes(outcomes),
        is_dialogue(settings, state, batch_events(batch, outcomes)),
    ensures
        ({
            let end = run(settings, state, batch_events(batch, outcomes));
            end.phase is Restoring || end.phase is Dispatching || end.phase is Waiting
        }),
{
    lemma_batch_shape(settings, state, batch, outcomes);
}

/// The reason for which the event ends a session, where it ends one.
pub open spec fn ending_of(event: EventView) -> Option<Ending> {
    match event {
        EventView::Signalled(signal) => Some(Ending::Signalled(signal)),
        EventView::ReadFailed => Some(Ending::DeviceLost),
        _ => None,
    }
}

/// The event `first` followed by the outcomes of the actions it leads to.
pub open spec fn events_after(first: EventView, outcomes: Seq<EventView>) -> Seq<EventView> {
    seq![first] + outcomes
}

/// How many steps of teardown have been named once the session is in `state`.
spec fn torn_down(state: State) -> nat {
    let named: nat = if state.notice is None {
        1
    } else {
        0
    };
    match state.phase {
        PhaseView::Flushing(_) => named,
        PhaseView::ShuttingDown(_) => 1 + named,
        PhaseView::Closed(_) => 2 + named,
        _ => 0,
    }
}

proof fn lemma_operations_push(actions: Seq<ActionView>, action: ActionView)
    ensures
        operations(Seq::<ActionView>::empty()) == Seq::<ActionView>::empty(),
        operations(actions.push(action)) == if action is Report {
            operations(actions)
        } else {
            operations(actions).push(action)
        },
{
    reveal(Seq::filter);
    assert(actions.push(action).drop_last() =~= actions);
}

proof fn lemma_operations_concat(first: Seq<ActionView>, second: Seq<ActionView>)
    ensures
        operations(first + second) == operations(first) + operations(second),
    decreases second.len(),
{
    if second.len() == 0 {
        lemma_operations_push(first, ActionView::Flush);
    } else {
        let shorter = second.drop_last();
        lemma_operations_concat(first, shorter);
        lemma_operations_push(first + shorter, second.last());
        lemma_operations_push(shorter, second.last());
    }
}

/// What a session passes through once teardown has begun.
proof fn lemma_teardown_shape(
    settings: Settings,
    state: State,
    ending: Ending,
    outcomes: Seq<EventView>,
)
    requires
        state.phase == PhaseView::Flushing(ending),
        state.notice is Some,
        is_dialogue(settings, state, outcomes),
    ensures
        ({
            let end = run(settings, state, outcomes);
            let t = trace(settings, state, outcomes);
            &&& t.len() == outcomes.len()
            &&& end.brightness == state.brightness
            &&& end.phase == PhaseView::Flushing(ending) || end.phase == PhaseView::ShuttingDown(
                ending,
            ) || end.phase == PhaseView::Closed(ending)
            &&& operations(t) == teardown(ending).take(torn_down(end) as int)
            &&& forall|i: int|
                0 <= i < t.len() ==> (#[trigger] t[i]) is Report || t[i] is Flush || t[i]
                    is Shutdown || t[i] is Finish
        }),
    decreases outcomes.len(),
{
    let end = run(settings, state, outcomes);
    if outcomes.len() == 0 {
        lemma_operations_push(Seq::empty(), ActionView::Flush);
    } else {
        let shorter = outcomes.drop_last();
        lemma_teardown_shape(settings, state, ending, shorter);
        lemma_operations_push(trace(settings, state, shorter), pending(settings, end));
    }
}

/// Graceful teardown. When a termination signal or a failed read ends the
/// wait, the session reports why it stops and then tears the device down: one
/// flush, then one shutdown, then the end, each named once and in this order,
/// whatever the brightness was, whatever became of an earlier brightness
/// write, and whether or not the flush and the shutdown succeed. The session
/// never waits for input, writes a brightness or invokes a service again.
pub proof fn law_teardown_runs_once(
    settings: Settings,
    state: State,
    first: EventView,
    outcomes: Seq<EventView>,
)
    requires
        state.is_waiting(),
        ending_of(first) is Some,
        is_dialogue(settings, state, events_after(first, outcomes)),
    ensures
        ({
            let ending = ending_of(first)->0;
            let end = run(settings, state, events_after(first, outcomes));
            let t = trace(settings, state, events_after(first, outcomes));
            &&& t.len() == outcomes.len() + 1
            &&& t[0] == ActionView::Report(Report::Stopping(ending))
            &&& operations(t).is_prefix_of(teardown(ending))
            &&& pending(settings, end) is Finish ==> operations(t) == teardown(ending)
            &&& forall|i: int|
                0 <= i < t.len() ==> (#[trigger] t[i]) is Report || t[i] is Flush || t[i]
                    is Shutdown || t[i] is Finish
        }),
{
    let ending = ending_of(first)->0;
    let start = seq![first];
    let stopped = state.stopping(ending);
    assert(run(settings, state, start.drop_last()) == state);
    assert(trace(settings, state, start.drop_last()) =~= Seq::<ActionView>::empty());
    let opening = trace(settings, state, start);
    lemma_run_concat(settings, state, start, outcomes);
    lemma_teardown_shape(settings, stopped, ending, outcomes);
    let rest = trace(settings, stopped, outcomes);
    let t = trace(settings, state, events_after(first, outcomes));
    assert(operations(t) == operations(rest)) by {
        lemma_operations_concat(opening, rest);
        lemma_operations_push(Seq::empty(), ActionView::Report(Report::Stopping(ending)));
        assert(opening =~= Seq::<ActionView>::empty().push(
            ActionView::Report(Report::Stopping(ending)),
        ));
    }
}

/// The steps of startup, in order: the configured brightness, the clearing of
/// the displays, the icon of each configured button, and the flush.
pub open spec fn startup(settings: Settings) -> Seq<ActionView> {
    seq![
        ActionView::SetBrightness(BrightnessWrite::Level(settings.level)),
        ActionView::ClearDisplays,
    ] + settings.icons.map_values(
        |button: ButtonView| ActionView::UploadIcon { button: button.id, icon: button.icon },
    ) + seq![ActionView::Flush]
}

/// So many events that each say that an action succeeded.
pub open spec fn successes(count: nat) -> Seq<EventView> {
    Seq::new(count, |i: int| EventView::Succeeded)
}

/// The phase of a startup of which `done` steps have succeeded.
spec fn startup_phase(settings: Settings, done: nat) -> PhaseView {
    if done == 0 {
        PhaseView::SettingBrightness
    } else if done == 1 {
        PhaseView::ClearingDisplays
    } else if done < 2 + settings.icons.len() {
        PhaseView::UploadingIcon((done - 2) as nat)
    } else if done == 2 + settings.icons.len() {
        PhaseView::FlushingIcons
    } else {
        PhaseView::Waiting
    }
}

proof fn lemma_startup_shape(settings: Settings, done: nat)
    requires
        done <= startup(settings).len(),
    ensures
        is_dialogue(settings, settings.initial(), successes(done)),
        run(settings, settings.initial(), successes(done)) == (State {
            phase: startup_phase(settings, done),
            ..settings.initial()
        }),
    decreases done,
{
    if done > 0 {
        let fewer = (done - 1) as nat;
        assert(successes(done).drop_last() =~= successes(fewer));
        lemma_startup_shape(settings, fewer);
    }
}

/// Startup in order. As long as every step succeeds, a new session names the
/// steps of startup one by one in their order; after the last it waits for
/// input, in use at the configured brightness.
pub proof fn law_startup_runs_in_order(settings: Settings, done: nat)
    requires
        done <= startup(settings).len(),
    ensures
        is_dialogue(settings, settings.initial(), successes(done)),
        pending(settings, run(settings, settings.initial(), successes(done))) == if done
            < startup(settings).len() {
            startup(settings)[done as int]
        } else {
            ActionView::AwaitInput { idle_seconds: settings.idle_seconds }
        },
        done == startup(settings).len() ==> run(
            settings,
            settings.initial(),
            successes(done),
        ).is_waiting() && run(settings, settings.initial(), successes(done)).brightness
            == BrightnessState::Active(settings.level),
{
    lemma_startup_shape(settings, done);
}

/// A failed startup is fatal. When a step of startup fails, the session
/// reports that it stops and tears the device down, as far as that goes: it
/// never waits for input.
pub proof fn law_failed_startup_is_fatal(settings: Settings, done: nat, outcomes: Seq<EventView>)
    requires
        done < startup(settings).len(),
        is_dialogue(
            settings,
            settings.initial(),
            successes(done).push(EventView::Failed) + outcomes,
        ),
    ensures
        ({
            let events = successes(done).push(EventView::Failed) + outcomes;
            let t = trace(settings, settings.initial(), events);
            let after = t.skip(done as int);
            &&& t.len() == done + 1 + outcomes.len()
            &&& after[0] == ActionView::Report(Report::Stopping(Ending::StartupFailed))
            &&& operations(after).is_prefix_of(teardown(Ending::StartupFailed))
            &&& pending(settings, run(settings, settings.initial(), events)) is Finish
                ==> operations(after) == teardown(Ending::StartupFailed)
            &&& forall|i: int|
                0 <= i < after.len() ==> (#[trigger] after[i]) is Report || after[i] is Flush
                    || after[i] is Shutdown || after[i] is Finish
        }),
{
    let initial = settings.initial();
    let clean = successes(done);
    let failing = clean.push(EventView::Failed);
    let events = failing + outcomes;
    let ending = Ending::StartupFailed;
    lemma_startup_shape(settings, done);
    let before = run(settings, initial, clean);
    let stopped = before.stopping(ending);
    assert(failing.drop_last() =~= clean);
    lemma_run_concat(settings, initial, failing, outcomes);
    lemma_teardown_shape(settings, stopped, ending, outcomes);
    lemma_trace_len(settings, initial, clean);
    lemma_trace_len(settings, initial, failing);
    let opening = trace(settings, initial, failing);
    let rest = trace(settings, stopped, outcomes);
    let t = trace(settings, initial, events);
    let after = t.skip(done as int);
    let report = ActionView::Report(Report::Stopping(ending));
    assert(after =~= seq![report] + rest);
    assert(operations(after) == operations(rest)) by {
        lemma_operations_concat(seq![report], rest);
        lemma_operations_push(Seq::empty(), report);
    }
}

/// A failed dimming is tried again, but not at once. When the dimming write
/// fails, the failure is reported, the surface counts as in use as before, and
/// the session waits again; the write is asked for anew when the idle duration
/// next elapses.
pub proof fn law_failed_dimming_is_retried(settings: Settings, state: State)
    requires
        state.is_waiting(),
        state.brightness is Active,
    ensures
        ({
            let events = seq![
                EventView::IdleElapsed,
                EventView::Failed,
                EventView::Succeeded,
                EventView::IdleElapsed,
            ];
            &&& is_dialogue(settings, state, events)
            &&& trace(settings, state, events) == seq![
                ActionView::SetBrightness(BrightnessWrite::Dim),
                ActionView::Report(Report::BrightnessFailed(BrightnessWrite::Dim)),
                ActionView::AwaitInput { idle_seconds: settings.idle_seconds },
                ActionView::SetBrightness(BrightnessWrite::Dim),
            ]
            &&& run(settings, state, events).brightness == state.brightness
        }),
{
    let first = seq![EventView::IdleElapsed];
    let second = first.push(EventView::Failed);
    let third = second.push(EventView::Succeeded);
    let fourth = third.push(EventView::IdleElapsed);
    assert(second.drop_last() =~= first);
    assert(third.drop_last() =~= second);
    assert(fourth.drop_last() =~= third);
    assert(is_dialogue(settings, state, first.drop_last()));
    assert(is_dialogue(settings, state, first));
    assert(is_dialogue(settings, state, second));
    assert(is_dialogue(settings, state, third));
    assert(trace(settings, state, first.drop_last()) =~= Seq::<ActionView>::empty());
    assert(trace(settings, state, first).len() == 1);
    assert(trace(settings, state, second).len() == 2);
    assert(trace(settings, state, third).len() == 3);
    assert(trace(settings, state, fourth) =~= seq![
        ActionView::SetBrightness(BrightnessWrite::Dim),
        ActionView::Report(Report::BrightnessFailed(BrightnessWrite::Dim)),
        ActionView::AwaitInput { idle_seconds: settings.idle_seconds },
        ActionView::SetBrightness(BrightnessWrite::Dim),
    ]);
    assert(fourth =~= seq![
        EventView::IdleElapsed,
        EventView::Failed,
        EventView::Succeeded,
        EventView::IdleElapsed,
    ]);
}

/// The end is final. Once a session is over, no event changes its state, and
/// the only action it names is the end.
pub proof fn law_closed_is_final(settings: Settings, state: State, events: Seq<EventView>)
    requires
        state.phase is Closed,
        state.notice is None,
    ensures
        run(settings, state, events) == state,
        pending(settings, state) is Finish,
        forall|i: int|
            0 <= i < events.len() ==> (#[trigger] trace(settings, state, events)[i]) == pending(
                settings,
                state,
            ),
    decreases events.len(),
{
    if events.len() > 0 {
        let shorter = events.drop_last();
        law_closed_is_final(settings, state, shorter);
        lemma_trace_len(settings, state, shorter);
    }
}

} // verus!
