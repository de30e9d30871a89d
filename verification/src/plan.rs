//! What a sequence of events runs: one invocation for each event that has a
//! command configured, in the order of the events.

use crate::command::{shell_invocation, Invocation, InvocationView};
use crate::config::{Configuration, ConfigurationView};
use crate::switch::{InputEvent, SwitchEvent, SwitchKind};
use vstd::prelude::*;

verus! {

/// The invocation that one event causes, if it causes any.
pub open spec fn invocation_of(config: ConfigurationView, event: InputEvent) -> Option<
    InvocationView,
> {
    match config.resolve(event) {
        Some(line) => Some(shell_invocation(line)),
        None => None,
    }
}

/// The invocations that `events` cause, in order: each event contributes its
/// own invocation once, or nothing.
pub open spec fn planned(config: ConfigurationView, events: Seq<InputEvent>) -> Seq<
    InvocationView,
> {
    events.filter_map(|event: InputEvent| invocation_of(config, event))
}

/// The views of a sequence of invocations.
pub open spec fn views_of(invocations: Seq<Invocation>) -> Seq<InvocationView> {
    invocations.map_values(|invocation: Invocation| invocation@)
}

/// One more event adds its own invocation behind those of the events before
/// it, or adds nothing.
pub proof fn lemma_planned_push(
    config: ConfigurationView,
    events: Seq<InputEvent>,
    event: InputEvent,
)
    ensures
        planned(config, events.push(event)) == match invocation_of(config, event) {
            Some(invocation) => planned(config, events).push(invocation),
            None => planned(config, events),
        },
{
    let pick = |event: InputEvent| invocation_of(config, event);
    assert(events.push(event).drop_last() =~= events);
    assert(events.push(event).last() == event);
    match pick(event) {
        Some(invocation) => {
            assert(events.filter_map(pick) + seq![invocation] =~= events.filter_map(pick).push(
                invocation,
            ));
        },
        None => {},
    }
}

/// Events delivered in two parts run what the first part runs, then what the
/// second part runs: nothing is lost, repeated or reordered at the seam.
pub proof fn lemma_planned_concat(
    config: ConfigurationView,
    first: Seq<InputEvent>,
    second: Seq<InputEvent>,
)
    ensures
        planned(config, first + second) == planned(config, first) + planned(config, second),
    decreases second.len(),
{
    if second.len() == 0 {
        assert(first + second =~= first);
        assert(planned(config, first) + planned(config, second) =~= planned(config, first));
    } else {
        let front = second.drop_last();
        let event = second.last();
        assert(second =~= front.push(event));
        assert(first + second =~= (first + front).push(event));
        lemma_planned_concat(config, first, front);
        lemma_planned_push(config, first + front, event);
        lemma_planned_push(config, front, event);
        match invocation_of(config, event) {
            Some(invocation) => {
                assert((planned(config, first) + planned(config, front)).push(invocation)
                    =~= planned(config, first) + planned(config, front).push(invocation));
            },
            None => {},
        }
    }
}

/// The first event of a sequence contributes first.
pub proof fn lemma_planned_first(config: ConfigurationView, events: Seq<InputEvent>)
    requires
        events.len() > 0,
    ensures
        planned(config, events) == match invocation_of(config, events[0]) {
            Some(invocation) => seq![invocation] + planned(config, events.skip(1)),
            None => planned(config, events.skip(1)),
        },
{
    let head = seq![events[0]];
    assert(events =~= head + events.skip(1));
    lemma_planned_concat(config, head, events.skip(1));
    lemma_planned_push(config, Seq::empty(), events[0]);
    assert(Seq::<InputEvent>::empty().push(events[0]) =~= head);
    assert(planned(config, Seq::empty()) =~= Seq::empty());
    match invocation_of(config, events[0]) {
        Some(invocation) => {
            assert(Seq::<InvocationView>::empty().push(invocation) =~= seq![invocation]);
        },
        None => {
            assert(Seq::<InvocationView>::empty() + planned(config, events.skip(1))
                =~= planned(config, events.skip(1)));
        },
    }
}

/// Events of which none has a command configured run nothing, however many
/// they are.
pub proof fn lemma_planned_nothing(config: ConfigurationView, events: Seq<InputEvent>)
    requires
        forall|i: int| 0 <= i < events.len() ==> config.resolve(#[trigger] events[i]) is None,
    ensures
        planned(config, events) == Seq::<InvocationView>::empty(),
    decreases events.len(),
{
    if events.len() > 0 {
        let front = events.drop_last();
        assert(events =~= front.push(events.last()));
        assert forall|i: int| 0 <= i < front.len() implies config.resolve(
            #[trigger] front[i],
        ) is None by {
            assert(front[i] == events[i]);
        }
        lemma_planned_nothing(config, front);
        lemma_planned_push(config, front, events.last());
    }
}

/// Events that run nothing change nothing: a sequence runs the same with
/// them as without them, however many there are and wherever they stand.
pub proof fn lemma_inert_events_change_nothing(
    config: ConfigurationView,
    events: Seq<InputEvent>,
    inert: spec_fn(InputEvent) -> bool,
)
    requires
        forall|event: InputEvent| #[trigger] inert(event) ==> config.resolve(event) is None,
    ensures
        planned(config, events.filter(|event: InputEvent| !inert(event))) == planned(
            config,
            events,
        ),
    decreases events.len(),
{
    let live = |event: InputEvent| !inert(event);
    reveal(Seq::filter);
    if events.len() > 0 {
        let front = events.drop_last();
        let event = events.last();
        assert(events =~= front.push(event));
        lemma_inert_events_change_nothing(config, front, inert);
        lemma_planned_push(config, front, event);
        if live(event) {
            lemma_planned_push(config, front.filter(live), event);
        } else {
            assert(inert(event));
        }
    }
}

/// Toggles of a switch that has no actions configured never run anything:
/// the events run what they would run with every such toggle taken out.
pub proof fn lemma_unconfigured_kind_never_runs(
    config: ConfigurationView,
    kind: SwitchKind,
    events: Seq<InputEvent>,
)
    requires
        config.actions(kind) is None,
    ensures
        planned(config, events.filter(|event: InputEvent| !event.toggles(kind))) == planned(
            config,
            events,
        ),
{
    let inert = |event: InputEvent| event.toggles(kind);
    lemma_inert_events_change_nothing(config, events, inert);
    lemma_filter_agrees(
        events,
        |event: InputEvent| !inert(event),
        |event: InputEvent| !event.toggles(kind),
    );
}

/// Toggles into a state that has no command bound never run anything: the
/// events run what they would run with every such toggle taken out.
pub proof fn lemma_unbound_state_never_runs(
    config: ConfigurationView,
    transition: SwitchEvent,
    events: Seq<InputEvent>,
)
    requires
        config.command(transition) is None,
    ensures
        planned(
            config,
            events.filter(|event: InputEvent| event.spec_switch_event() != Some(transition)),
        ) == planned(config, events),
{
    let inert = |event: InputEvent| event.spec_switch_event() == Some(transition);
    lemma_inert_events_change_nothing(config, events, inert);
    lemma_filter_agrees(
        events,
        |event: InputEvent| !inert(event),
        |event: InputEvent| event.spec_switch_event() != Some(transition),
    );
}

/// Toggles of switches that are not recognized never run anything, under
/// any configuration: the events run what they would run with every such
/// toggle taken out.
pub proof fn lemma_unrecognized_switch_never_runs(
    config: ConfigurationView,
    events: Seq<InputEvent>,
)
    ensures
        planned(config, events.filter(|event: InputEvent| !event.toggles_unrecognized()))
            == planned(config, events),
{
    let inert = |event: InputEvent| event.toggles_unrecognized();
    lemma_inert_events_change_nothing(config, events, inert);
    lemma_filter_agrees(
        events,
        |event: InputEvent| !inert(event),
        |event: InputEvent| !event.toggles_unrecognized(),
    );
}

/// Two predicates that agree on every event keep the same events.
proof fn lemma_filter_agrees(
    events: Seq<InputEvent>,
    one: spec_fn(InputEvent) -> bool,
    other: spec_fn(InputEvent) -> bool,
)
    requires
        forall|event: InputEvent| #[trigger] one(event) == other(event),
    ensures
        events.filter(one) == events.filter(other),
    decreases events.len(),
{
    reveal(Seq::filter);
    if events.len() > 0 {
        lemma_filter_agrees(events.drop_last(), one, other);
    }
}

impl Configuration {
    /// The invocations that `events` cause, in the order of the events.
    pub fn plan(&self, events: &Vec<InputEvent>) -> (invocations: Vec<Invocation>)
        ensures
            views_of(invocations@) == planned(self@, events@),
    {
        let mut invocations: Vec<Invocation> = Vec::new();
        let mut next: usize = 0;
        while next < events.len()
            invariant
                next <= events.len(),
                views_of(invocations@) == planned(self@, events@.take(next as int)),
            decreases events.len() - next,
        {
            let event = events[next];
            proof {
                lemma_planned_push(self@, events@.take(next as int), event);
                assert(events@.take(next as int).push(event) =~= events@.take(next + 1));
            }
            match self.resolve(event) {
                Some(line) => {
                    let invocation = Invocation::shell(line);
                    let ghost before = invocations@;
                    invocations.push(invocation);
                    assert(views_of(invocations@) =~= views_of(before).push(invocation@));
                },
                None => {},
            }
            next = next + 1;
        }
        assert(events@.take(next as int) =~= events@);
        invocations
    }
}

} // verus!
