//! Runs of the dispatch loop, and what holds of every run: each staged event
//! is dispatched once and in order, however the spawns go.

use crate::command::InvocationView;
use crate::config::ConfigurationView;
use crate::dispatch::{advance, step, ActionView, LoopState, Phase, SignalView, SpawnOutcome};
use crate::plan::{
    invocation_of, lemma_planned_concat, lemma_planned_first, lemma_planned_nothing, planned,
};
use crate::switch::InputEvent;
use vstd::prelude::*;

verus! {

/// The invocation that an action has spawned, if it is a spawn.
pub open spec fn spawn_of(action: ActionView) -> Option<InvocationView> {
    match action {
        ActionView::Spawn(invocation) => Some(invocation),
        _ => None,
    }
}

/// What one action spawns: its invocation, or nothing.
pub open spec fn spawned(action: ActionView) -> Seq<InvocationView> {
    match action {
        ActionView::Spawn(invocation) => seq![invocation],
        _ => Seq::empty(),
    }
}

/// The events that one signal delivers: those of a refill, or none.
pub open spec fn delivered(signal: SignalView) -> Seq<InputEvent> {
    match signal {
        SignalView::Refilled(events) => events,
        _ => Seq::empty(),
    }
}

/// The invocations spawned by a sequence of actions, in order.
pub open spec fn spawned_by(actions: Seq<ActionView>) -> Seq<InvocationView> {
    actions.filter_map(|action: ActionView| spawn_of(action))
}

/// The events delivered by a sequence of signals, in order.
pub open spec fn delivered_by(signals: Seq<SignalView>) -> Seq<InputEvent>
    decreases signals.len(),
{
    if signals.len() == 0 {
        Seq::empty()
    } else {
        delivered_by(signals.drop_last()) + delivered(signals.last())
    }
}

/// The state that the loop is in after `signals`, and its answers to them.
pub open spec fn run(config: ConfigurationView, state: LoopState, signals: Seq<SignalView>) -> (
    LoopState,
    Seq<ActionView>,
)
    decreases signals.len(),
{
    if signals.len() == 0 {
        (state, Seq::empty())
    } else {
        let (reached, answers) = run(config, state, signals.drop_last());
        let (next, action) = step(config, reached, signals.last());
        (next, answers.push(action))
    }
}

/// Working through staged events spawns the command of the first event that
/// has one and keeps what lies behind it; what is spawned and what is kept
/// together run exactly what the staged events run. Where nothing is spawned,
/// nothing is kept and the loop waits.
pub proof fn lemma_advance_accounts(config: ConfigurationView, staged: Seq<InputEvent>)
    ensures
        ({
            let (next, action) = advance(config, staged);
            &&& spawned(action) + planned(config, next.staged) == planned(config, staged)
            &&& action is Spawn ==> next.phase == Phase::Draining
            &&& action !is Spawn ==> action is Wait && next == LoopState::initial()
        }),
    decreases staged.len(),
{
    let (next, action) = advance(config, staged);
    if staged.len() == 0 {
        assert(staged =~= Seq::empty());
        assert(planned(config, staged) =~= Seq::empty());
        assert(spawned(action) + planned(config, next.staged) =~= planned(config, staged));
    } else {
        lemma_planned_first(config, staged);
        match invocation_of(config, staged[0]) {
            Some(_) => {},
            None => {
                lemma_advance_accounts(config, staged.skip(1));
            },
        }
    }
}

/// One step loses no event and runs none twice: what it spawns, together
/// with what the events still staged run, is what the events staged before
/// and those just delivered run. A step never unsettles the loop.
pub proof fn lemma_step_accounts(config: ConfigurationView, state: LoopState, signal: SignalView)
    ensures
        ({
            let (next, action) = step(config, state, signal);
            &&& spawned(action) + planned(config, next.staged) == planned(
                config,
                state.staged + delivered(signal),
            )
            &&& state.settled() ==> next.settled()
        }),
{
    let (next, action) = step(config, state, signal);
    let arrived = state.staged + delivered(signal);
    match signal {
        SignalView::Refilled(_) => {
            lemma_advance_accounts(config, arrived);
        },
        SignalView::Readable => {
            assert(arrived =~= state.staged);
            if state.phase == Phase::Draining {
                lemma_advance_accounts(config, state.staged);
            } else {
                assert(spawned(action) + planned(config, next.staged) =~= planned(
                    config,
                    state.staged,
                ));
            }
        },
        SignalView::RefillFailed(_) => {
            assert(arrived =~= state.staged);
            assert(spawned(action) + planned(config, next.staged) =~= planned(
                config,
                state.staged,
            ));
        },
        SignalView::Spawned(_) => {
            assert(arrived =~= state.staged);
            lemma_advance_accounts(config, state.staged);
        },
    }
}

/// Over a whole run, what was spawned and what the events still staged run
/// are together what all events run that were staged at the start or
/// delivered since, in the order of delivery. So every event is dispatched
/// once, none twice, and none out of turn.
pub proof fn lemma_run_accounts(
    config: ConfigurationView,
    state: LoopState,
    signals: Seq<SignalView>,
)
    ensures
        ({
            let (end, answers) = run(config, state, signals);
            &&& answers.len() == signals.len()
            &&& spawned_by(answers) + planned(config, end.staged) == planned(
                config,
                state.staged + delivered_by(signals),
            )
            &&& state.settled() ==> end.settled()
        }),
    decreases signals.len(),
{
    let (end, answers) = run(config, state, signals);
    if signals.len() == 0 {
        assert(state.staged + delivered_by(signals) =~= state.staged);
        assert(spawned_by(answers) =~= Seq::empty());
        assert(spawned_by(answers) + planned(config, end.staged) =~= planned(config, state.staged));
    } else {
        let earlier = signals.drop_last();
        let (reached, before) = run(config, state, earlier);
        let (next, action) = step(config, reached, signals.last());
        lemma_run_accounts(config, state, earlier);
        lemma_step_accounts(config, reached, signals.last());
        lemma_spawned_by_push(before, action);
        let fresh = delivered(signals.last());
        lemma_planned_concat(config, reached.staged, fresh);
        lemma_planned_concat(config, state.staged + delivered_by(earlier), fresh);
        assert(state.staged + delivered_by(signals) =~= (state.staged + delivered_by(earlier))
            + fresh);
        assert(spawned_by(answers) + planned(config, end.staged) =~= spawned_by(before) + (spawned(
            action,
        ) + planned(config, next.staged)));
        assert(spawned_by(before) + (planned(config, reached.staged) + planned(config, fresh))
            =~= (spawned_by(before) + planned(config, reached.staged)) + planned(config, fresh));
    }
}

/// One more action adds what it spawns behind what the actions before it
/// spawned.
pub proof fn lemma_spawned_by_push(actions: Seq<ActionView>, action: ActionView)
    ensures
        spawned_by(actions.push(action)) == spawned_by(actions) + spawned(action),
{
    assert(actions.push(action).drop_last() =~= actions);
    assert(actions.push(action).last() == action);
    match action {
        ActionView::Spawn(_) => {},
        _ => {
            assert(spawned_by(actions) + spawned(action) =~= spawned_by(actions));
        },
    }
}

/// A run from a settled state that ends with the loop waiting has spawned
/// exactly what the delivered events run: by the time the loop waits again
/// the drain has consumed all of its input.
pub proof fn lemma_waiting_means_all_dispatched(
    config: ConfigurationView,
    state: LoopState,
    signals: Seq<SignalView>,
)
    requires
        state.settled(),
        run(config, state, signals).0.phase == Phase::Waiting,
    ensures
        run(config, state, signals).0.staged == Seq::<InputEvent>::empty(),
        spawned_by(run(config, state, signals).1) == planned(
            config,
            state.staged + delivered_by(signals),
        ),
{
    let (end, answers) = run(config, state, signals);
    lemma_run_accounts(config, state, signals);
    assert(end.staged =~= Seq::empty());
    assert(planned(config, end.staged) =~= Seq::empty());
    assert(spawned_by(answers) + planned(config, end.staged) =~= spawned_by(answers));
}

/// Once a drain is over, its events are gone: a settled loop that waits,
/// woken again and refilled with nothing new, spawns nothing and is back
/// where it was.
pub proof fn lemma_drained_events_do_not_return(config: ConfigurationView, state: LoopState)
    requires
        state.phase == Phase::Waiting,
        state.settled(),
    ensures
        ({
            let woken = step(config, state, SignalView::Readable);
            let refilled = step(config, woken.0, SignalView::Refilled(Seq::empty()));
            &&& woken.1 == ActionView::Refill
            &&& refilled.1 == ActionView::Wait
            &&& refilled.0 == state
        }),
{
    assert(state.staged =~= Seq::empty());
    assert(state.staged + Seq::<InputEvent>::empty() =~= Seq::empty());
}

/// Whether a command could be started changes nothing: the loop goes on in
/// the same way after a spawn that failed as after one that succeeded.
pub proof fn lemma_spawn_outcome_is_ignored(
    config: ConfigurationView,
    state: LoopState,
    one: SpawnOutcome,
    other: SpawnOutcome,
)
    ensures
        step(config, state, SignalView::Spawned(one)) == step(
            config,
            state,
            SignalView::Spawned(other),
        ),
{
}

/// The loop gives up on a failed refill and on nothing else: no event, no
/// missing command and no failed spawn makes it abort.
pub proof fn lemma_only_failed_refill_aborts(
    config: ConfigurationView,
    state: LoopState,
    signal: SignalView,
)
    ensures
        step(config, state, signal).1 is Abort <==> signal is RefillFailed,
{
    lemma_advance_accounts(config, state.staged);
    lemma_advance_accounts(config, state.staged + delivered(signal));
}

/// Where no event, staged or delivered, has a command configured, a run
/// spawns nothing, however long it is.
pub proof fn lemma_inert_run_spawns_nothing(
    config: ConfigurationView,
    state: LoopState,
    signals: Seq<SignalView>,
)
    requires
        forall|i: int|
            0 <= i < (state.staged + delivered_by(signals)).len() ==> config.resolve(
                #[trigger] (state.staged + delivered_by(signals))[i],
            ) is None,
    ensures
        spawned_by(run(config, state, signals).1) == Seq::<InvocationView>::empty(),
{
    let (end, answers) = run(config, state, signals);
    lemma_run_accounts(config, state, signals);
    lemma_planned_nothing(config, state.staged + delivered_by(signals));
    assert((spawned_by(answers) + planned(config, end.staged)).len() == 0);
    assert(spawned_by(answers) =~= Seq::empty());
}

/// Whether two sequences of signals are the same but for how the spawns
/// went.
pub open spec fn same_but_for_outcomes(one: Seq<SignalView>, other: Seq<SignalView>) -> bool {
    &&& one.len() == other.len()
    &&& forall|i: int|
        0 <= i < one.len() ==> #[trigger] one[i] == other[i] || (one[i] is Spawned
            && other[i] is Spawned)
}

/// How the spawns go changes nothing over a whole run either: the loop
/// reaches the same state with the same answers, in this drain and in every
/// later one.
pub proof fn lemma_run_ignores_outcomes(
    config: ConfigurationView,
    state: LoopState,
    one: Seq<SignalView>,
    other: Seq<SignalView>,
)
    requires
        same_but_for_outcomes(one, other),
    ensures
        run(config, state, one) == run(config, state, other),
    decreases one.len(),
{
    if one.len() > 0 {
        let last = one.len() - 1;
        assert(one[last] == other[last] || (one[last] is Spawned && other[last] is Spawned));
        assert forall|i: int| 0 <= i < one.drop_last().len() implies #[trigger] one.drop_last()[i]
            == other.drop_last()[i] || (one.drop_last()[i] is Spawned
            && other.drop_last()[i] is Spawned) by {
            assert(one[i] == other[i] || (one[i] is Spawned && other[i] is Spawned));
        }
        lemma_run_ignores_outcomes(config, state, one.drop_last(), other.drop_last());
    }
}

} // verus!
