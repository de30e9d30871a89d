//! The dispatch loop as a machine: it is told what happened, and answers with
//! what to do next.
//!
//! The loop waits for the event source to become readable, has the staged
//! events handed over, runs the command of each in turn, and waits again. The
//! program around it performs each [`Action`] and reports back with a
//! [`Signal`]; every decision is made here.

use crate::command::{Invocation, InvocationView};
use crate::config::{Configuration, ConfigurationView};
use crate::plan::invocation_of;
use crate::switch::InputEvent;
use std::collections::VecDeque;
use vstd::prelude::*;

verus! {

/// The two phases that the loop alternates between.
#[derive(Clone, Copy, Debug, PartialEq, Eq, Structural)]
pub enum Phase {
    /// Blocked until the event source is readable.
    Waiting,
    /// Working through the events of one refill.
    Draining,
}

/// How an attempt to start a command ended.
#[derive(Clone, Copy, Debug, PartialEq, Eq, Structural)]
pub enum SpawnOutcome {
    Started,
    Failed,
}

/// The event source could not read from its devices.
#[derive(Clone, Copy, Debug, PartialEq, Eq, Structural)]
pub struct DeviceIoError {
    /// The error code of the operating system.
    pub code: i32,
}

/// What the surrounding program reports to the loop.
#[derive(Clone, Debug, PartialEq, Eq)]
pub enum Signal {
    /// The event source has become readable.
    Readable,
    /// The event source was refilled and staged these events, oldest first.
    Refilled(Vec<InputEvent>),
    /// The refill failed.
    RefillFailed(DeviceIoError),
    /// The command was started, or could not be.
    Spawned(SpawnOutcome),
}

/// A [`Signal`] with its events as a sequence.
pub enum SignalView {
    Readable,
    Refilled(Seq<InputEvent>),
    RefillFailed(DeviceIoError),
    Spawned(SpawnOutcome),
}

impl View for Signal {
    type V = SignalView;

    open spec fn view(&self) -> SignalView {
        match *self {
            Signal::Readable => SignalView::Readable,
            Signal::Refilled(events) => SignalView::Refilled(events@),
            Signal::RefillFailed(error) => SignalView::RefillFailed(error),
            Signal::Spawned(outcome) => SignalView::Spawned(outcome),
        }
    }
}

/// What the loop asks the surrounding program to do.
#[derive(Clone, Debug, PartialEq, Eq)]
pub enum Action {
    /// Block, without a time limit, until the event source is readable.
    Wait,
    /// Refill the event source and hand over every event it has staged.
    Refill,
    /// Start this command, detached, and report how that went.
    Spawn(Invocation),
    /// Give up: the refill failed, and that is fatal.
    Abort(DeviceIoError),
}

/// An [`Action`] with its invocation as sequences of characters.
pub enum ActionView {
    Wait,
    Refill,
    Spawn(InvocationView),
    Abort(DeviceIoError),
}

impl View for Action {
    type V = ActionView;

    open spec fn view(&self) -> ActionView {
        match *self {
            Action::Wait => ActionView::Wait,
            Action::Refill => ActionView::Refill,
            Action::Spawn(invocation) => ActionView::Spawn(invocation@),
            Action::Abort(error) => ActionView::Abort(error),
        }
    }
}

/// The state of the loop: its phase, and the staged events that it has not
/// looked at yet, oldest first.
pub struct LoopState {
    pub phase: Phase,
    pub staged: Seq<InputEvent>,
}

impl LoopState {
    /// The state that the loop starts in: waiting, with nothing staged.
    pub open spec fn initial() -> LoopState {
        LoopState { phase: Phase::Waiting, staged: Seq::empty() }
    }

    /// While the loop waits, nothing is staged.
    pub open spec fn settled(self) -> bool {
        self.phase == Phase::Waiting ==> self.staged.len() == 0
    }
}

/// Works through `staged` from the front: events without a command are
/// passed over; the first one with a command has it spawned, and the events
/// behind it stay staged; with no such event left, the loop waits again.
pub open spec fn advance(config: ConfigurationView, staged: Seq<InputEvent>) -> (
    LoopState,
    ActionView,
)
    decreases staged.len(),
{
    if staged.len() == 0 {
        (LoopState { phase: Phase::Waiting, staged }, ActionView::Wait)
    } else {
        match invocation_of(config, staged[0]) {
            Some(invocation) => (
                LoopState { phase: Phase::Draining, staged: staged.skip(1) },
                ActionView::Spawn(invocation),
            ),
            None => advance(config, staged.skip(1)),
        }
    }
}

/// The next state and the action with which the loop answers a signal.
///
/// A readable event source ends the wait: the loop asks for a refill; told
/// so while it is draining already, it goes on draining. The events of a
/// refill are staged behind any that still are, and the loop works through
/// them. A failed refill is fatal: an event source that cannot
/// read its devices reports nothing any more, so the loop gives up, with the
/// error handed on and nothing else changed. After a spawn the loop goes on
/// with the staged events, whether the command was started or not.
pub open spec fn step(config: ConfigurationView, state: LoopState, signal: SignalView) -> (
    LoopState,
    ActionView,
) {
    match signal {
        SignalView::Readable => match state.phase {
            Phase::Waiting => (
                LoopState { phase: Phase::Draining, staged: state.staged },
                ActionView::Refill,
            ),
            Phase::Draining => advance(config, state.staged),
        },
        SignalView::Refilled(events) => advance(config, state.staged + events),
        SignalView::RefillFailed(error) => (state, ActionView::Abort(error)),
        SignalView::Spawned(_) => advance(config, state.staged),
    }
}

/// The dispatch loop: a configuration, fixed for good, and the loop's state.
pub struct Dispatcher {
    config: Configuration,
    phase: Phase,
    staged: VecDeque<InputEvent>,
}

impl View for Dispatcher {
    type V = LoopState;

    closed spec fn view(&self) -> LoopState {
        LoopState { phase: self.phase, staged: self.staged@ }
    }
}

impl Dispatcher {
    /// The configuration that the loop dispatches by.
    pub closed spec fn configuration(&self) -> ConfigurationView {
        self.config@
    }

    /// A loop over `config` in its initial state, and its first action: to
    /// wait.
    pub fn start(config: Configuration) -> (started: (Dispatcher, Action))
        ensures
            started.0@ == LoopState::initial(),
            started.0.configuration() == config@,
            started.1@ == ActionView::Wait,
    {
        (Dispatcher { config, phase: Phase::Waiting, staged: VecDeque::new() }, Action::Wait)
    }

    /// The phase that the loop is in.
    pub fn phase(&self) -> (phase: Phase)
        ensures
            phase == self@.phase,
    {
        self.phase
    }

    /// The number of staged events that the loop has not looked at yet.
    pub fn staged_len(&self) -> (len: usize)
        ensures
            len == self@.staged.len(),
    {
        self.staged.len()
    }

    /// Takes in what the surrounding program reports and answers with what it
    /// is to do next.
    pub fn step(&mut self, signal: Signal) -> (action: Action)
        ensures
            final(self).configuration() == old(self).configuration(),
            (final(self)@, action@) == step(old(self).configuration(), old(self)@, signal@),
    {
        match signal {
            Signal::Readable => match self.phase {
                Phase::Waiting => {
                    self.phase = Phase::Draining;
                    Action::Refill
                },
                Phase::Draining => self.advance(),
            },
            Signal::Refilled(events) => {
                self.stage(&events);
                self.advance()
            },
            Signal::RefillFailed(error) => Action::Abort(error),
            Signal::Spawned(_) => self.advance(),
        }
    }

    /// Stages `events` behind those that are staged already.
    fn stage(&mut self, events: &Vec<InputEvent>)
        ensures
            final(self).config == old(self).config,
            final(self).phase == old(self).phase,
            final(self).staged@ == old(self).staged@ + events@,
    {
        let mut next: usize = 0;
        while next < events.len()
            invariant
                next <= events.len(),
                self.config == old(self).config,
                self.phase == old(self).phase,
                self.staged@ == old(self).staged@ + events@.take(next as int),
            decreases events.len() - next,
        {
            self.staged.push_back(events[next]);
            assert(events@.take(next + 1) =~= events@.take(next as int).push(events@[next as int]));
            next = next + 1;
        }
        assert(events@.take(next as int) =~= events@);
    }

    /// Works through the staged events up to the first that has a command.
    fn advance(&mut self) -> (action: Action)
        ensures
            final(self).config == old(self).config,
            (final(self)@, action@) == advance(old(self).config@, old(self).staged@),
    {
        loop
            invariant
                self.config == old(self).config,
                advance(self.config@, self.staged@) == advance(
                    old(self).config@,
                    old(self).staged@,
                ),
            decreases self.staged@.len(),
        {
            let ghost before = self.staged@;
            match self.staged.pop_front() {
                None => {
                    self.phase = Phase::Waiting;
                    return Action::Wait;
                },
                Some(event) => {
                    assert(self.staged@ =~= before.skip(1));
                    match self.config.resolve(event) {
                        Some(line) => {
                            let invocation = Invocation::shell(line);
                            self.phase = Phase::Draining;
                            return Action::Spawn(invocation);
                        },
                        None => {},
                    }
                },
            }
        }
    }
}

} // verus!
