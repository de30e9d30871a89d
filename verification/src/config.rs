//! The configuration: which command, if any, each state of each switch runs.

use crate::switch::{InputEvent, SwitchEvent, SwitchKind, SwitchState};
use vstd::prelude::*;

verus! {

/// The commands bound to the two states of one switch.
#[derive(Clone, Debug, PartialEq, Eq)]
pub struct ActionConfig {
    pub on: Option<String>,
    pub off: Option<String>,
}

/// An [`ActionConfig`] with its command lines as sequences of characters.
pub struct ActionConfigView {
    pub on: Option<Seq<char>>,
    pub off: Option<Seq<char>>,
}

/// The characters of an optional command line.
pub open spec fn text_of(line: Option<String>) -> Option<Seq<char>> {
    match line {
        Some(text) => Some(text@),
        None => None,
    }
}

impl View for ActionConfig {
    type V = ActionConfigView;

    open spec fn view(&self) -> ActionConfigView {
        ActionConfigView { on: text_of(self.on), off: text_of(self.off) }
    }
}

impl ActionConfigView {
    /// The command bound to `state`.
    pub open spec fn command(self, state: SwitchState) -> Option<Seq<char>> {
        match state {
            SwitchState::On => self.on,
            SwitchState::Off => self.off,
        }
    }
}

impl ActionConfig {
    /// The command bound to `state`, character for character as it was
    /// configured.
    pub fn command(&self, state: SwitchState) -> (line: Option<&str>)
        ensures
            match line {
                Some(text) => self@.command(state) == Some(text@),
                None => self@.command(state) is None,
            },
    {
        let bound = match state {
            SwitchState::On => &self.on,
            SwitchState::Off => &self.off,
        };
        match bound {
            Some(text) => Some(text.as_str()),
            None => None,
        }
    }
}

/// The actions of every switch that has any.
#[derive(Clone, Debug, PartialEq, Eq)]
pub struct Configuration {
    pub lid: Option<ActionConfig>,
    pub tablet_mode: Option<ActionConfig>,
}

/// A [`Configuration`] with its command lines as sequences of characters.
pub struct ConfigurationView {
    pub lid: Option<ActionConfigView>,
    pub tablet_mode: Option<ActionConfigView>,
}

/// The view of an optional [`ActionConfig`].
pub open spec fn actions_of(actions: Option<ActionConfig>) -> Option<ActionConfigView> {
    match actions {
        Some(bound) => Some(bound@),
        None => None,
    }
}

impl View for Configuration {
    type V = ConfigurationView;

    open spec fn view(&self) -> ConfigurationView {
        ConfigurationView { lid: actions_of(self.lid), tablet_mode: actions_of(self.tablet_mode) }
    }
}

impl ConfigurationView {
    /// The actions configured for `kind`.
    pub open spec fn actions(self, kind: SwitchKind) -> Option<ActionConfigView> {
        match kind {
            SwitchKind::Lid => self.lid,
            SwitchKind::TabletMode => self.tablet_mode,
        }
    }

    /// The command that a switch transition runs: the one bound to its state
    /// under its kind, where both the kind and the binding are present.
    pub open spec fn command(self, event: SwitchEvent) -> Option<Seq<char>> {
        match self.actions(event.kind) {
            Some(bound) => bound.command(event.state),
            None => None,
        }
    }

    /// The command that an event of the input subsystem runs: that of the
    /// switch transition it stands for, if it stands for one.
    pub open spec fn resolve(self, event: InputEvent) -> Option<Seq<char>> {
        match event.spec_switch_event() {
            Some(transition) => self.command(transition),
            None => None,
        }
    }
}

/// What a toggle runs is the command bound to its state under its kind,
/// exactly as it stands in the configuration, and nothing where either is
/// missing.
pub proof fn lemma_toggle_reads_binding(
    config: ConfigurationView,
    kind: SwitchKind,
    state: SwitchState,
)
    ensures
        config.resolve(InputEvent::toggle_of(kind, state)) == match config.actions(kind) {
            Some(bound) => bound.command(state),
            None => None,
        },
{
}

/// A toggle of a switch that has no actions configured runs nothing,
/// whatever state it toggles into.
pub proof fn lemma_unconfigured_kind_is_inert(config: ConfigurationView, event: InputEvent)
    requires
        event.spec_switch_event() matches Some(transition) && config.actions(transition.kind)
            is None,
    ensures
        config.resolve(event) is None,
{
}

/// A toggle into a state that has no command bound runs nothing.
pub proof fn lemma_unbound_state_is_inert(config: ConfigurationView, event: InputEvent)
    requires
        event.spec_switch_event() matches Some(transition) && config.actions(transition.kind)
            matches Some(bound) && bound.command(transition.state) is None,
    ensures
        config.resolve(event) is None,
{
}

/// A toggle of a switch that is not recognized stands for no transition:
/// nothing is looked up for it and nothing runs, under every configuration.
pub proof fn lemma_unrecognized_switch_is_inert(config: ConfigurationView, event: InputEvent)
    requires
        event.toggles_unrecognized(),
    ensures
        event.spec_switch_event() is None,
        config.resolve(event) is None,
{
}

impl Configuration {
    /// The actions configured for `kind`.
    pub fn actions(&self, kind: SwitchKind) -> (actions: Option<&ActionConfig>)
        ensures
            match actions {
                Some(bound) => self@.actions(kind) == Some(bound@),
                None => self@.actions(kind) is None,
            },
    {
        let configured = match kind {
            SwitchKind::Lid => &self.lid,
            SwitchKind::TabletMode => &self.tablet_mode,
        };
        match configured {
            Some(bound) => Some(bound),
            None => None,
        }
    }

    /// The command that a switch transition runs, if one is configured.
    pub fn command(&self, event: SwitchEvent) -> (line: Option<&str>)
        ensures
            match line {
                Some(text) => self@.command(event) == Some(text@),
                None => self@.command(event) is None,
            },
    {
        match self.actions(event.kind) {
            Some(bound) => bound.command(event.state),
            None => None,
        }
    }

    /// The command that an event of the input subsystem runs, if any: none for
    /// an event that is no toggle, for a switch that is not recognized or not
    /// configured, and for a state with no command bound.
    pub fn resolve(&self, event: InputEvent) -> (line: Option<&str>)
        ensures
            match line {
                Some(text) => self@.resolve(event) == Some(text@),
                None => self@.resolve(event) is None,
            },
    {
        match event.switch_event() {
            Some(transition) => self.command(transition),
            None => None,
        }
    }
}

} // verus!
