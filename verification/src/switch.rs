//! Switches, their states, and the events that the input subsystem reports.

use vstd::prelude::*;

verus! {

/// A physical switch that commands can be bound to.
#[derive(Clone, Copy, Debug, PartialEq, Eq, Structural)]
pub enum SwitchKind {
    Lid,
    TabletMode,
}

/// The state that a toggle leaves a switch in.
#[derive(Clone, Copy, Debug, PartialEq, Eq, Structural)]
pub enum SwitchState {
    On,
    Off,
}

/// One transition of a recognized switch.
#[derive(Clone, Copy, Debug, PartialEq, Eq, Structural)]
pub struct SwitchEvent {
    pub kind: SwitchKind,
    pub state: SwitchState,
}

/// The switch that a toggle names, as the input subsystem reports it. It may
/// be one that this library has no kind for.
#[derive(Clone, Copy, Debug, PartialEq, Eq, Structural)]
pub enum ReportedSwitch {
    Lid,
    TabletMode,
    Unrecognized,
}

impl ReportedSwitch {
    /// The kind of a reported switch, if it is a recognized one.
    pub open spec fn spec_kind(self) -> Option<SwitchKind> {
        match self {
            ReportedSwitch::Lid => Some(SwitchKind::Lid),
            ReportedSwitch::TabletMode => Some(SwitchKind::TabletMode),
            ReportedSwitch::Unrecognized => None,
        }
    }

    #[verifier::when_used_as_spec(spec_kind)]
    pub fn kind(self) -> (kind: Option<SwitchKind>)
        ensures
            kind == self.spec_kind(),
    {
        match self {
            ReportedSwitch::Lid => Some(SwitchKind::Lid),
            ReportedSwitch::TabletMode => Some(SwitchKind::TabletMode),
            ReportedSwitch::Unrecognized => None,
        }
    }
}

/// One decoded event of the input subsystem, reduced to what dispatch reads.
#[derive(Clone, Copy, Debug, PartialEq, Eq, Structural)]
pub enum InputEvent {
    /// A switch changed state.
    Toggle { switch: ReportedSwitch, state: SwitchState },
    /// Anything else: a device came or went, a key, a pointer motion.
    Other,
}

impl InputEvent {
    /// The toggle of `kind` into `state`.
    pub open spec fn toggle_of(kind: SwitchKind, state: SwitchState) -> InputEvent {
        match kind {
            SwitchKind::Lid => InputEvent::Toggle { switch: ReportedSwitch::Lid, state },
            SwitchKind::TabletMode => InputEvent::Toggle {
                switch: ReportedSwitch::TabletMode,
                state,
            },
        }
    }

    /// The switch transition that an event stands for: one for each toggle of
    /// a recognized switch, none for anything else.
    pub open spec fn spec_switch_event(self) -> Option<SwitchEvent> {
        match self {
            InputEvent::Toggle { switch, state } => match switch.spec_kind() {
                Some(kind) => Some(SwitchEvent { kind, state }),
                None => None,
            },
            InputEvent::Other => None,
        }
    }

    /// Whether the event is a toggle of the recognized switch `kind`.
    pub open spec fn toggles(self, kind: SwitchKind) -> bool {
        self.spec_switch_event() matches Some(transition) && transition.kind == kind
    }

    /// Whether the event is a toggle of a switch that is not recognized.
    pub open spec fn toggles_unrecognized(self) -> bool {
        self matches InputEvent::Toggle { switch, .. } && switch == ReportedSwitch::Unrecognized
    }

    #[verifier::when_used_as_spec(spec_switch_event)]
    pub fn switch_event(self) -> (event: Option<SwitchEvent>)
        ensures
            event == self.spec_switch_event(),
    {
        match self {
            InputEvent::Toggle { switch, state } => match switch.kind() {
                Some(kind) => Some(SwitchEvent { kind, state }),
                None => None,
            },
            InputEvent::Other => None,
        }
    }

    /// Builds the toggle of `kind` into `state`.
    pub fn toggle(kind: SwitchKind, state: SwitchState) -> (event: InputEvent)
        ensures
            event == InputEvent::toggle_of(kind, state),
            event.spec_switch_event() == Some(SwitchEvent { kind, state }),
    {
        match kind {
            SwitchKind::Lid => InputEvent::Toggle { switch: ReportedSwitch::Lid, state },
            SwitchKind::TabletMode => InputEvent::Toggle {
                switch: ReportedSwitch::TabletMode,
                state,
            },
        }
    }
}

} // verus!
