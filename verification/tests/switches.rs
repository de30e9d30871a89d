use switchblade::switch::{InputEvent, ReportedSwitch, SwitchEvent, SwitchKind, SwitchState};

#[test]
fn reported_switches_map_to_their_kinds() {
    assert_eq!(ReportedSwitch::Lid.kind(), Some(SwitchKind::Lid));
    assert_eq!(ReportedSwitch::TabletMode.kind(), Some(SwitchKind::TabletMode));
    assert_eq!(ReportedSwitch::Unrecognized.kind(), None);
}

#[test]
fn toggle_of_a_recognized_switch_is_a_transition() {
    let event = InputEvent::Toggle { switch: ReportedSwitch::Lid, state: SwitchState::Off };
    assert_eq!(
        event.switch_event(),
        Some(SwitchEvent { kind: SwitchKind::Lid, state: SwitchState::Off })
    );
    let event = InputEvent::Toggle { switch: ReportedSwitch::TabletMode, state: SwitchState::On };
    assert_eq!(
        event.switch_event(),
        Some(SwitchEvent { kind: SwitchKind::TabletMode, state: SwitchState::On })
    );
}

#[test]
fn toggle_of_an_unrecognized_switch_is_no_transition() {
    for state in [SwitchState::On, SwitchState::Off] {
        let event = InputEvent::Toggle { switch: ReportedSwitch::Unrecognized, state };
        assert_eq!(event.switch_event(), None);
    }
}

#[test]
fn other_events_are_no_transition() {
    assert_eq!(InputEvent::Other.switch_event(), None);
}

#[test]
fn toggle_builds_the_event_of_a_transition() {
    for kind in [SwitchKind::Lid, SwitchKind::TabletMode] {
        for state in [SwitchState::On, SwitchState::Off] {
            let event = InputEvent::toggle(kind, state);
            assert_eq!(event.switch_event(), Some(SwitchEvent { kind, state }));
        }
    }
    assert_eq!(
        InputEvent::toggle(SwitchKind::Lid, SwitchState::On),
        InputEvent::Toggle { switch: ReportedSwitch::Lid, state: SwitchState::On }
    );
}
