use switchblade::command::Invocation;
use switchblade::config::{ActionConfig, Configuration};
use switchblade::dispatch::{Action, DeviceIoError, Dispatcher, Phase, Signal, SpawnOutcome};
use switchblade::switch::{InputEvent, ReportedSwitch, SwitchKind, SwitchState};

fn some(text: &str) -> Option<String> {
    Some(text.to_string())
}

fn lid_only() -> Configuration {
    Configuration {
        lid: Some(ActionConfig { on: some("CMD_A"), off: some("CMD_B") }),
        tablet_mode: None,
    }
}

fn lid(state: SwitchState) -> InputEvent {
    InputEvent::toggle(SwitchKind::Lid, state)
}

fn tablet(state: SwitchState) -> InputEvent {
    InputEvent::toggle(SwitchKind::TabletMode, state)
}

fn unknown(state: SwitchState) -> InputEvent {
    InputEvent::Toggle { switch: ReportedSwitch::Unrecognized, state }
}

fn spawn(line: &str) -> Action {
    Action::Spawn(Invocation::shell(line))
}

/// Runs one drain of `events` to its end and returns the lines spawned;
/// every spawn is reported with `outcome`.
fn drain(dispatcher: &mut Dispatcher, events: Vec<InputEvent>, outcome: SpawnOutcome) -> Vec<String> {
    assert_eq!(dispatcher.step(Signal::Readable), Action::Refill);
    let mut lines = Vec::new();
    let mut action = dispatcher.step(Signal::Refilled(events));
    loop {
        match action {
            Action::Spawn(invocation) => {
                assert_eq!(invocation.program, "/bin/sh");
                assert_eq!(invocation.arguments[0], "-c");
                lines.push(invocation.arguments[1].clone());
                assert_eq!(dispatcher.phase(), Phase::Draining);
                action = dispatcher.step(Signal::Spawned(outcome));
            }
            Action::Wait => break,
            other => panic!("unexpected action {:?}", other),
        }
    }
    assert_eq!(dispatcher.phase(), Phase::Waiting);
    assert_eq!(dispatcher.staged_len(), 0);
    lines
}

#[test]
fn loop_starts_by_waiting() {
    let (dispatcher, first) = Dispatcher::start(lid_only());
    assert_eq!(first, Action::Wait);
    assert_eq!(dispatcher.phase(), Phase::Waiting);
    assert_eq!(dispatcher.staged_len(), 0);
}

#[test]
fn readable_source_is_refilled() {
    let (mut dispatcher, _) = Dispatcher::start(lid_only());
    assert_eq!(dispatcher.step(Signal::Readable), Action::Refill);
    assert_eq!(dispatcher.phase(), Phase::Draining);
}

#[test]
fn lid_toggles_run_their_commands_in_order() {
    let events = vec![lid(SwitchState::On), lid(SwitchState::Off), lid(SwitchState::On)];
    let planned = lid_only().plan(&events);
    assert_eq!(
        planned,
        vec![Invocation::shell("CMD_A"), Invocation::shell("CMD_B"), Invocation::shell("CMD_A")]
    );

    let (mut dispatcher, _) = Dispatcher::start(lid_only());
    assert_eq!(dispatcher.step(Signal::Readable), Action::Refill);
    assert_eq!(dispatcher.step(Signal::Refilled(events)), spawn("CMD_A"));
    assert_eq!(dispatcher.staged_len(), 2);
    assert_eq!(dispatcher.step(Signal::Spawned(SpawnOutcome::Started)), spawn("CMD_B"));
    assert_eq!(dispatcher.staged_len(), 1);
    assert_eq!(dispatcher.step(Signal::Spawned(SpawnOutcome::Started)), spawn("CMD_A"));
    assert_eq!(dispatcher.staged_len(), 0);
    assert_eq!(dispatcher.phase(), Phase::Draining);
    assert_eq!(dispatcher.step(Signal::Spawned(SpawnOutcome::Started)), Action::Wait);
    assert_eq!(dispatcher.phase(), Phase::Waiting);
}

#[test]
fn on_then_off_in_one_drain_runs_both() {
    let (mut dispatcher, _) = Dispatcher::start(lid_only());
    let lines = drain(
        &mut dispatcher,
        vec![lid(SwitchState::On), lid(SwitchState::Off)],
        SpawnOutcome::Started,
    );
    assert_eq!(lines, vec!["CMD_A", "CMD_B"]);
}

#[test]
fn unconfigured_kind_spawns_nothing() {
    let (mut dispatcher, _) = Dispatcher::start(lid_only());
    let mut events = Vec::new();
    for _ in 0..100 {
        events.push(tablet(SwitchState::On));
        events.push(tablet(SwitchState::Off));
    }
    assert_eq!(lid_only().plan(&events), Vec::<Invocation>::new());
    assert_eq!(drain(&mut dispatcher, events, SpawnOutcome::Started), Vec::<String>::new());
}

#[test]
fn unconfigured_kind_among_others_changes_nothing() {
    let (mut dispatcher, _) = Dispatcher::start(lid_only());
    let events = vec![
        tablet(SwitchState::On),
        lid(SwitchState::Off),
        tablet(SwitchState::Off),
        tablet(SwitchState::On),
        lid(SwitchState::On),
    ];
    assert_eq!(drain(&mut dispatcher, events, SpawnOutcome::Started), vec!["CMD_B", "CMD_A"]);
}

#[test]
fn unbound_state_spawns_nothing() {
    let config = Configuration {
        lid: Some(ActionConfig { on: None, off: some("suspend") }),
        tablet_mode: Some(ActionConfig { on: some("rotate"), off: None }),
    };
    let events = vec![
        lid(SwitchState::On),
        tablet(SwitchState::Off),
        lid(SwitchState::On),
        lid(SwitchState::Off),
        tablet(SwitchState::On),
    ];
    assert_eq!(
        config.plan(&events),
        vec![Invocation::shell("suspend"), Invocation::shell("rotate")]
    );
    let (mut dispatcher, _) = Dispatcher::start(config);
    assert_eq!(drain(&mut dispatcher, events, SpawnOutcome::Started), vec!["suspend", "rotate"]);
}

#[test]
fn empty_configuration_spawns_nothing() {
    let config = Configuration { lid: None, tablet_mode: None };
    let events = vec![lid(SwitchState::On), tablet(SwitchState::Off), InputEvent::Other];
    let (mut dispatcher, _) = Dispatcher::start(config);
    assert_eq!(drain(&mut dispatcher, events, SpawnOutcome::Started), Vec::<String>::new());
}

#[test]
fn unrecognized_switch_is_passed_over() {
    let config = Configuration {
        lid: Some(ActionConfig { on: some("CMD_A"), off: some("CMD_B") }),
        tablet_mode: Some(ActionConfig { on: some("CMD_C"), off: some("CMD_D") }),
    };
    let events = vec![unknown(SwitchState::On), unknown(SwitchState::Off)];
    assert_eq!(config.plan(&events), Vec::<Invocation>::new());
    let (mut dispatcher, _) = Dispatcher::start(config);
    assert_eq!(dispatcher.step(Signal::Readable), Action::Refill);
    assert_eq!(dispatcher.step(Signal::Refilled(events)), Action::Wait);
    assert_eq!(dispatcher.phase(), Phase::Waiting);

    let events = vec![unknown(SwitchState::On), tablet(SwitchState::Off), unknown(SwitchState::Off)];
    assert_eq!(drain(&mut dispatcher, events, SpawnOutcome::Started), vec!["CMD_D"]);
}

#[test]
fn other_events_are_consumed_without_effect() {
    let (mut dispatcher, _) = Dispatcher::start(lid_only());
    let events = vec![
        InputEvent::Other,
        InputEvent::Other,
        lid(SwitchState::On),
        InputEvent::Other,
        lid(SwitchState::Off),
        InputEvent::Other,
    ];
    assert_eq!(dispatcher.step(Signal::Readable), Action::Refill);
    assert_eq!(dispatcher.step(Signal::Refilled(events)), spawn("CMD_A"));
    assert_eq!(dispatcher.staged_len(), 3);
    assert_eq!(dispatcher.step(Signal::Spawned(SpawnOutcome::Started)), spawn("CMD_B"));
    assert_eq!(dispatcher.staged_len(), 1);
    assert_eq!(dispatcher.step(Signal::Spawned(SpawnOutcome::Started)), Action::Wait);
    assert_eq!(dispatcher.staged_len(), 0);
}

#[test]
fn failed_spawn_does_not_stop_the_drain() {
    let events = vec![lid(SwitchState::On), lid(SwitchState::Off), lid(SwitchState::On)];
    let (mut failing, _) = Dispatcher::start(lid_only());
    let (mut working, _) = Dispatcher::start(lid_only());
    let failed = drain(&mut failing, events.clone(), SpawnOutcome::Failed);
    let started = drain(&mut working, events, SpawnOutcome::Started);
    assert_eq!(failed, vec!["CMD_A", "CMD_B", "CMD_A"]);
    assert_eq!(failed, started);
}

#[test]
fn failed_spawn_does_not_stop_the_next_drain() {
    let (mut dispatcher, _) = Dispatcher::start(lid_only());
    assert_eq!(
        drain(&mut dispatcher, vec![lid(SwitchState::On)], SpawnOutcome::Failed),
        vec!["CMD_A"]
    );
    assert_eq!(
        drain(&mut dispatcher, vec![lid(SwitchState::Off)], SpawnOutcome::Failed),
        vec!["CMD_B"]
    );
}

#[test]
fn drained_events_are_not_dispatched_again() {
    let (mut dispatcher, _) = Dispatcher::start(lid_only());
    let events = vec![lid(SwitchState::On), lid(SwitchState::Off)];
    assert_eq!(drain(&mut dispatcher, events, SpawnOutcome::Started), vec!["CMD_A", "CMD_B"]);
    assert_eq!(drain(&mut dispatcher, Vec::new(), SpawnOutcome::Started), Vec::<String>::new());
    assert_eq!(dispatcher.step(Signal::Spawned(SpawnOutcome::Started)), Action::Wait);
    assert_eq!(dispatcher.step(Signal::Readable), Action::Refill);
    assert_eq!(dispatcher.step(Signal::Refilled(Vec::new())), Action::Wait);
}

#[test]
fn each_drain_runs_its_own_events_alone() {
    let (mut dispatcher, _) = Dispatcher::start(lid_only());
    let events = vec![lid(SwitchState::On), lid(SwitchState::Off)];
    let first = drain(&mut dispatcher, events.clone(), SpawnOutcome::Started);
    let second = drain(&mut dispatcher, events.clone(), SpawnOutcome::Started);
    assert_eq!(first, vec!["CMD_A", "CMD_B"]);
    assert_eq!(second, vec!["CMD_A", "CMD_B"]);

    let mut twice = events.clone();
    twice.extend(events);
    let planned: Vec<String> =
        lid_only().plan(&twice).into_iter().map(|invocation| invocation.arguments[1].clone()).collect();
    let mut spawned = first;
    spawned.extend(second);
    assert_eq!(spawned, planned);
}

#[test]
fn failed_refill_aborts_and_changes_nothing() {
    let (mut dispatcher, _) = Dispatcher::start(lid_only());
    assert_eq!(dispatcher.step(Signal::Readable), Action::Refill);
    assert_eq!(dispatcher.step(Signal::RefillFailed(DeviceIoError { code: 19 })), Action::Abort(DeviceIoError { code: 19 }));
    assert_eq!(dispatcher.phase(), Phase::Draining);
    assert_eq!(dispatcher.staged_len(), 0);
}

#[test]
fn failed_refill_keeps_what_is_staged() {
    let (mut dispatcher, _) = Dispatcher::start(lid_only());
    assert_eq!(dispatcher.step(Signal::Readable), Action::Refill);
    let events = vec![lid(SwitchState::On), lid(SwitchState::Off)];
    assert_eq!(dispatcher.step(Signal::Refilled(events)), spawn("CMD_A"));
    assert_eq!(dispatcher.step(Signal::RefillFailed(DeviceIoError { code: 5 })), Action::Abort(DeviceIoError { code: 5 }));
    assert_eq!(dispatcher.staged_len(), 1);
    assert_eq!(dispatcher.step(Signal::Spawned(SpawnOutcome::Started)), spawn("CMD_B"));
}

#[test]
fn refill_of_nothing_returns_to_waiting() {
    let (mut dispatcher, _) = Dispatcher::start(lid_only());
    assert_eq!(dispatcher.step(Signal::Readable), Action::Refill);
    assert_eq!(dispatcher.step(Signal::Refilled(Vec::new())), Action::Wait);
    assert_eq!(dispatcher.phase(), Phase::Waiting);
}

#[test]
fn events_of_a_second_refill_queue_behind_the_first() {
    let (mut dispatcher, _) = Dispatcher::start(lid_only());
    assert_eq!(dispatcher.step(Signal::Readable), Action::Refill);
    assert_eq!(
        dispatcher.step(Signal::Refilled(vec![lid(SwitchState::On), lid(SwitchState::On)])),
        spawn("CMD_A")
    );
    assert_eq!(dispatcher.step(Signal::Refilled(vec![lid(SwitchState::Off)])), spawn("CMD_A"));
    assert_eq!(dispatcher.step(Signal::Spawned(SpawnOutcome::Started)), spawn("CMD_B"));
    assert_eq!(dispatcher.step(Signal::Spawned(SpawnOutcome::Started)), Action::Wait);
}

#[test]
fn readable_while_draining_goes_on_draining() {
    let (mut dispatcher, _) = Dispatcher::start(lid_only());
    assert_eq!(dispatcher.step(Signal::Readable), Action::Refill);
    assert_eq!(
        dispatcher.step(Signal::Refilled(vec![lid(SwitchState::On), lid(SwitchState::Off)])),
        spawn("CMD_A")
    );
    assert_eq!(dispatcher.step(Signal::Readable), spawn("CMD_B"));
    assert_eq!(dispatcher.step(Signal::Readable), Action::Wait);
    assert_eq!(dispatcher.step(Signal::Readable), Action::Refill);
}

#[test]
fn plan_of_no_events_is_empty() {
    assert_eq!(lid_only().plan(&Vec::new()), Vec::<Invocation>::new());
}
