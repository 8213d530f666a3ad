use shaco::ingame::{
    ConsumerStep, PollCommand, PollEngine, PollEvent, PollPhase, StreamHandle,
    DEFAULT_POLLING_RATE_MILLIS, PROBE_TIMEOUT_MILLIS,
};
use shaco::model::ingame::{GameEvent, GameStart, MinionsSpawning, Real};

fn event(id: u32) -> GameEvent {
    if id % 2 == 0 {
        GameEvent::GameStart(GameStart { event_id: id, event_time: Real { bits: 0 } })
    } else {
        GameEvent::MinionsSpawning(MinionsSpawning { event_id: id, event_time: Real { bits: 0 } })
    }
}

fn events(ids: &[u32]) -> Vec<GameEvent> {
    ids.iter().map(|id| event(*id)).collect()
}

fn ids(events: &[GameEvent]) -> Vec<u32> {
    events.iter().map(|e| e.get_event_id()).collect()
}

fn polling_engine() -> PollEngine {
    let mut engine = PollEngine::new();
    engine.step(PollEvent::Spawned);
    engine.step(PollEvent::StartSignal);
    engine.step(PollEvent::GameProbe(true));
    assert_eq!(engine.phase(), PollPhase::Polling);
    engine
}

#[test]
fn two_polls_are_forwarded_in_order() {
    let mut engine = polling_engine();
    assert_eq!(engine.command(), PollCommand::Query { since: 0 });
    let first = engine.step(PollEvent::Events(events(&[0, 1, 2])));
    assert_eq!(ids(&first.forward), vec![0, 1, 2]);
    assert_eq!(first.forward, events(&[0, 1, 2]));
    assert_eq!(engine.cursor(), 3);
    assert_eq!(first.command, PollCommand::Query { since: 3 });
    let second = engine.step(PollEvent::Events(events(&[3, 4])));
    assert_eq!(ids(&second.forward), vec![3, 4]);
    assert_eq!(engine.cursor(), 5);
    assert_eq!(second.command, PollCommand::Query { since: 5 });
}

#[test]
fn empty_poll_changes_nothing() {
    let mut engine = polling_engine();
    engine.step(PollEvent::Events(events(&[0, 1, 2])));
    let step = engine.step(PollEvent::Events(vec![]));
    assert!(step.forward.is_empty());
    assert_eq!(engine.cursor(), 3);
    assert_eq!(engine.phase(), PollPhase::Polling);
    assert_eq!(step.command, PollCommand::Query { since: 3 });
}

#[test]
fn events_below_the_cursor_are_not_forwarded_again() {
    let mut engine = polling_engine();
    engine.step(PollEvent::Events(events(&[0, 1, 2])));
    let step = engine.step(PollEvent::Events(events(&[0, 1, 2])));
    assert!(step.forward.is_empty());
    assert_eq!(engine.cursor(), 3);
    let step = engine.step(PollEvent::Events(events(&[1, 2, 3, 3, 2, 7, 5, 8])));
    assert_eq!(ids(&step.forward), vec![3, 7, 8]);
    assert_eq!(engine.cursor(), 9);
}

#[test]
fn cursor_goes_past_the_largest_identifier() {
    let mut engine = polling_engine();
    let step = engine.step(PollEvent::Events(events(&[u32::MAX])));
    assert_eq!(ids(&step.forward), vec![u32::MAX]);
    assert_eq!(engine.cursor(), 4294967296);
    assert_eq!(step.command, PollCommand::Query { since: 4294967296 });
    let step = engine.step(PollEvent::Events(events(&[u32::MAX])));
    assert!(step.forward.is_empty());
}

#[test]
fn nothing_is_asked_before_the_start_signal() {
    let mut engine = PollEngine::new();
    assert_eq!(engine.phase(), PollPhase::Created);
    assert_eq!(engine.cursor(), 0);
    assert_eq!(engine.command(), PollCommand::AwaitStart);
    let happenings = vec![
        PollEvent::GameProbe(true),
        PollEvent::Events(events(&[0, 1])),
        PollEvent::Spawned,
        PollEvent::GameProbe(true),
        PollEvent::Events(events(&[0, 1])),
        PollEvent::QueryFailed,
        PollEvent::Spawned,
    ];
    for happening in happenings {
        let step = engine.step(happening);
        assert!(step.forward.is_empty());
        assert_eq!(step.command, PollCommand::AwaitStart);
    }
    assert_eq!(engine.phase(), PollPhase::AwaitingStart);
    assert_eq!(engine.cursor(), 0);
}

#[test]
fn lost_start_signal_ends_the_task() {
    let mut engine = PollEngine::new();
    engine.step(PollEvent::Spawned);
    let step = engine.step(PollEvent::StartDropped);
    assert_eq!(step.command, PollCommand::Halt);
    assert_eq!(engine.phase(), PollPhase::Stopped);
}

#[test]
fn task_waits_for_the_game() {
    let mut engine = PollEngine::new();
    assert_eq!(engine.step(PollEvent::Spawned).command, PollCommand::AwaitStart);
    assert_eq!(engine.step(PollEvent::StartSignal).command, PollCommand::ProbeGame);
    assert_eq!(engine.phase(), PollPhase::WaitingForGameStart);
    for _ in 0..3 {
        assert_eq!(engine.step(PollEvent::GameProbe(false)).command, PollCommand::ProbeGame);
    }
    let ignored = engine.step(PollEvent::Events(events(&[0])));
    assert!(ignored.forward.is_empty());
    assert_eq!(ignored.command, PollCommand::ProbeGame);
    assert_eq!(
        engine.step(PollEvent::GameProbe(true)).command,
        PollCommand::Query { since: 0 }
    );
    assert_eq!(engine.phase(), PollPhase::Polling);
}

#[test]
fn cancelling_stops_the_task_in_every_phase() {
    for reached in 0..4 {
        let mut engine = PollEngine::new();
        let way = vec![PollEvent::Spawned, PollEvent::StartSignal, PollEvent::GameProbe(true)];
        for happening in way.into_iter().take(reached) {
            engine.step(happening);
        }
        let step = engine.step(PollEvent::Cancelled);
        assert_eq!(step.command, PollCommand::Halt);
        assert!(step.forward.is_empty());
        assert_eq!(engine.phase(), PollPhase::Stopped);
        let later = vec![
            PollEvent::Spawned,
            PollEvent::StartSignal,
            PollEvent::GameProbe(true),
            PollEvent::Events(events(&[0, 1])),
        ];
        for happening in later {
            let step = engine.step(happening);
            assert_eq!(step.command, PollCommand::Halt);
            assert!(step.forward.is_empty());
        }
    }
}

#[test]
fn cancelling_while_waiting_for_the_game() {
    let mut engine = PollEngine::new();
    engine.step(PollEvent::Spawned);
    engine.step(PollEvent::StartSignal);
    engine.step(PollEvent::GameProbe(false));
    assert_eq!(engine.phase(), PollPhase::WaitingForGameStart);
    assert_eq!(engine.step(PollEvent::Cancelled).command, PollCommand::Halt);
    assert_eq!(engine.step(PollEvent::GameProbe(true)).command, PollCommand::Halt);
}

#[test]
fn failed_query_ends_the_task() {
    let mut engine = polling_engine();
    engine.step(PollEvent::Events(events(&[0])));
    let step = engine.step(PollEvent::QueryFailed);
    assert_eq!(step.command, PollCommand::Halt);
    assert_eq!(engine.phase(), PollPhase::Stopped);
    let step = engine.step(PollEvent::Events(events(&[1])));
    assert!(step.forward.is_empty());
    assert_eq!(engine.cursor(), 1);
}

#[test]
fn polling_rate_defaults_to_half_a_second() {
    assert_eq!(DEFAULT_POLLING_RATE_MILLIS, 500);
    assert_eq!(PROBE_TIMEOUT_MILLIS, 100);
}

#[test]
fn start_is_signalled_by_the_first_poll_only() {
    let mut handle = StreamHandle::new();
    assert_eq!(handle.on_poll(), ConsumerStep::SignalStart);
    for _ in 0..5 {
        assert_eq!(handle.on_poll(), ConsumerStep::Receive);
    }
    assert_eq!(handle.on_start_signal(true), ConsumerStep::Receive);
    assert_eq!(handle.on_start_signal(false), ConsumerStep::End);
}
