//! End-to-end tick scenarios against the agent controller.

use bmo::agent::EventReaction;
use bmo::agent::Routine;
use bmo::agent::WorldEvent;
use bmo::agent::BMO;
use bmo::mood::Command;
use bmo::mood::Mood;
use bmo::mood::Sound;
use bmo::routines::Direction;

#[test]
fn starts_calm_with_nothing_pending() {
    let mut agent = BMO::new();
    assert_eq!(agent.current_mood(), Mood::Calm);
    assert!(!agent.has_pending_plan());
    assert!(agent.drain_outbox().is_empty());
}

#[test]
fn one_routine_per_mood() {
    // Steer the agent through all four moods with deterministic trial
    // outcomes; each tick's routine matches the mood it started in.
    let mut agent = BMO::new();
    assert_eq!(agent.begin_tick(), Routine::Calm);
    agent.record_no_border();
    agent.apply_transition(false, true);  // Calm -> Happy
    assert_eq!(agent.current_mood(), Mood::Happy);

    assert_eq!(agent.begin_tick(), Routine::Happy);
    agent.apply_transition(true, false);  // Happy -> Calm
    assert_eq!(agent.current_mood(), Mood::Calm);

    assert_eq!(agent.begin_tick(), Routine::Calm);
    agent.record_no_border();
    agent.apply_transition(true, false);  // Calm -> Sad
    assert_eq!(agent.current_mood(), Mood::Sad);

    assert_eq!(agent.begin_tick(), Routine::Sad);
    agent.apply_transition(false, true);  // Sad -> Panic
    assert_eq!(agent.current_mood(), Mood::Panic);

    assert_eq!(agent.begin_tick(), Routine::Panic);
    agent.apply_transition(false, false);  // stays Panic
    assert_eq!(agent.current_mood(), Mood::Panic);
}

#[test]
fn happy_tick_without_transition_keeps_mood_and_silence() {
    // Mood Happy, the lucky action's outcome does not touch the controller,
    // and the transition roll fails: the mood remains Happy and no command
    // is enqueued.
    let mut agent = BMO::new();
    agent.begin_tick();
    agent.record_no_border();
    agent.apply_transition(false, true);  // Calm -> Happy, announces Happy
    assert_eq!(agent.drain_outbox(), vec![Command::Play(Sound::Happy)]);

    agent.begin_tick();
    agent.apply_transition(false, false);
    assert_eq!(agent.current_mood(), Mood::Happy);
    assert!(agent.drain_outbox().is_empty());
}

#[test]
fn calm_tick_with_no_border_does_nothing() {
    // Mood Calm, no pending moves, no border target found: no move is
    // performed, the queue stays empty, and without a fired trial the mood
    // is unchanged.
    let mut agent = BMO::new();
    agent.begin_tick();
    assert!(!agent.has_pending_plan());
    agent.record_no_border();
    assert!(!agent.has_pending_plan());
    agent.apply_transition(false, false);
    assert_eq!(agent.current_mood(), Mood::Calm);
    assert!(!agent.has_pending_plan());
    assert!(agent.drain_outbox().is_empty());
}

#[test]
fn calm_no_border_twice_stays_idempotent() {
    // Repeating the empty Calm tick changes nothing either time.
    let mut agent = BMO::new();
    for _ in 0..2 {
        agent.begin_tick();
        agent.record_no_border();
        agent.apply_transition(false, false);
        assert_eq!(agent.current_mood(), Mood::Calm);
        assert!(!agent.has_pending_plan());
        assert!(agent.drain_outbox().is_empty());
    }
}

#[test]
fn fresh_plan_leftover_is_kept_for_next_tick() {
    let mut agent = BMO::new();
    agent.begin_tick();
    agent.record_fresh_plan_outcome(Some(vec![Direction::Up, Direction::Left]));
    assert!(agent.has_pending_plan());
    assert_eq!(agent.pending_plan(), &vec![Direction::Up, Direction::Left]);
    agent.apply_transition(false, false);

    // Next Calm tick replays the stored plan and clears it whatever came of
    // the replay.
    agent.begin_tick();
    assert!(agent.has_pending_plan());
    agent.record_stored_plan_executed();
    assert!(!agent.has_pending_plan());
    agent.apply_transition(false, false);
}

#[test]
fn fresh_plan_success_leaves_nothing_pending() {
    let mut agent = BMO::new();
    agent.begin_tick();
    agent.record_fresh_plan_outcome(None);
    assert!(!agent.has_pending_plan());
    agent.apply_transition(false, false);
}

#[test]
fn announcements_cross_ticks_in_order() {
    // Two ticks, each firing a transition: the outbox hands the
    // announcements over in the order they were emitted.
    let mut agent = BMO::new();
    agent.begin_tick();
    agent.record_no_border();
    agent.apply_transition(true, false);  // Calm -> Sad, announces Sad
    agent.begin_tick();
    agent.apply_transition(false, true);  // Sad -> Panic, announces Panic
    assert_eq!(
        agent.drain_outbox(),
        vec![Command::Play(Sound::Sad), Command::Play(Sound::Panic)]
    );
    assert_eq!(agent.current_mood(), Mood::Panic);
}

#[test]
fn only_weather_events_are_acted_on() {
    let agent = BMO::new();
    assert_eq!(agent.handle_event(WorldEvent::TimeChanged), EventReaction::ForwardWeather);
    for e in [
        WorldEvent::Ready,
        WorldEvent::Terminated,
        WorldEvent::DayChanged,
        WorldEvent::EnergyRecharged,
        WorldEvent::EnergyConsumed,
        WorldEvent::Moved,
        WorldEvent::TileContentUpdated,
        WorldEvent::AddedToBackpack,
        WorldEvent::RemovedFromBackpack,
    ] {
        assert_eq!(agent.handle_event(e), EventReaction::Ignore);
    }
}

#[test]
fn end_tick_reaches_only_reachable_moods() {
    // However the rolls come out, one tick from Calm ends in Calm, Sad or
    // Happy — never Panic.
    for _ in 0..50 {
        let mut agent = BMO::new();
        agent.begin_tick();
        agent.record_no_border();
        agent.end_tick();
        let m = agent.current_mood();
        assert!(m == Mood::Calm || m == Mood::Sad || m == Mood::Happy);
    }
}
