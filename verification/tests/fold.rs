use chrono_craft_engine::concurrent::{ConcurrentCommand, ConcurrentEvent, ConcurrentState};
use chrono_craft_engine::protocol::play_all;
use chrono_craft_engine::{Dto, State};

#[test]
fn fold_replay_is_deterministic() {
    let events = vec![
        ConcurrentEvent::TimeTaken("alice".to_string()),
        ConcurrentEvent::TimeTaken("bob".to_string()),
    ];
    let mut first = ConcurrentState::default();
    let mut second = ConcurrentState::default();
    play_all(&mut first, &events);
    play_all(&mut second, &events);
    assert_eq!(first, second);
    assert_eq!(first.names, vec!["alice".to_string(), "bob".to_string()]);
}

#[test]
fn fold_is_order_sensitive() {
    let forward = vec![
        ConcurrentEvent::TimeTaken("alice".to_string()),
        ConcurrentEvent::TimeTaken("bob".to_string()),
    ];
    let backward = vec![
        ConcurrentEvent::TimeTaken("bob".to_string()),
        ConcurrentEvent::TimeTaken("alice".to_string()),
    ];
    let mut first = ConcurrentState::default();
    let mut second = ConcurrentState::default();
    play_all(&mut first, &forward);
    play_all(&mut second, &backward);
    assert_ne!(first, second);
}

#[test]
fn take_time_scenario() {
    let state = ConcurrentState::default();
    let events = state
        .try_command(ConcurrentCommand::TakeTime(1, "alice".to_string()))
        .unwrap();
    assert_eq!(
        events,
        vec![ConcurrentEvent::TimeTaken("alice".to_string())]
    );
    let mut state = state;
    play_all(&mut state, &events);
    assert_eq!(state.names, vec!["alice".to_string()]);
}

#[test]
fn play_event_appends_in_order() {
    let mut state = ConcurrentState::default();
    state.play_event(&ConcurrentEvent::TimeTaken("alice".to_string()));
    state.play_event(&ConcurrentEvent::TimeTaken("bob".to_string()));
    assert_eq!(state.names, vec!["alice".to_string(), "bob".to_string()]);
}
