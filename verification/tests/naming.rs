use chrono_craft_engine::concurrent::{ConcurrentCommand, ConcurrentEvent};
use chrono_craft_engine::naming::{command_wire_name, event_wire_name};
use chrono_craft_engine::{Command, Event};

#[test]
fn event_name_casing() {
    assert_eq!(event_wire_name("TimeTaken"), "evt.time_taken");
}

#[test]
fn command_name_format() {
    assert_eq!(
        command_wire_name("ConcurrentState", "TakeTime"),
        "CMD.ConcurrentState.TakeTime"
    );
}

#[test]
fn naming_is_deterministic() {
    assert_eq!(
        command_wire_name("ConcurrentState", "TakeTime"),
        command_wire_name("ConcurrentState", "TakeTime")
    );
    assert_eq!(event_wire_name("TimeTaken"), event_wire_name("TimeTaken"));
}

#[test]
fn distinct_variants_get_distinct_names() {
    assert_ne!(
        command_wire_name("ConcurrentState", "TakeTime"),
        command_wire_name("ConcurrentState", "DropTime")
    );
    assert_ne!(event_wire_name("TimeTaken"), event_wire_name("TimeDropped"));
}

#[test]
fn sample_command_name() {
    let cmd = ConcurrentCommand::TakeTime(1, "alice".to_string());
    assert_eq!(cmd.command_name(), "CMD.ConcurrentState.TakeTime");
}

#[test]
fn sample_event_name() {
    let evt = ConcurrentEvent::TimeTaken("alice".to_string());
    assert_eq!(evt.event_name(), "evt.time_taken");
}

#[test]
fn sample_payloads() {
    let cmd = ConcurrentCommand::TakeTime(1, "alice".to_string());
    assert_eq!(cmd.payload(), "{\"TakeTime\":[1,\"alice\"]}");
    let cmd = ConcurrentCommand::TakeTime(255, "bob".to_string());
    assert_eq!(cmd.payload(), "{\"TakeTime\":[255,\"bob\"]}");
    let cmd = ConcurrentCommand::TakeTime(42, "carol".to_string());
    assert_eq!(cmd.payload(), "{\"TakeTime\":[42,\"carol\"]}");
    let evt = ConcurrentEvent::TimeTaken("alice".to_string());
    assert_eq!(evt.payload(), "{\"TimeTaken\":\"alice\"}");
}
