use chrono_craft_engine::concurrent::{ConcurrentCommand, ConcurrentEvent};
use chrono_craft_engine::{CompleteEvent, Error, EventData, Metadata};

#[test]
fn end_to_end_lineage_scenario() {
    let command = ConcurrentCommand::TakeTime(1, "alice".to_string());
    let command_envelope = CompleteEvent::from_command(command, None).unwrap();
    let command_metadata = *command_envelope.metadata();
    assert_eq!(
        command_metadata.id(),
        Some(command_metadata.correlation_id())
    );
    assert_eq!(
        command_metadata.causation_id(),
        command_metadata.correlation_id()
    );
    assert!(!command_metadata.is_event());

    let event = ConcurrentEvent::TimeTaken("alice".to_string());
    let event_envelope = CompleteEvent::from_event(event, &command_metadata).unwrap();
    let event_metadata = event_envelope.metadata();
    assert_eq!(
        event_metadata.correlation_id(),
        command_metadata.correlation_id()
    );
    assert_eq!(
        event_metadata.causation_id(),
        command_metadata.id().unwrap()
    );
    assert!(event_metadata.is_event());
    assert_ne!(event_metadata.id(), command_metadata.id());
}

#[test]
fn command_envelope_content() {
    let command = ConcurrentCommand::TakeTime(1, "alice".to_string());
    let envelope = CompleteEvent::from_command(command, None).unwrap();
    let data = envelope.event_data();
    assert_eq!(data.event_type(), "CMD.ConcurrentState.TakeTime");
    assert_eq!(data.payload(), "{\"TakeTime\":[1,\"alice\"]}");
    assert_eq!(data.get_id(), envelope.metadata().id());
    assert!(data.custom_metadata().is_none());
}

#[test]
fn event_envelope_content() {
    let previous = Metadata::start(false);
    let event = ConcurrentEvent::TimeTaken("alice".to_string());
    let envelope = CompleteEvent::from_event(event, &previous).unwrap();
    let data = envelope.event_data();
    assert_eq!(data.event_type(), "evt.time_taken");
    assert_eq!(data.payload(), "{\"TimeTaken\":\"alice\"}");
    assert_eq!(data.get_id(), envelope.metadata().id());
}

#[test]
fn command_envelope_continues_a_chain() {
    let previous = Metadata::start(false);
    let command = ConcurrentCommand::TakeTime(2, "bob".to_string());
    let envelope = CompleteEvent::from_command(command, Some(&previous)).unwrap();
    let metadata = envelope.metadata();
    assert_eq!(metadata.correlation_id(), previous.correlation_id());
    assert_eq!(metadata.causation_id(), previous.id().unwrap());
    assert!(!metadata.is_event());
}

#[test]
fn malformed_payload_is_rejected() {
    let refused = EventData::json("evt.time_taken".to_string(), "{not json".to_string());
    assert!(matches!(refused, Err(Error::SerdeError(_))));
}

#[test]
fn quoted_name_makes_a_rejected_payload() {
    let command = ConcurrentCommand::TakeTime(1, "al\"ice".to_string());
    let refused = CompleteEvent::from_command(command, None);
    assert!(matches!(refused, Err(Error::SerdeError(_))));
}

#[test]
fn well_formed_payload_is_accepted() {
    let data = EventData::json(
        "evt.time_taken".to_string(),
        "{\"TimeTaken\":\"alice\"}".to_string(),
    )
    .unwrap();
    assert_eq!(data.event_type(), "evt.time_taken");
    assert_eq!(data.payload(), "{\"TimeTaken\":\"alice\"}");
    assert_eq!(data.get_id(), None);
    assert!(data.custom_metadata().is_none());
}

#[test]
fn full_event_data_attaches_the_lineage() {
    let command = ConcurrentCommand::TakeTime(1, "alice".to_string());
    let envelope = CompleteEvent::from_command(command, None).unwrap();
    let full = envelope.full_event_data().unwrap();
    assert_eq!(full.get_id(), envelope.event_data().get_id());
    assert_eq!(full.event_type(), envelope.event_data().event_type());
    assert_eq!(full.payload(), envelope.event_data().payload());
    let attached = full.custom_metadata().unwrap();
    assert_eq!(*attached, envelope.metadata().to_json());
    let value: serde_json::Value = serde_json::from_str(attached).unwrap();
    let correlation = uuid::Uuid::from_u128(envelope.metadata().correlation_id())
        .hyphenated()
        .to_string();
    assert_eq!(value["$correlationId"].as_str().unwrap(), correlation);
    assert_eq!(value["is_event"].as_bool().unwrap(), false);
}
