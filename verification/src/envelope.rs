//! The envelope assembler: pairs a named serialized payload with freshly
//! chained lineage metadata into the transport-ready unit handed to the
//! external append-only log.

use crate::metadata::{spec_metadata_json, spec_previous, Metadata};
use crate::protocol::{Command, Event};
use crate::json::{check_json, json_ok};
use vstd::prelude::*;

verus! {

/// Failure of envelope assembly or of history read-back.
#[derive(Debug)]
pub enum Error {
    /// The requested item is not in the log.
    NotFound,
    /// The payload is not a well-formed serialized document; holds the
    /// parser's message.
    SerdeError(String),
}

/// A named, serialized body as the external log stores it. The identity is
/// bound when the envelope is assembled; the custom metadata slot carries
/// the serialized lineage.
#[derive(Debug)]
pub struct EventData {
    pub(crate) id: Option<u128>,
    pub(crate) event_type: String,
    pub(crate) payload: String,
    pub(crate) custom_metadata: Option<String>,
}

impl EventData {
    /// The transport identity bound to this body, if one was.
    pub open(crate) spec fn spec_id(self) -> Option<u128> {
        self.id
    }

    /// The wire name the payload is stored under.
    pub open(crate) spec fn spec_event_type(self) -> Seq<char> {
        self.event_type@
    }

    /// The serialized payload text.
    pub open(crate) spec fn spec_payload(self) -> Seq<char> {
        self.payload@
    }

    /// The serialized lineage attached for transport, if any.
    pub open(crate) spec fn spec_custom_metadata(self) -> Option<Seq<char>> {
        match self.custom_metadata {
            Some(s) => Some(s@),
            None => None,
        }
    }

    /// Accepts a serialized payload under its wire name; a text that is not
    /// one well-formed JSON document is rejected with the serialization
    /// error.
    pub fn json(event_type: String, payload: String) -> (r: Result<EventData, Error>)
        ensures
            r is Ok <==> json_ok(payload@),
            r matches Ok(d) ==> {
                &&& d.spec_id() is None
                &&& d.spec_event_type() == event_type@
                &&& d.spec_payload() == payload@
                &&& d.spec_custom_metadata() is None
            },
            r matches Err(e) ==> e is SerdeError,
    {
        match check_json(payload.as_str()) {
            Ok(()) => Ok(EventData { id: None, event_type, payload, custom_metadata: None }),
            Err(e) => Err(Error::SerdeError(e)),
        }
    }

    /// Binds the transport identity; every other attribute is kept.
    pub fn id(self, id: u128) -> (r: EventData)
        ensures
            r.spec_id() == Some(id),
            r.spec_event_type() == self.spec_event_type(),
            r.spec_payload() == self.spec_payload(),
            r.spec_custom_metadata() == self.spec_custom_metadata(),
    {
        EventData { id: Some(id), ..self }
    }

    pub fn get_id(&self) -> (r: Option<u128>)
        ensures
            r == self.spec_id(),
    {
        self.id
    }

    pub fn event_type(&self) -> (r: &String)
        ensures
            r@ == self.spec_event_type(),
    {
        &self.event_type
    }

    pub fn payload(&self) -> (r: &String)
        ensures
            r@ == self.spec_payload(),
    {
        &self.payload
    }

    pub fn custom_metadata(&self) -> (r: Option<&String>)
        ensures
            match r {
                Some(s) => self.spec_custom_metadata() == Some(s@),
                None => self.spec_custom_metadata() is None,
            },
    {
        self.custom_metadata.as_ref()
    }
}

/// The transport-ready unit: a named serialized body paired with its lineage
/// metadata. Once produced it is immutable and handed by value to the
/// external log.
#[derive(Debug)]
pub struct CompleteEvent {
    pub(crate) event_data: EventData,
    pub(crate) metadata: Metadata,
}

impl CompleteEvent {
    pub open(crate) spec fn spec_event_data(self) -> EventData {
        self.event_data
    }

    pub open(crate) spec fn spec_metadata(self) -> Metadata {
        self.metadata
    }

    pub fn event_data(&self) -> (r: &EventData)
        ensures
            *r == self.spec_event_data(),
    {
        &self.event_data
    }

    pub fn metadata(&self) -> (r: &Metadata)
        ensures
            *r == self.spec_metadata(),
    {
        &self.metadata
    }

    /// The stored body with the serialized lineage metadata attached.
    pub fn full_event_data(&self) -> (r: Result<EventData, Error>)
        ensures
            r matches Ok(d) && d.spec_id() == self.spec_event_data().spec_id()
                && d.spec_event_type() == self.spec_event_data().spec_event_type()
                && d.spec_payload() == self.spec_event_data().spec_payload()
                && d.spec_custom_metadata() == Some(spec_metadata_json(self.spec_metadata())),
    {
        Ok(
            EventData {
                id: self.event_data.id,
                event_type: self.event_data.event_type.clone(),
                payload: self.event_data.payload.clone(),
                custom_metadata: Some(self.metadata.to_json()),
            },
        )
    }

    /// Assembles the envelope of a command: its payload under its wire name,
    /// with metadata freshly started when there is no predecessor, else
    /// chained from it, and marked as a command. A payload that is not one
    /// well-formed JSON document is rejected with the serialization error.
    pub fn from_command<C: Command>(command: C, previous_metadata: Option<&Metadata>) -> (r:
        Result<Self, Error>)
        ensures
            r is Ok <==> json_ok(command.spec_payload()),
            r matches Ok(env) ==> {
                &&& env.spec_event_data().spec_event_type() == command.spec_name()
                &&& env.spec_event_data().spec_payload() == command.spec_payload()
                &&& env.spec_event_data().spec_custom_metadata() is None
                &&& env.spec_event_data().spec_id() matches Some(x) && env.spec_metadata()
                    == Metadata::spec_chained(x, spec_previous(previous_metadata), false)
            },
            r matches Err(e) ==> e is SerdeError,
    {
        let name = command.command_name();
        let body = command.payload();
        match EventData::json(name, body) {
            Ok(event_data) => Ok(Self::from_event_data(event_data, previous_metadata, false)),
            Err(e) => Err(e),
        }
    }

    /// Assembles the envelope of an event: its payload under its wire name,
    /// with metadata chained from the mandatory predecessor — an event is
    /// always caused by something — and marked as an event. A payload that
    /// is not one well-formed JSON document is rejected with the
    /// serialization error.
    pub fn from_event<E: Event>(event: E, previous_metadata: &Metadata) -> (r: Result<Self, Error>)
        ensures
            r is Ok <==> json_ok(event.spec_payload()),
            r matches Ok(env) ==> {
                &&& env.spec_event_data().spec_event_type() == event.spec_name()
                &&& env.spec_event_data().spec_payload() == event.spec_payload()
                &&& env.spec_event_data().spec_custom_metadata() is None
                &&& env.spec_event_data().spec_id() matches Some(x) && env.spec_metadata()
                    == Metadata::spec_chained(x, Some(*previous_metadata), true)
            },
            r matches Err(e) ==> e is SerdeError,
    {
        let name = event.event_name();
        let body = event.payload();
        match EventData::json(name, body) {
            Ok(event_data) => Ok(Self::from_event_data(event_data, Some(previous_metadata), true)),
            Err(e) => Err(e),
        }
    }

    /// Binds a fresh identity to the body and computes the chained metadata;
    /// the body and the metadata share the one identity.
    fn from_event_data(event_data: EventData, previous_metadata: Option<&Metadata>, is_event: bool)
        -> (r: Self)
        ensures
            r.spec_event_data().spec_id() matches Some(x) && r.spec_metadata()
                == Metadata::spec_chained(x, spec_previous(previous_metadata), is_event),
            r.spec_event_data().spec_event_type() == event_data.spec_event_type(),
            r.spec_event_data().spec_payload() == event_data.spec_payload(),
            r.spec_event_data().spec_custom_metadata() == event_data.spec_custom_metadata(),
    {
        let id = crate::metadata::fresh_id();
        let event_data = event_data.id(id);
        let metadata = Metadata::chained(id, previous_metadata, is_event);
        CompleteEvent { event_data, metadata }
    }
}

} // verus!
