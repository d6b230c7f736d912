//! Kernel of an event-sourcing toolkit: wire-name derivation for command and
//! event variants, the capability contracts that domain types satisfy
//! (validate a command, fold an event), the lineage engine that threads
//! identity, correlation and causation identifiers through a causal chain,
//! and the envelope assembler that pairs a named serialized payload with its
//! lineage metadata for an append-only log.

pub mod concurrent;
pub mod envelope;
pub mod json;
pub mod metadata;
pub mod naming;
pub mod protocol;

pub use envelope::{CompleteEvent, Error, EventData};
pub use metadata::Metadata;
pub use naming::{CommandName, EventName, StateName};
pub use protocol::{Command, Dto, Event, State, StateNamed};
