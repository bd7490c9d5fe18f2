//! Core of a telemetry service: the record model and its time-window filter,
//! the query serializer that owns the store, and the per-connection streaming
//! session. Everything here is a pure state machine or a pure function; the
//! network, the store round trips and the task runtime live with the caller.

pub mod actor;
pub mod query;
pub mod record;
pub mod session;
pub mod timestamp;
