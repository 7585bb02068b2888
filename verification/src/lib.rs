//! Core of an offline-capable personal data application: a command
//! dispatcher over a JSON message protocol, a single-consumer job pipeline
//! with a run flag, an outgoing synchronization queue with a pending/frozen
//! item lifecycle, and a typed event bus.

pub mod config;
pub mod coordinator;
pub mod dispatch;
pub mod errors;
pub mod events;
pub mod json;
pub mod laws;
pub mod runtime;
pub mod sync_queue;
