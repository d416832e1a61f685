//! A durable task scheduler library: tasks are one-shot or recurring, are
//! persisted in a store, and a single dispatcher fires each task at or after
//! its trigger time, recording the outcome of every execution.
//!
//! The scheduling logic lives here, verified: the data model and its
//! invariants, the store's state transitions, request validation, the
//! execute-record-retire/reschedule step, and the dispatcher's decisions.
//! The surrounding process (HTTP front end, SQL persistence, the webhook
//! caller, the event loop) drives these functions from outside.

pub mod config;
pub mod domain;
pub mod dto;
pub mod errors;
pub mod scheduler;
pub mod service;
pub mod store;
