//! The command/event pipeline: a poller that owns the driver and a
//! controller that watches what the poller reports.
//!
//! Both are state machines. Each is told what happened and answers with what
//! to do next; waiting, queues and the bus belong to the caller.

pub mod config;
pub mod controller;
pub mod poller;
