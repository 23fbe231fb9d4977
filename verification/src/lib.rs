//! Run a wrapped command on exactly one replica at a time, arbitrated by a
//! distributed lease.
//!
//! The library holds the decisions: which event a lease attempt amounts to,
//! what the supervised process's lifecycle allows, what the orchestrator does
//! on each event, and what the status endpoint answers. It performs no I/O
//! itself. A driver feeds it what happened and carries out what it asks for.

pub mod guarantees;
pub mod lease;
pub mod orchestrator;
pub mod process_launcher;
pub mod state;
pub mod status_server;
