//! Core of a desktop shell that supervises a sidecar backend process.
//!
//! The library holds the decision logic: where the backend's working
//! directory lives (an ordered chain of candidate deployment layouts),
//! which interpreter launches it, the exact launch specification, the
//! single shared slot for the live child handle, and the mapping from
//! host lifecycle events to supervisor operations.  The host binary
//! performs the filesystem probes, process creation and notification
//! delivery that these decisions call for.

pub mod lifecycle;
pub mod supervisor;
pub mod interpreter;
pub mod command;
pub mod resolver;
