//! Watching the pods of a configuration session: bounded polling, container
//! phases, log decoding and the session log state machine.

pub mod attach;
pub mod locator;
pub mod log_stream;
pub mod orchestrator;
pub mod poller;
pub mod transport;
