//! Client-side logic for a system management stack.
//!
//! The heart of the library observes configuration sessions that run as
//! short-lived pods in a cluster: it locates their pods and containers,
//! waits for them with bounded polling, decodes their logs, finds the way
//! into the container they customize, and prepares the mutually
//! authenticated transport. Around it stand the records of the services
//! (sessions, configurations, boot templates, node groups, inventory) and
//! what is read off them.
//!
//! Every rule is stated as a contract and proved. The library opens no
//! connection and never waits: where the network is needed, it says what
//! to do next and takes what came of it.

pub mod bos;
pub mod cfs;
pub mod common;
pub mod hsm;
pub mod mesa;
pub mod node;
pub mod shasta;
pub mod terraform;
