//! Nodes: their names and what the services know of them.

pub mod types;
pub mod utils;
