//! Groups and typed sessions.

pub mod utils;
