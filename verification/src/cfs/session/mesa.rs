//! Sessions as typed records.

pub mod types;
pub mod utils;
