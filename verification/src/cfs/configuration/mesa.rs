//! Configurations as typed records.

pub mod types;
