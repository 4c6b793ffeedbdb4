//! Templates as typed records.

pub mod types;
