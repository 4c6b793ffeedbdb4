//! The configuration framework service.

pub mod session;
