//! The boot orchestration service.

pub mod template;
