//! The configuration framework service: sessions and configurations.

pub mod configuration;
pub mod session;
