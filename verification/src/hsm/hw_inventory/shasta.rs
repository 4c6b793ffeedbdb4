//! The inventory as the service's document.

pub mod utils;
