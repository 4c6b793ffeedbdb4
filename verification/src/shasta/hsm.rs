//! The hardware state manager, read from documents throughout.

pub mod utils;
