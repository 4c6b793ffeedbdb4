//! Groups as the service's documents.

pub mod utils;
