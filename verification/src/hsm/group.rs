//! Node groups.

pub mod mesa;
pub mod shasta;
