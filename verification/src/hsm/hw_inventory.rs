//! The hardware inventory of a node.

pub mod shasta;
