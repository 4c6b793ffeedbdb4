//! Resources of the system management stack.

pub mod hsmgroup;
