//! Records in the library's own shape.

pub mod cfs;
