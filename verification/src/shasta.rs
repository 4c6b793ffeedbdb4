//! Records in the services' own shape.

pub mod hsm;
