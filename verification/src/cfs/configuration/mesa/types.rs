//! The records of a configuration.

pub mod cfs_configuration_request;
