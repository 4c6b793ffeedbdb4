//! Configuration sessions.

pub mod get_response_struct;
