//! The records of a boot session template: what is sent to the service and
//! what it answers.

pub mod request_payload;
pub mod response_payload;
