//! Building blocks shared by the service clients.

pub mod endpoints;
pub mod fields;
pub mod json;
pub mod kubernetes;
pub mod sorting;
pub mod text;
