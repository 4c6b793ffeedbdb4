//! What the infrastructure-as-code provider asks of this library.

pub mod csm;
