//! Configuration sessions: the typed records and what is read off them.

pub mod mesa;
pub mod shasta;
